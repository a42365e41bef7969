use rig_supervisor::directory_shenanigans::{ExistingDirectory, Provision};
use rig_supervisor::gst_viewer_dumper::Args;
use rig_supervisor::video_capture::gstreamer_process::{
    on_bus_message, pipeline_description, BusMessage, Finished, GstreamerInstance, PipelineState,
    StartupError,
};
use rig_supervisor::video_capture::{
    after_provisioning, created_loopback, enable_low_latency_for_magewell, ffplay_preview, file_size, list_devices,
    loopback_label, low_latency_arguments, parse_section, plan_loopback, provisioning_arguments,
    recording_arguments, recordings_directory_path, video_file_path, video_file_path_at,
    video_nr_from_video, CaptureError, CommandFailure, CommandOutput, DetailedVideoDevice,
    LoopbackDevice, LoopbackPlan, LowLatencyError, OutputExt, ProvisioningError, SuccessOutput,
    VideoDevice, SETTLE_DELAY_MS,
};

fn device(path: &str) -> VideoDevice {
    VideoDevice(path.to_owned())
}

fn detailed(path: &str, details: &str) -> DetailedVideoDevice {
    DetailedVideoDevice { video_device: device(path), details: details.to_owned() }
}

const INVENTORY: &str = "USB Capture HDMI 4K+ (usb-0000:00:14.0-2):\n\t/dev/video0\n\t/dev/video1\n\t/dev/media0\n\nIntegrated Camera (usb-0000:00:14.0-8):\n\t/dev/video2\n";

#[test]
fn inventory_lists_each_device_under_its_header() {
    assert_eq!(
        list_devices(INVENTORY).unwrap(),
        vec![
            detailed("/dev/video0", "USB Capture HDMI 4K+ (usb-0000:00:14.0-2):"),
            detailed("/dev/video1", "USB Capture HDMI 4K+ (usb-0000:00:14.0-2):"),
            detailed("/dev/media0", "USB Capture HDMI 4K+ (usb-0000:00:14.0-2):"),
            detailed("/dev/video2", "Integrated Camera (usb-0000:00:14.0-8):"),
        ]
    );
}

#[test]
fn empty_inventory_lists_nothing() {
    assert_eq!(list_devices("").unwrap(), vec![]);
    assert_eq!(list_devices("\n").unwrap(), vec![]);
    assert_eq!(list_devices("\n\n").unwrap(), vec![]);
}

#[test]
fn inventory_reads_the_same_twice() {
    assert_eq!(list_devices(INVENTORY), list_devices(INVENTORY));
    assert_eq!(list_devices(""), list_devices(""));
}

#[test]
fn section_of_a_header_alone_names_no_device() {
    assert_eq!(parse_section("Some camera:").unwrap(), vec![]);
    assert_eq!(parse_section("Some camera:\n").unwrap(), vec![]);
    assert_eq!(parse_section("Some camera:\n   \n\t\n").unwrap(), vec![]);
    assert_eq!(list_devices("Some camera:\n\nOther:\n\t/dev/video7").unwrap(), vec![
        detailed("/dev/video7", "Other:")
    ]);
}

#[test]
fn section_trims_header_and_device_lines() {
    assert_eq!(
        parse_section("  Camera  \n  /dev/video3  \n\n/dev/video4").unwrap(),
        vec![detailed("/dev/video3", "Camera"), detailed("/dev/video4", "Camera")]
    );
}

#[test]
fn section_whose_header_is_empty() {
    assert_eq!(parse_section("\n/dev/video5").unwrap(), vec![detailed("/dev/video5", "")]);
}

#[test]
fn video_device_is_its_path() {
    assert_eq!(VideoDevice::new("/dev/video0"), Ok(device("/dev/video0")));
    assert_eq!(VideoDevice::new(""), Ok(device("")));
    assert_eq!(device("/dev/video0").path(), "/dev/video0");
}

#[test]
fn capture_devices_are_the_entries_with_video_in_their_path() {
    let entries: Vec<String> = ["/dev/null", "/dev/video0", "/dev/sda", "/dev/video10", "/dev/v4l"]
        .iter()
        .map(|e| e.to_string())
        .collect();
    assert_eq!(VideoDevice::all(&entries), vec![device("/dev/video0"), device("/dev/video10")]);
    assert_eq!(VideoDevice::all(&vec![]), vec![]);
}

#[test]
fn capture_devices_come_in_the_order_of_texts() {
    let entries: Vec<String> =
        ["/dev/video2", "/dev/tty", "/dev/video10", "/dev/video0", "/dev/video", "/dev/video2"]
            .iter()
            .map(|e| e.to_string())
            .collect();
    assert_eq!(
        VideoDevice::all(&entries),
        vec![
            device("/dev/video"),
            device("/dev/video0"),
            device("/dev/video10"),
            device("/dev/video2"),
            device("/dev/video2"),
        ]
    );
}

#[test]
fn malformed_section_is_an_error_that_names_it() {
    assert_eq!(
        list_devices("Cam:\n\tnot-a-device"),
        Err(CaptureError::MalformedSection("Cam:\n\tnot-a-device".to_owned()))
    );
    assert_eq!(
        parse_section("Cam:\n\t/dev/video0\n\t/dev/video\n"),
        Err(CaptureError::MalformedSection("Cam:\n\t/dev/video0\n\t/dev/video\n".to_owned()))
    );
    assert_eq!(
        CaptureError::MalformedSection("Cam:\n\tx".to_owned()).message(),
        "malformed section: Cam:\n\tx"
    );
}

#[test]
fn first_malformed_section_is_the_one_reported() {
    let listing = "Good:\n\t/dev/video0\n\nBad:\n\t/dev/video1x\n\nWorse:\n\tnothing";
    assert_eq!(
        list_devices(listing),
        Err(CaptureError::MalformedSection("Bad:\n\t/dev/video1x".to_owned()))
    );
}

#[test]
fn device_line_needs_a_device_number_that_fits() {
    assert!(list_devices("Cam:\n/dev/video2147483647").is_ok());
    assert_eq!(
        list_devices("Cam:\n/dev/video2147483648"),
        Err(CaptureError::MalformedSection("Cam:\n/dev/video2147483648".to_owned()))
    );
    assert_eq!(list_devices("Cam without a number:\n\nOther one:"), Ok(vec![]));
    assert_eq!(
        list_devices("Cam:\n\n\nthird line after a blank one"),
        Err(CaptureError::MalformedSection("\nthird line after a blank one".to_owned()))
    );
}

#[test]
fn checked_device_has_to_be_present() {
    let present = vec![device("/dev/video0"), device("/dev/video2")];
    assert_eq!(VideoDevice::new_checked("/dev/video2", &present), Ok(device("/dev/video2")));
    assert_eq!(
        VideoDevice::new_checked("/dev/video1", &present),
        Err(CaptureError::NotPresent(device("/dev/video1")))
    );
    assert_eq!(
        VideoDevice::new_checked("/dev/video0", &vec![]),
        Err(CaptureError::NotPresent(device("/dev/video0")))
    );
}

#[test]
fn recorder_arguments_check_the_device() {
    let present = vec![device("/dev/video0")];
    assert_eq!(
        Args::new("/dev/video0", "out.mkv".to_owned(), &present),
        Ok(Args { video_device: device("/dev/video0"), output_path: "out.mkv".to_owned() })
    );
    assert_eq!(
        Args::new("/dev/video9", "out.mkv".to_owned(), &present),
        Err(CaptureError::NotPresent(device("/dev/video9")))
    );
}

#[test]
fn device_number_stands_after_the_first_digit() {
    assert_eq!(video_nr_from_video(&device("/dev/video0")), Ok(0));
    assert_eq!(video_nr_from_video(&device("/dev/video12")), Ok(12));
    assert_eq!(video_nr_from_video(&device("/dev/video007")), Ok(7));
    assert_eq!(video_nr_from_video(&device("/dev/video2147483647")), Ok(2147483647));
}

#[test]
fn device_number_is_missing_or_malformed() {
    for path in ["/dev/video", "", "/dev/video1a", "/dev/v4l/video3", "/dev/video2147483648", "/dev/video-1x"] {
        assert_eq!(
            video_nr_from_video(&device(path)),
            Err(CaptureError::NoDeviceNumber(device(path))),
            "{path}"
        );
    }
}

#[test]
fn loopback_label_names_the_device_number() {
    assert_eq!(loopback_label(&device("/dev/video1")), Ok("loopback-device-for-1".to_owned()));
    assert_eq!(loopback_label(&device("/dev/video42")), Ok("loopback-device-for-42".to_owned()));
    assert_eq!(
        loopback_label(&device("/dev/video")),
        Err(CaptureError::NoDeviceNumber(device("/dev/video")))
    );
}

#[test]
fn existing_loopback_is_used() {
    let present = vec![
        detailed("/dev/video1", "USB Capture"),
        detailed("/dev/video5", "loopback-device-for-1 (platform:v4l2loopback-000):"),
        detailed("/dev/video6", "loopback-device-for-1 again"),
    ];
    assert_eq!(
        plan_loopback(device("/dev/video1"), &present),
        Ok(LoopbackPlan::Existing(LoopbackDevice {
            loopback_device: device("/dev/video5"),
            for_device: device("/dev/video1"),
        }))
    );
}

#[test]
fn missing_loopback_is_provisioned() {
    let present = vec![
        detailed("/dev/video1", "USB Capture"),
        detailed("/dev/video5", "loopback-device-for-2"),
    ];
    assert_eq!(
        plan_loopback(device("/dev/video1"), &present),
        Ok(LoopbackPlan::Provision { video_nr: 1, label: "loopback-device-for-1".to_owned() })
    );
    assert_eq!(
        plan_loopback(device("/dev/video3"), &vec![]),
        Ok(LoopbackPlan::Provision { video_nr: 3, label: "loopback-device-for-3".to_owned() })
    );
}

#[test]
fn loopback_label_of_a_longer_number_matches_too() {
    let present = vec![detailed("/dev/video9", "loopback-device-for-12")];
    assert_eq!(
        plan_loopback(device("/dev/video1"), &present),
        Ok(LoopbackPlan::Existing(LoopbackDevice {
            loopback_device: device("/dev/video9"),
            for_device: device("/dev/video1"),
        }))
    );
}

#[test]
fn device_without_number_has_no_loopback() {
    assert_eq!(
        plan_loopback(device("/dev/camera"), &vec![detailed("/dev/video5", "loopback-device-for-1")]),
        Err(CaptureError::NoDeviceNumber(device("/dev/camera")))
    );
}

#[test]
fn created_loopback_is_the_new_device_with_the_label() {
    let before = vec![detailed("/dev/video1", "USB Capture")];
    let after = vec![
        detailed("/dev/video1", "USB Capture"),
        detailed("/dev/video7", "something new"),
        detailed("/dev/video8", "loopback-device-for-1 (platform)"),
    ];
    assert_eq!(
        created_loopback(device("/dev/video1"), "loopback-device-for-1", &before, &after),
        Ok(LoopbackDevice { loopback_device: device("/dev/video8"), for_device: device("/dev/video1") })
    );
}

#[test]
fn created_loopback_is_not_a_device_that_was_there() {
    let before = vec![detailed("/dev/video8", "loopback-device-for-1")];
    let after = vec![
        detailed("/dev/video8", "loopback-device-for-1"),
        detailed("/dev/video9", "loopback-device-for-1"),
    ];
    assert_eq!(
        created_loopback(device("/dev/video1"), "loopback-device-for-1", &before, &after),
        Ok(LoopbackDevice { loopback_device: device("/dev/video9"), for_device: device("/dev/video1") })
    );
}

#[test]
fn provisioning_without_effect_is_an_error() {
    let before = vec![detailed("/dev/video1", "USB Capture")];
    assert_eq!(
        created_loopback(device("/dev/video1"), "loopback-device-for-1", &before, &before),
        Err(CaptureError::NotCreated)
    );
    let after = vec![detailed("/dev/video1", "USB Capture"), detailed("/dev/video2", "other")];
    assert_eq!(
        created_loopback(device("/dev/video1"), "loopback-device-for-1", &before, &after),
        Err(CaptureError::NotCreated)
    );
}

#[test]
fn second_resolution_reuses_the_twin_without_provisioning() {
    let source = device("/dev/video1");
    let before = vec![detailed("/dev/video1", "USB Capture")];
    let label = match plan_loopback(source.clone(), &before).unwrap() {
        LoopbackPlan::Provision { video_nr, label } => {
            assert_eq!(video_nr, 1);
            label
        }
        LoopbackPlan::Existing(_) => panic!("nothing to reuse yet"),
    };
    let after = vec![
        detailed("/dev/video1", "USB Capture"),
        detailed("/dev/video4", "loopback-device-for-1"),
    ];
    let first = created_loopback(source.clone(), &label, &before, &after).unwrap();
    let second = plan_loopback(source, &after).unwrap();
    assert_eq!(second, LoopbackPlan::Existing(first));
}

#[test]
fn capture_error_messages() {
    assert_eq!(
        CaptureError::NotPresent(device("/dev/video1")).message(),
        "device /dev/video1 is not present"
    );
    assert_eq!(
        CaptureError::NoDeviceNumber(device("/dev/cam")).message(),
        "extracting video device number: /dev/cam"
    );
    assert_eq!(CaptureError::NotCreated.message(), "video loopback device wasn't created");
}

#[test]
fn provisioning_arguments_name_number_and_label() {
    assert_eq!(
        provisioning_arguments(1, "loopback-device-for-1"),
        vec!["modprobe", "v4l2loopback", "video_nr=1", "card_label=loopback-device-for-1"]
    );
    assert_eq!(provisioning_arguments(-3, "x")[2], "video_nr=-3");
}

#[test]
fn preview_and_recording_arguments() {
    assert_eq!(ffplay_preview(&device("/dev/video5")), vec!["/dev/video5"]);
    assert_eq!(
        recording_arguments(&device("/dev/video1"), "/tmp/out.mov"),
        vec![
            "-f", "v4l2", "-video_size", "1920x1080", "-thread_queue_size", "512", "-r", "25",
            "-i", "/dev/video1", "-crf", "0", "-c:v", "libx264", "-preset", "ultrafast",
            "-threads", "8", "/tmp/out.mov",
        ]
    );
    assert_eq!(
        low_latency_arguments(&device("/dev/video1")),
        vec!["--video-output-lowlatency", "on", "/dev/video1"]
    );
}

fn output(success: bool, stdout: &str, stderr: &str) -> CommandOutput {
    CommandOutput {
        success,
        status: if success { "exit status: 0".to_owned() } else { "exit status: 1".to_owned() },
        stdout: stdout.to_owned(),
        stderr: stderr.to_owned(),
    }
}

#[test]
fn success_output_tells_success_from_failure() {
    assert_eq!(
        output(true, "out", "err").success_output(),
        Ok(SuccessOutput { stdout: "out".to_owned(), stderr: "err".to_owned() })
    );
    assert_eq!(
        output(false, "out", "err").success_output(),
        Err(CommandFailure {
            status: "exit status: 1".to_owned(),
            stdout: "out".to_owned(),
            stderr: "err".to_owned(),
        })
    );
}

#[test]
fn command_failure_message_holds_output_and_status() {
    let failure = output(false, "out", "err").success_output().unwrap_err();
    assert_eq!(
        failure.message(),
        "output:\nstdout: out\nstderr: err\n: bad status: exit status: 1"
    );
}

#[test]
fn low_latency_needs_the_word_of_success() {
    assert_eq!(
        enable_low_latency_for_magewell(Ok(output(true, "Set low latency successfully.", ""))),
        Ok(())
    );
    assert_eq!(enable_low_latency_for_magewell(Ok(output(true, "", "done successfully"))), Ok(()));
    assert_eq!(
        enable_low_latency_for_magewell(Ok(output(true, "nothing", "to see"))),
        Err(LowLatencyError::NotConfirmed(SuccessOutput {
            stdout: "nothing".to_owned(),
            stderr: "to see".to_owned(),
        }))
    );
    assert_eq!(
        enable_low_latency_for_magewell(Ok(output(true, "success", "fully"))),
        Err(LowLatencyError::NotConfirmed(SuccessOutput {
            stdout: "success".to_owned(),
            stderr: "fully".to_owned(),
        }))
    );
}

#[test]
fn low_latency_fails_with_the_command() {
    assert_eq!(
        enable_low_latency_for_magewell(Err("not found".to_owned())),
        Err(LowLatencyError::NotRun("not found".to_owned()))
    );
    assert_eq!(
        enable_low_latency_for_magewell(Ok(output(false, "successfully", ""))),
        Err(LowLatencyError::Failed(CommandFailure {
            status: "exit status: 1".to_owned(),
            stdout: "successfully".to_owned(),
            stderr: String::new(),
        }))
    );
}

fn directory(path: &str) -> ExistingDirectory {
    ExistingDirectory::check(path.to_owned(), Provision::Found).unwrap()
}

#[test]
fn recordings_stand_in_the_project_directory() {
    assert_eq!(
        recordings_directory_path(&directory("/sessions/song")),
        "/sessions/song/video-recordings"
    );
    assert_eq!(
        video_file_path_at(&directory("/sessions/song/video-recordings"), "song", "2023-07-31--20-51-57"),
        "/sessions/song/video-recordings/song---2023-07-31--20-51-57.mov"
    );
}

#[test]
fn recording_that_starts_now_is_stamped() {
    let path = video_file_path(&directory("/r"), "song");
    assert!(path.starts_with("/r/song---"));
    assert!(path.ends_with(".mov"));
    let stamp = &path["/r/song---".len()..path.len() - ".mov".len()];
    assert_eq!(stamp.len(), "2023-07-31--20-51-57".len());
    assert!(stamp.chars().all(|c| c.is_ascii_digit() || c == '-'));
}

#[test]
fn file_size_is_written_in_binary_units() {
    assert_eq!(file_size(Ok(0)), Ok("0 B".to_owned()));
    assert_eq!(file_size(Ok(1024)), Ok("1024 B".to_owned()));
    assert_eq!(file_size(Ok(1536)), Ok("1.50 KiB".to_owned()));
    assert_eq!(file_size(Ok(5 * 1024 * 1024)), Ok("5.00 MiB".to_owned()));
    assert_eq!(
        file_size(Err("gone".to_owned())),
        Err("reading file metadata: gone".to_owned())
    );
}

#[test]
fn pipeline_description_names_device_and_file() {
    let description = pipeline_description(&device("/dev/video5"), "/tmp/out.mkv");
    assert!(description.starts_with("v4l2src device=/dev/video5 name=\"video-source\" ! "));
    assert!(description.ends_with(" ! matroskamux ! filesink location=/tmp/out.mkv"));
    assert!(description.contains("width=1920, height=1080, format=YUY2, framerate=25/1"));
    assert!(description.contains("x264enc bitrate=8000 speed-preset=ultrafast tune=zerolatency"));
}

#[test]
fn bus_messages_steer_the_pipeline() {
    let reaction = on_bus_message(BusMessage::Error);
    assert_eq!((reaction.states, reaction.quit), (vec![PipelineState::Ready], true));
    let reaction = on_bus_message(BusMessage::Eos);
    assert_eq!((reaction.states, reaction.quit), (vec![PipelineState::Ready], true));
    let reaction = on_bus_message(BusMessage::ClockLost);
    assert_eq!(
        (reaction.states, reaction.quit),
        (vec![PipelineState::Paused, PipelineState::Playing], false)
    );
    let reaction = on_bus_message(BusMessage::Other);
    assert_eq!((reaction.states, reaction.quit), (vec![], false));
}

#[test]
fn recording_has_to_outlive_its_startup() {
    let started = GstreamerInstance::new(device("/dev/video5"), "/tmp/o.mkv".to_owned(), None);
    let mut instance = started.unwrap();
    assert_eq!(instance.video_device, device("/dev/video5"));
    assert_eq!(instance.video_file_path, "/tmp/o.mkv");
    assert!(instance.is_running(false));
    assert!(!instance.is_running(true));
    instance.cancel();
    assert!(!instance.is_running(false));
    assert_eq!(
        GstreamerInstance::new(device("/dev/video5"), "o".to_owned(), Some(Finished::Stopped)),
        Err(StartupError::StoppedAtOnce)
    );
    assert_eq!(
        GstreamerInstance::new(
            device("/dev/video5"),
            "o".to_owned(),
            Some(Finished::Failed("no such device".to_owned()))
        ),
        Err(StartupError::Failed("no such device".to_owned()))
    );
    assert_eq!(StartupError::StoppedAtOnce.message(), "the recording stopped at once");
    assert_eq!(StartupError::Failed("why".to_owned()).message(), "why");
}

#[test]
fn successful_provisioning_waits_for_the_device_to_settle() {
    assert_eq!(after_provisioning(Ok(output(true, "", ""))), Ok(1000));
    assert_eq!(SETTLE_DELAY_MS, 1000);
}

#[test]
fn failed_provisioning_is_reported_with_what_was_written() {
    let failed = after_provisioning(Ok(output(false, "out", "modprobe: not permitted")));
    assert_eq!(
        failed,
        Err(ProvisioningError::Failed(CommandFailure {
            status: "exit status: 1".to_owned(),
            stdout: "out".to_owned(),
            stderr: "modprobe: not permitted".to_owned(),
        }))
    );
    assert_eq!(
        failed.unwrap_err().message(),
        "generating loopback device: output:\nstdout: out\nstderr: modprobe: not permitted\n: bad status: exit status: 1"
    );
    let not_run = after_provisioning(Err("sudo: not found".to_owned()));
    assert_eq!(not_run, Err(ProvisioningError::NotRun("sudo: not found".to_owned())));
    assert_eq!(not_run.unwrap_err().message(), "generating loopback device: sudo: not found");
}

#[test]
fn recording_reports_the_size_of_its_file() {
    let instance =
        GstreamerInstance::new(device("/dev/video5"), "/tmp/o.mkv".to_owned(), None).unwrap();
    assert_eq!(instance.file_size(Ok(2048)), Ok("2.00 KiB".to_owned()));
    assert_eq!(
        instance.file_size(Err("gone".to_owned())),
        Err("reading file metadata: gone".to_owned())
    );
}
