use rig_supervisor::reaper::reaper_web_client::{
    parse_repr, request_path, run_single, ActionId, FieldError, FieldProblem, LivenessProbe,
    LivenessStep, LivenessTimeout, Playstate, ProbeVerdict, ReaRequest, ReaResponse, Reply,
    ReprError, RequestError, Transport, TransportField, TransportResponse,
    DEFAULT_BUDGET_SECONDS, PROBE_INTERVAL_MS,
};
use rig_supervisor::reaper::ReaperBool;

#[test]
fn transport_response_decodes() {
    let decoded =
        TransportResponse::from_response("TRANSPORT\t1\t12.5\t0\t00:00:12\t6.0").unwrap();
    assert_eq!(decoded.playstate, Playstate::Playing);
    assert_eq!(decoded.position_seconds.parse::<f64>().unwrap(), 12.5);
    assert_eq!(decoded.is_repeat_on, ReaperBool::False);
    assert!(!decoded.is_repeat_on.is_true());
    assert_eq!(decoded.position_string, "00:00:12");
    assert_eq!(decoded.position_string_beats, "6.0");
}

#[test]
fn transport_response_names_bad_position() {
    let failed = TransportResponse::from_response("TRANSPORT\t1\tsoon\t0\t00:00:12\t6.0")
        .unwrap_err();
    assert_eq!(failed.field, TransportField::PositionSeconds);
    assert_eq!(failed.problem, FieldProblem::Unexpected("soon".to_owned()));
    assert!(failed.message().contains("position_seconds"));
}

#[test]
fn transport_response_ignores_the_marker_and_extra_fields() {
    let decoded = TransportResponse::from_response("whatever\t5\t0.5\t1\ta\tb\tc\td").unwrap();
    assert_eq!(
        decoded,
        TransportResponse {
            playstate: Playstate::Recording,
            position_seconds: "0.5".to_owned(),
            is_repeat_on: ReaperBool::True,
            position_string: "a".to_owned(),
            position_string_beats: "b".to_owned(),
        }
    );
}

#[test]
fn transport_response_keeps_empty_text_fields() {
    let decoded = TransportResponse::from_response("TRANSPORT\t0\t0\t0\t\t").unwrap();
    assert_eq!(decoded.playstate, Playstate::Stopped);
    assert_eq!(decoded.position_string, "");
    assert_eq!(decoded.position_string_beats, "");
}

#[test]
fn transport_response_reports_the_first_missing_field() {
    let missing = |field| FieldError { field, problem: FieldProblem::Missing };
    assert_eq!(
        TransportResponse::from_response("").unwrap_err(),
        missing(TransportField::Playstate)
    );
    assert_eq!(
        TransportResponse::from_response("TRANSPORT").unwrap_err(),
        missing(TransportField::Playstate)
    );
    assert_eq!(
        TransportResponse::from_response("TRANSPORT\t1").unwrap_err(),
        missing(TransportField::PositionSeconds)
    );
    assert_eq!(
        TransportResponse::from_response("TRANSPORT\t1\t1.0").unwrap_err(),
        missing(TransportField::IsRepeatOn)
    );
    assert_eq!(
        TransportResponse::from_response("TRANSPORT\t1\t1.0\t1").unwrap_err(),
        missing(TransportField::PositionString)
    );
    assert_eq!(
        TransportResponse::from_response("TRANSPORT\t1\t1.0\t1\tx").unwrap_err(),
        missing(TransportField::PositionStringBeats)
    );
}

#[test]
fn transport_response_reports_the_first_bad_field() {
    let failed = TransportResponse::from_response("TRANSPORT\t2\tsoon\t7\ta\tb").unwrap_err();
    assert_eq!(failed.field, TransportField::Playstate);
    assert_eq!(failed.problem, FieldProblem::Unexpected("2".to_owned()));
    let failed = TransportResponse::from_response("TRANSPORT\t1\t1.0\t7\ta\tb").unwrap_err();
    assert_eq!(failed.field, TransportField::IsRepeatOn);
    assert_eq!(failed.problem, FieldProblem::Unexpected("7".to_owned()));
    let failed = TransportResponse::from_response("TRANSPORT\t\t1.0\t1\ta\tb").unwrap_err();
    assert_eq!(failed.field, TransportField::Playstate);
    assert_eq!(failed.problem, FieldProblem::Unexpected(String::new()));
}

#[test]
fn field_error_message_names_field_kind_and_value() {
    let failed = TransportResponse::from_response("TRANSPORT\t1\tsoon").unwrap_err();
    assert_eq!(
        failed.message(),
        "parsing response TransportResponse: parsing position_seconds (f64): unexpected value soon"
    );
    let failed = TransportResponse::from_response("TRANSPORT\t1\t1").unwrap_err();
    assert_eq!(
        failed.message(),
        "parsing response TransportResponse: parsing is_repeat_on (ReaperBool): field missing"
    );
}

#[test]
fn transport_field_names_and_kinds() {
    assert_eq!(TransportField::Playstate.name(), "playstate");
    assert_eq!(TransportField::Playstate.expected(), "Playstate");
    assert_eq!(TransportField::PositionString.name(), "position_string");
    assert_eq!(TransportField::PositionStringBeats.name(), "position_string_beats");
    assert_eq!(TransportField::PositionStringBeats.expected(), "String");
}

#[test]
fn unit_response_accepts_anything() {
    assert_eq!(<() as ReaResponse>::from_response("anything at all"), Ok(()));
    assert_eq!(<() as ReaResponse>::from_response(""), Ok(()));
}

#[test]
fn playstate_reads_its_numbers() {
    assert_eq!(Playstate::from_str("0"), Ok(Playstate::Stopped));
    assert_eq!(Playstate::from_str("1"), Ok(Playstate::Playing));
    assert_eq!(Playstate::from_str("3"), Ok(Playstate::Paused));
    assert_eq!(Playstate::from_str("5"), Ok(Playstate::Recording));
    assert_eq!(Playstate::from_str("6"), Ok(Playstate::RecordPaused));
    assert_eq!(Playstate::from_str("+6"), Ok(Playstate::RecordPaused));
    assert_eq!(Playstate::from_str("2"), Err(ReprError::InvalidRepr(2)));
    assert_eq!(Playstate::from_str("4"), Err(ReprError::InvalidRepr(4)));
    assert_eq!(Playstate::from_str("7"), Err(ReprError::InvalidRepr(7)));
    assert_eq!(Playstate::from_str("-1"), Err(ReprError::InvalidNumber("-1".to_owned())));
    assert_eq!(Playstate::from_str(""), Err(ReprError::InvalidNumber(String::new())));
    assert_eq!(Playstate::from_str("one"), Err(ReprError::InvalidNumber("one".to_owned())));
}

#[test]
fn playstate_numbers_round_trip() {
    for state in [
        Playstate::Stopped,
        Playstate::Playing,
        Playstate::Paused,
        Playstate::Recording,
        Playstate::RecordPaused,
    ] {
        assert_eq!(Playstate::from_repr(state.repr()), Some(state));
    }
    assert_eq!(Playstate::Paused.repr(), 3);
    assert_eq!(Playstate::from_repr(2), None);
}

#[test]
fn reaper_bool_reads_its_numbers() {
    assert_eq!(ReaperBool::from_str("0"), Ok(ReaperBool::False));
    assert_eq!(ReaperBool::from_str("1"), Ok(ReaperBool::True));
    assert_eq!(ReaperBool::from_str("2"), Err(ReprError::InvalidRepr(2)));
    assert_eq!(ReaperBool::from_str("true"), Err(ReprError::InvalidNumber("true".to_owned())));
    assert_eq!(ReaperBool::from_repr(1), Some(ReaperBool::True));
    assert_eq!(ReaperBool::from_repr(2), None);
    assert_eq!(ReaperBool::True.repr(), 1);
    assert_eq!(ReaperBool::False.name(), "False");
    assert_eq!(ReaperBool::True.name(), "True");
    assert!(ReaperBool::True.is_true());
}

#[test]
fn action_ids_have_their_command_numbers() {
    assert_eq!(ActionId::TransportRecord.repr(), 1013);
    assert_eq!(ActionId::TransportStop.repr(), 1016);
    assert_eq!(ActionId::SaveProject.repr(), 40026);
    assert_eq!(ActionId::ItemNavigationMoveCursorToEndOfItems.repr(), 41174);
    assert_eq!(ActionId::from_repr(40026), Some(ActionId::SaveProject));
    assert_eq!(ActionId::from_repr(1), None);
    assert_eq!(ActionId::from_str("1016"), Ok(ActionId::TransportStop));
    assert_eq!(ActionId::from_str("1017"), Err(ReprError::InvalidRepr(1017)));
}

#[test]
fn repr_error_messages() {
    assert_eq!(ReprError::InvalidNumber("x1".to_owned()).message(), "invalid number: 'x1'");
    assert_eq!(ReprError::InvalidRepr(42).message(), "invalid repr 42");
}

#[test]
fn parse_repr_reads_machine_words() {
    assert_eq!(parse_repr("0"), Ok(0));
    assert_eq!(parse_repr(&usize::MAX.to_string()), Ok(usize::MAX));
    assert_eq!(
        parse_repr("340282366920938463463374607431768211456"),
        Err(ReprError::InvalidNumber("340282366920938463463374607431768211456".to_owned()))
    );
}

#[test]
fn requests_are_written_into_the_path() {
    assert_eq!(Transport.as_uri(), "TRANSPORT");
    assert_eq!(ActionId::TransportRecord.as_uri(), "1013");
    assert_eq!(ActionId::ItemNavigationMoveCursorToEndOfItems.as_uri(), "41174");
    assert_eq!(request_path(&Transport), "_/TRANSPORT;");
    assert_eq!(request_path(&ActionId::SaveProject), "_/40026;");
}

#[test]
fn run_single_decodes_the_body() {
    let result =
        run_single::<TransportResponse>(Reply::Body("TRANSPORT\t6\t1e3\t1\tx\ty".to_owned()));
    assert_eq!(result.unwrap().playstate, Playstate::RecordPaused);
    assert_eq!(run_single::<()>(Reply::Body("junk".to_owned())), Ok(()));
}

#[test]
fn run_single_reports_the_step_that_failed() {
    assert_eq!(
        run_single::<TransportResponse>(Reply::NotSent("refused".to_owned())),
        Err(RequestError::NotSent("refused".to_owned()))
    );
    assert_eq!(
        run_single::<TransportResponse>(Reply::BadStatus("404".to_owned())),
        Err(RequestError::BadStatus("404".to_owned()))
    );
    assert_eq!(
        run_single::<()>(Reply::Unreadable("cut".to_owned())),
        Err(RequestError::Unreadable("cut".to_owned()))
    );
    assert_eq!(
        run_single::<()>(Reply::InvalidUrl("no base".to_owned())),
        Err(RequestError::InvalidUrl("no base".to_owned()))
    );
    let failed = run_single::<TransportResponse>(Reply::Body("TRANSPORT\t9".to_owned()));
    assert_eq!(
        failed,
        Err(RequestError::BadResponse(
            "TRANSPORT\t9".to_owned(),
            FieldError {
                field: TransportField::Playstate,
                problem: FieldProblem::Unexpected("9".to_owned()),
            }
        ))
    );
}

#[test]
fn request_error_messages() {
    assert_eq!(
        RequestError::NotSent("refused".to_owned()).message(),
        "sending command request: refused"
    );
    assert_eq!(RequestError::BadStatus("404".to_owned()).message(), "invalid status: 404");
    assert_eq!(RequestError::Unreadable("cut".to_owned()).message(), "bad text response: cut");
    assert_eq!(RequestError::InvalidUrl("x".to_owned()).message(), "invalid url: x");
    let failed = run_single::<TransportResponse>(Reply::Body("T".to_owned())).unwrap_err();
    assert_eq!(
        failed.message(),
        "bad response: 'T': parsing response TransportResponse: parsing playstate (Playstate): field missing"
    );
}

fn never_answered(budget_seconds: u64) -> (u64, u64, LivenessTimeout) {
    let mut probe = LivenessProbe::new(budget_seconds);
    let mut elapsed_ms = 0;
    let mut probes = 0;
    loop {
        match probe.next(elapsed_ms) {
            LivenessStep::Probe => {
                probes += 1;
                match probe.record(Err(format!("refused {probes}"))) {
                    ProbeVerdict::Retry(ms) => elapsed_ms += ms,
                    ProbeVerdict::Alive => panic!("a failed probe is no answer"),
                }
            }
            LivenessStep::TimedOut(timeout) => return (probes, elapsed_ms, timeout),
        }
    }
}

#[test]
fn liveness_wait_of_one_second_gives_up_after_about_one_second() {
    let (probes, elapsed_ms, timeout) = never_answered(1);
    assert_eq!(probes, 11);
    assert_eq!(elapsed_ms, 1100);
    assert!(elapsed_ms > 1000 && elapsed_ms <= 1000 + PROBE_INTERVAL_MS);
    assert_eq!(timeout, LivenessTimeout { last_error: Some("refused 11".to_owned()) });
    assert_eq!(timeout.message(), "healthcheck failed: refused 11");
}

#[test]
fn liveness_wait_does_not_give_up_before_the_budget_is_used() {
    let probe = LivenessProbe::new(1);
    for elapsed_ms in [0, 1, 100, 999, 1000] {
        assert_eq!(probe.next(elapsed_ms), LivenessStep::Probe);
    }
    for elapsed_ms in [1001, 1100, u64::MAX] {
        assert_eq!(
            probe.next(elapsed_ms),
            LivenessStep::TimedOut(LivenessTimeout { last_error: None })
        );
    }
}

#[test]
fn liveness_wait_with_slow_probes_ends_by_the_clock() {
    let mut probe = LivenessProbe::new(1);
    assert_eq!(probe.next(0), LivenessStep::Probe);
    assert_eq!(probe.record(Err("timed out".to_owned())), ProbeVerdict::Retry(100));
    assert_eq!(
        probe.next(2600),
        LivenessStep::TimedOut(LivenessTimeout { last_error: Some("timed out".to_owned()) })
    );
}

#[test]
fn liveness_wait_ends_with_the_first_answer() {
    let mut probe = LivenessProbe::new(DEFAULT_BUDGET_SECONDS);
    assert_eq!(probe.next(0), LivenessStep::Probe);
    assert_eq!(probe.record(Err("refused".to_owned())), ProbeVerdict::Retry(PROBE_INTERVAL_MS));
    assert_eq!(probe.next(100), LivenessStep::Probe);
    assert_eq!(probe.record(Ok(())), ProbeVerdict::Alive);
    assert_eq!(PROBE_INTERVAL_MS, 100);
}

#[test]
fn liveness_wait_without_budget_probes_once() {
    let (probes, elapsed_ms, timeout) = never_answered(0);
    assert_eq!((probes, elapsed_ms), (1, 100));
    assert_eq!(timeout.last_error, Some("refused 1".to_owned()));
    let timeout = LivenessTimeout { last_error: None };
    assert_eq!(timeout.message(), "healthcheck failed: no probe was made");
}

#[test]
fn liveness_wait_default_budget_is_five_seconds() {
    let (probes, elapsed_ms, _) = never_answered(DEFAULT_BUDGET_SECONDS);
    assert_eq!(probes, 51);
    assert_eq!(elapsed_ms, 5100);
}

#[test]
fn liveness_wait_with_a_huge_budget_does_not_overflow() {
    let mut probe = LivenessProbe::new(u64::MAX);
    assert_eq!(probe.next(0), LivenessStep::Probe);
    assert_eq!(probe.record(Err("no".to_owned())), ProbeVerdict::Retry(100));
    assert_eq!(probe.next(u64::MAX), LivenessStep::Probe);
}
