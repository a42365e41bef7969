//! Capture devices: reading the device inventory, finding a device's
//! loopback twin and deciding when one has to be provisioned.

use vstd::prelude::*;
use itertools::Itertools;
use crate::directory_shenanigans::{join, joined, ExistingDirectory};
use crate::number::{
    digits_value, integer_chars, integer_text, is_digit, is_digit_char, parse_digits,
};
use crate::text::{
    ascending, chars_of, contains, contains_text, find, first_occurrence, is_first_occurrence,
    lemma_first_occurrence_none, occurs_at, push_all, push_str, push_text, same_text, slice_of,
    split, split_text, string_of, texts, trim, trim_text, views,
};

pub mod gstreamer_process;

verus! {

/// A capture device, by the path of its device node.
#[derive(Debug, Clone, PartialEq, Eq, Hash, PartialOrd, Ord)]
pub struct VideoDevice(pub String);

impl View for VideoDevice {
    type V = Seq<char>;

    open spec fn view(&self) -> Seq<char> {
        self.0@
    }
}

/// A capture device with the description of the hardware behind it.
#[derive(Debug, Clone, PartialEq, Eq, Hash)]
pub struct DetailedVideoDevice {
    pub video_device: VideoDevice,
    pub details: String,
}

/// The mathematical content of a [`DetailedVideoDevice`].
pub struct DetailedDevice {
    pub path: Seq<char>,
    pub details: Seq<char>,
}

impl View for DetailedVideoDevice {
    type V = DetailedDevice;

    open spec fn view(&self) -> DetailedDevice {
        DetailedDevice { path: self.video_device@, details: self.details@ }
    }
}

/// The contents of a list of devices.
pub open spec fn device_views(devices: Seq<DetailedVideoDevice>) -> Seq<DetailedDevice> {
    Seq::new(devices.len(), |i: int| devices[i]@)
}

/// The paths of a list of devices.
pub open spec fn paths(devices: Seq<VideoDevice>) -> Seq<Seq<char>> {
    Seq::new(devices.len(), |i: int| devices[i]@)
}

/// A loopback device and the device that it mirrors.
#[derive(Debug, Clone, PartialEq, Eq)]
pub struct LoopbackDevice {
    pub loopback_device: VideoDevice,
    pub for_device: VideoDevice,
}

/// The mathematical content of a [`LoopbackDevice`].
pub struct Loopback {
    pub loopback: Seq<char>,
    pub source: Seq<char>,
}

impl View for LoopbackDevice {
    type V = Loopback;

    open spec fn view(&self) -> Loopback {
        Loopback { loopback: self.loopback_device@, source: self.for_device@ }
    }
}

/// Why a capture device could not be had.
#[derive(Debug, Clone, PartialEq, Eq)]
pub enum CaptureError {
    /// The device is not among the capture devices present.
    NotPresent(VideoDevice),
    /// The device's path holds no device number.
    NoDeviceNumber(VideoDevice),
    /// Provisioning went through, and no loopback device appeared.
    NotCreated,
    /// A section of the inventory, given here as it stands, holds a line
    /// that is no path of a numbered device.
    MalformedSection(String),
}

/// The mathematical content of a [`CaptureError`].
pub enum CaptureFailure {
    NotPresent(Seq<char>),
    NoDeviceNumber(Seq<char>),
    NotCreated,
    MalformedSection(Seq<char>),
}

impl View for CaptureError {
    type V = CaptureFailure;

    open spec fn view(&self) -> CaptureFailure {
        match self {
            CaptureError::NotPresent(d) => CaptureFailure::NotPresent(d@),
            CaptureError::NoDeviceNumber(d) => CaptureFailure::NoDeviceNumber(d@),
            CaptureError::NotCreated => CaptureFailure::NotCreated,
            CaptureError::MalformedSection(section) => CaptureFailure::MalformedSection(
                section@,
            ),
        }
    }
}

impl CaptureError {
    /// The error in words.
    pub fn message(&self) -> (text: String)
        ensures
            text@ == (match self@ {
                CaptureFailure::NotPresent(d) => "device "@ + d + " is not present"@,
                CaptureFailure::NoDeviceNumber(d) => "extracting video device number: "@ + d,
                CaptureFailure::NotCreated => "video loopback device wasn't created"@,
                CaptureFailure::MalformedSection(section) => "malformed section: "@ + section,
            }),
    {
        let mut out: Vec<char> = Vec::new();
        match self {
            CaptureError::NotPresent(d) => {
                push_str(&mut out, "device ");
                push_str(&mut out, d.0.as_str());
                push_str(&mut out, " is not present");
            },
            CaptureError::NoDeviceNumber(d) => {
                push_str(&mut out, "extracting video device number: ");
                push_str(&mut out, d.0.as_str());
            },
            CaptureError::NotCreated => {
                push_str(&mut out, "video loopback device wasn't created");
            },
            CaptureError::MalformedSection(section) => {
                push_str(&mut out, "malformed section: ");
                push_str(&mut out, section.as_str());
            },
        }
        string_of(&out)
    }
}

/// `Itertools::sorted` on the paths, which is the standard sort of a
/// vector of strings: the result holds the same texts in ascending order,
/// as strings are ordered.
#[verifier::external_body]
fn sorted_paths(paths: Vec<String>) -> (ordered: Vec<String>)
    ensures
        texts(ordered@).to_multiset() == texts(paths@).to_multiset(),
        ascending(texts(ordered@)),
{
    paths.into_iter().sorted().collect()
}

impl VideoDevice {
    /// The device at `value`. Every text is a path, so this never fails.
    pub fn new(value: &str) -> (device: Result<VideoDevice, CaptureError>)
        ensures
            device matches Ok(d) && d@ == value@,
    {
        Ok(VideoDevice(value.to_owned()))
    }

    /// Whether a directory entry's path names a capture device: it holds
    /// the word `video`.
    pub open spec fn names_capture_device(path: Seq<char>) -> bool {
        contains(path, "video"@)
    }

    /// The capture devices among the entries of the device directory, in
    /// the order of the entries.
    pub open spec fn among(entries: Seq<Seq<char>>) -> Seq<Seq<char>>
        decreases entries.len(),
    {
        if entries.len() == 0 {
            Seq::empty()
        } else if Self::names_capture_device(entries.last()) {
            Self::among(entries.drop_last()).push(entries.last())
        } else {
            Self::among(entries.drop_last())
        }
    }

    /// The capture devices among the entries of the device directory, in
    /// the order of texts.
    pub fn all(entries: &Vec<String>) -> (devices: Vec<VideoDevice>)
        ensures
            ascending(paths(devices@)),
            paths(devices@).to_multiset() == Self::among(texts(entries@)).to_multiset(),
    {
        let ghost all = texts(entries@);
        let word = chars_of("video");
        let mut kept: Vec<String> = Vec::new();
        let mut i: usize = 0;
        assert(all.take(0) =~= Seq::<Seq<char>>::empty());
        assert(texts(kept@) =~= Seq::<Seq<char>>::empty());
        while i < entries.len()
            invariant
                i <= entries.len(),
                word@ == "video"@,
                all == texts(entries@),
                texts(kept@) == Self::among(all.take(i as int)),
            decreases entries.len() - i,
        {
            let path = chars_of(entries[i].as_str());
            proof {
                assert(all.take(i + 1).drop_last() =~= all.take(i as int));
                assert(all.take(i + 1).last() == entries@[i as int]@);
            }
            if contains_text(&path, &word) {
                push_text(&mut kept, entries[i].as_str());
            }
            i += 1;
        }
        assert(all.take(entries@.len() as int) =~= all);
        let ordered = sorted_paths(kept);
        let mut devices: Vec<VideoDevice> = Vec::new();
        let mut k: usize = 0;
        while k < ordered.len()
            invariant
                k <= ordered.len(),
                devices@.len() == k,
                forall|j: int| 0 <= j < k ==> devices@[j]@ == ordered@[j]@,
            decreases ordered.len() - k,
        {
            devices.push(VideoDevice(ordered[k].clone()));
            k += 1;
        }
        assert(paths(devices@) =~= texts(ordered@));
        devices
    }

    /// The device at `value`, if it is one of `devices`.
    pub fn new_checked(value: &str, devices: &Vec<VideoDevice>) -> (device: Result<
        VideoDevice,
        CaptureError,
    >)
        ensures
            match device {
                Ok(d) => d@ == value@ && paths(devices@).contains(value@),
                Err(e) => e@ == CaptureFailure::NotPresent(value@) && !paths(devices@).contains(
                    value@,
                ),
            },
    {
        let mut i: usize = 0;
        while i < devices.len()
            invariant
                i <= devices.len(),
                forall|j: int| 0 <= j < i ==> devices@[j]@ != value@,
            decreases devices.len() - i,
        {
            if same_text(devices[i].0.as_str(), value) {
                assert(paths(devices@)[i as int] == value@);
                return Ok(VideoDevice(value.to_owned()));
            }
            i += 1;
        }
        Err(CaptureError::NotPresent(VideoDevice(value.to_owned())))
    }

    /// The device's path.
    pub fn path(&self) -> (path: &str)
        ensures
            path@ == self@,
    {
        self.0.as_str()
    }
}

/// The line break, as a pattern.
pub open spec fn line_break() -> Seq<char> {
    seq!['\n']
}

/// The blank line that parts the sections of the inventory, as a pattern.
pub open spec fn blank_line() -> Seq<char> {
    seq!['\n', '\n']
}

/// The devices that the lines below a section's header name: each line
/// that is not blank is a device path, described by the header.
pub open spec fn devices_of_lines(header: Seq<char>, lines: Seq<Seq<char>>) -> Seq<DetailedDevice>
    decreases lines.len(),
{
    if lines.len() == 0 {
        Seq::empty()
    } else if trim(lines.last()).len() > 0 {
        devices_of_lines(header, lines.drop_last()).push(
            DetailedDevice { path: trim(lines.last()), details: header },
        )
    } else {
        devices_of_lines(header, lines.drop_last())
    }
}

/// The header of a section of the inventory: its first line, trimmed.
pub open spec fn header_of(section: Seq<char>) -> Seq<char> {
    match first_occurrence(section, line_break()) {
        Some(i) => trim(section.subrange(0, i)),
        None => trim(section),
    }
}

/// The lines below the header of a section; a section of one line has
/// none.
pub open spec fn lines_below(section: Seq<char>) -> Seq<Seq<char>> {
    match first_occurrence(section, line_break()) {
        Some(i) => split(section.subrange(i + 1, section.len() as int), line_break()),
        None => Seq::empty(),
    }
}

/// A line below a header is in order: it is blank, or it is the path of a
/// device with a device number.
pub open spec fn is_device_line(line: Seq<char>) -> bool {
    trim(line).len() == 0 || video_nr_of(trim(line)) is Some
}

/// A section is malformed where a line below its header is not in order.
pub open spec fn is_malformed_section(section: Seq<char>) -> bool {
    exists|k: int|
        0 <= k < lines_below(section).len() && !is_device_line(
            #[trigger] lines_below(section)[k],
        )
}

/// The devices of one section of the inventory. Its first line is the
/// header; a section of one line names no device.
pub open spec fn section_devices(section: Seq<char>) -> Seq<DetailedDevice> {
    devices_of_lines(header_of(section), lines_below(section))
}

/// What reading one section comes to: its devices, or the section itself
/// where it is malformed.
pub open spec fn read_section(section: Seq<char>) -> Result<Seq<DetailedDevice>, CaptureFailure> {
    if is_malformed_section(section) {
        Err(CaptureFailure::MalformedSection(section))
    } else {
        Ok(section_devices(section))
    }
}

/// The first of `sections` that is malformed, if one is.
pub open spec fn first_malformed_section(sections: Seq<Seq<char>>) -> Option<Seq<char>>
    decreases sections.len(),
{
    if sections.len() == 0 {
        None
    } else if is_malformed_section(sections.first()) {
        Some(sections.first())
    } else {
        first_malformed_section(sections.drop_first())
    }
}

/// The devices of some sections, in order.
pub open spec fn sections_devices(sections: Seq<Seq<char>>) -> Seq<DetailedDevice>
    decreases sections.len(),
{
    if sections.len() == 0 {
        Seq::empty()
    } else {
        sections_devices(sections.drop_last()) + section_devices(sections.last())
    }
}

/// The devices that an inventory lists: those of its sections, which
/// blank lines part.
pub open spec fn listed_devices(listing: Seq<char>) -> Seq<DetailedDevice> {
    sections_devices(split(listing, blank_line()))
}

/// What reading an inventory comes to: the devices that it lists, or the
/// first of its sections that is malformed.
pub open spec fn read_inventory(listing: Seq<char>) -> Result<Seq<DetailedDevice>, CaptureFailure> {
    match first_malformed_section(split(listing, blank_line())) {
        Some(section) => Err(CaptureFailure::MalformedSection(section)),
        None => Ok(listed_devices(listing)),
    }
}

/// Reading an inventory is a function of its text: two readings of the
/// same text come to the same, and the empty text lists no device and is
/// no error.
pub proof fn law_inventory_reads_the_same_twice(
    listing: Seq<char>,
    first: Result<Seq<DetailedDevice>, CaptureFailure>,
    second: Result<Seq<DetailedDevice>, CaptureFailure>,
)
    requires
        first == read_inventory(listing),
        second == read_inventory(listing),
    ensures
        first == second,
        read_inventory(Seq::empty()) == Ok::<Seq<DetailedDevice>, CaptureFailure>(Seq::empty()),
{
    let nothing = Seq::<char>::empty();
    assert forall|i: int| !occurs_at(nothing, blank_line(), i) by {
        assert(blank_line().len() == 2);
    }
    assert forall|i: int| !occurs_at(nothing, line_break(), i) by {
        assert(line_break().len() == 1);
    }
    lemma_first_occurrence_none(nothing, blank_line());
    lemma_first_occurrence_none(nothing, line_break());
    let sections = split(nothing, blank_line());
    assert(sections == seq![nothing]);
    assert(sections.drop_last() =~= Seq::<Seq<char>>::empty());
    assert(sections.drop_first() =~= Seq::<Seq<char>>::empty());
    assert(sections.last() == nothing);
    assert(sections.first() == nothing);
    assert(lines_below(nothing) =~= Seq::<Seq<char>>::empty());
    assert(!is_malformed_section(nothing));
    assert(first_malformed_section(sections.drop_first()) is None);
    assert(first_malformed_section(sections) is None);
    assert(sections_devices(sections.drop_last()) == Seq::<DetailedDevice>::empty());
    assert(section_devices(nothing) =~= Seq::<DetailedDevice>::empty());
    assert(sections_devices(sections) =~= Seq::<DetailedDevice>::empty());
}

fn line_break_chars() -> (pat: Vec<char>)
    ensures
        pat@ == line_break(),
        pat@.len() == 1,
{
    let mut pat: Vec<char> = Vec::new();
    pat.push('\n');
    assert(pat@ =~= line_break());
    pat
}

fn section_of(section: &Vec<char>) -> (devices: Option<Vec<DetailedVideoDevice>>)
    ensures
        match devices {
            Some(found) => !is_malformed_section(section@) && device_views(found@)
                == section_devices(section@),
            None => is_malformed_section(section@),
        },
{
    let pat = line_break_chars();
    let mut devices: Vec<DetailedVideoDevice> = Vec::new();
    proof {
        lemma_first_occurrence_none(section@, pat@);
    }
    let at = match find(section, &pat) {
        Some(i) => i,
        None => {
            assert(lines_below(section@) =~= Seq::<Seq<char>>::empty());
            assert(device_views(devices@) =~= Seq::<DetailedDevice>::empty());
            return Some(devices);
        },
    };
    assert(is_first_occurrence(section@, pat@, at as int));
    assert(occurs_at(section@, pat@, at as int));
    assert(at + 1 <= section.len());
    let header = trim_text(&slice_of(section, 0, at));
    let below = slice_of(section, at + 1, section.len());
    let lines = split_text(&below, &pat);
    let ghost all = views(lines@);
    assert(all == lines_below(section@));
    assert(header@ == header_of(section@));
    let mut k: usize = 0;
    assert(all.take(0) =~= Seq::<Seq<char>>::empty());
    assert(device_views(devices@) =~= Seq::<DetailedDevice>::empty());
    while k < lines.len()
        invariant
            k <= lines.len(),
            all == views(lines@),
            all == lines_below(section@),
            forall|j: int| 0 <= j < k ==> is_device_line(#[trigger] all[j]),
            device_views(devices@) == devices_of_lines(header@, all.take(k as int)),
        decreases lines.len() - k,
    {
        let ghost before = device_views(devices@);
        let line = trim_text(&lines[k]);
        proof {
            assert(all.take(k + 1).drop_last() =~= all.take(k as int));
            assert(all.take(k + 1).last() == lines@[k as int]@);
            assert(all[k as int] == lines@[k as int]@);
        }
        if line.len() > 0 {
            if video_nr_in(&line).is_none() {
                assert(!is_device_line(lines_below(section@)[k as int]));
                return None;
            }
            let device = DetailedVideoDevice {
                video_device: VideoDevice(string_of(&line)),
                details: string_of(&header),
            };
            devices.push(device);
            assert(device_views(devices@) =~= before.push(
                DetailedDevice { path: line@, details: header@ },
            ));
        }
        k += 1;
    }
    assert(all.take(lines@.len() as int) =~= all);
    Some(devices)
}

/// Reads one section of the device inventory: a header line, and below
/// it one device path to a line. Fails with the section where one of
/// those lines is neither blank nor the path of a numbered device.
pub fn parse_section(section: &str) -> (devices: Result<Vec<DetailedVideoDevice>, CaptureError>)
    ensures
        match devices {
            Ok(found) => read_section(section@) == Ok::<Seq<DetailedDevice>, CaptureFailure>(
                device_views(found@),
            ),
            Err(e) => read_section(section@) == Err::<Seq<DetailedDevice>, CaptureFailure>(e@),
        },
{
    let chars = chars_of(section);
    match section_of(&chars) {
        Some(found) => Ok(found),
        None => Err(CaptureError::MalformedSection(section.to_owned())),
    }
}

/// Reads the device inventory: sections parted by blank lines, each a
/// header line and below it one device path to a line. Fails with the
/// first section that is malformed.
pub fn list_devices(listing: &str) -> (devices: Result<Vec<DetailedVideoDevice>, CaptureError>)
    ensures
        match devices {
            Ok(found) => read_inventory(listing@) == Ok::<Seq<DetailedDevice>, CaptureFailure>(
                device_views(found@),
            ),
            Err(e) => read_inventory(listing@) == Err::<Seq<DetailedDevice>, CaptureFailure>(
                e@,
            ),
        },
{
    let chars = chars_of(listing);
    let mut pat: Vec<char> = Vec::new();
    pat.push('\n');
    pat.push('\n');
    assert(pat@ =~= blank_line());
    let sections = split_text(&chars, &pat);
    let ghost all = views(sections@);
    let mut devices: Vec<DetailedVideoDevice> = Vec::new();
    let mut k: usize = 0;
    assert(all.take(0) =~= Seq::<Seq<char>>::empty());
    assert(all.skip(0) =~= all);
    assert(device_views(devices@) =~= Seq::<DetailedDevice>::empty());
    while k < sections.len()
        invariant
            k <= sections.len(),
            all == views(sections@),
            all == split(listing@, blank_line()),
            first_malformed_section(all) == first_malformed_section(all.skip(k as int)),
            device_views(devices@) == sections_devices(all.take(k as int)),
        decreases sections.len() - k,
    {
        let ghost before = device_views(devices@);
        proof {
            assert(all.take(k + 1).drop_last() =~= all.take(k as int));
            assert(all.take(k + 1).last() == sections@[k as int]@);
            assert(all.skip(k as int).first() == sections@[k as int]@);
            assert(all.skip(k as int).drop_first() =~= all.skip(k + 1));
        }
        let mut found = match section_of(&sections[k]) {
            Some(found) => found,
            None => {
                assert(first_malformed_section(all.skip(k as int)) == Some(
                    sections@[k as int]@,
                ));
                return Err(CaptureError::MalformedSection(string_of(&sections[k])));
            },
        };
        let ghost added = device_views(found@);
        devices.append(&mut found);
        assert(device_views(devices@) =~= before + added);
        k += 1;
    }
    assert(all.take(sections@.len() as int) =~= all);
    assert(all.skip(sections@.len() as int) =~= Seq::<Seq<char>>::empty());
    Ok(devices)
}

/// `s` from its first ASCII digit on.
pub open spec fn from_first_digit(s: Seq<char>) -> Seq<char>
    decreases s.len(),
{
    if s.len() > 0 && !is_digit(s.first()) {
        from_first_digit(s.drop_first())
    } else {
        s
    }
}

/// The device number in a device path: what stands from the first digit
/// on, if that is digits only and fits a signed 32-bit number.
pub open spec fn video_nr_of(path: Seq<char>) -> Option<int> {
    match digits_value(from_first_digit(path), i32::MAX as nat) {
        Some(n) => Some(n as int),
        None => None,
    }
}

/// The label that marks the loopback twin of the device with number
/// `video_nr`.
pub open spec fn label_of(video_nr: int) -> Seq<char> {
    "loopback-device-for-"@ + integer_text(video_nr)
}

/// The device number in the path `path`.
fn video_nr_in(path: &Vec<char>) -> (number: Option<i32>)
    ensures
        match number {
            Some(n) => video_nr_of(path@) == Some(n as int),
            None => video_nr_of(path@) is None,
        },
{
    let mut from: usize = 0;
    assert(path@.subrange(0, path@.len() as int) =~= path@);
    while from < path.len() && !is_digit_char(path[from])
        invariant
            from <= path.len(),
            from_first_digit(path@) == from_first_digit(
                path@.subrange(from as int, path@.len() as int),
            ),
        decreases path.len() - from,
    {
        proof {
            let rest = path@.subrange(from as int, path@.len() as int);
            assert(rest.drop_first() =~= path@.subrange(from + 1, path@.len() as int));
        }
        from += 1;
    }
    let digits = slice_of(path, from, path.len());
    match parse_digits(&digits, 2147483647) {
        Some(n) => Some(n as i32),
        None => None,
    }
}

/// The device number in the path of `device`.
pub fn video_nr_from_video(device: &VideoDevice) -> (number: Result<i32, CaptureError>)
    ensures
        match number {
            Ok(n) => video_nr_of(device@) == Some(n as int),
            Err(e) => video_nr_of(device@) is None && e@ == CaptureFailure::NoDeviceNumber(
                device@,
            ),
        },
{
    let path = chars_of(device.0.as_str());
    match video_nr_in(&path) {
        Some(n) => Ok(n),
        None => Err(CaptureError::NoDeviceNumber(VideoDevice(device.0.clone()))),
    }
}

/// The label that marks the loopback twin of `device`.
pub fn loopback_label(device: &VideoDevice) -> (label: Result<String, CaptureError>)
    ensures
        match label {
            Ok(l) => video_nr_of(device@) matches Some(n) && l@ == label_of(n),
            Err(e) => video_nr_of(device@) is None && e@ == CaptureFailure::NoDeviceNumber(
                device@,
            ),
        },
{
    match video_nr_from_video(device) {
        Ok(n) => Ok(label_text(n)),
        Err(e) => Err(e),
    }
}

fn label_text(video_nr: i32) -> (label: String)
    ensures
        label@ == label_of(video_nr as int),
{
    let mut out: Vec<char> = Vec::new();
    push_str(&mut out, "loopback-device-for-");
    let digits = integer_chars(video_nr);
    push_all(&mut out, &digits);
    string_of(&out)
}

/// The device at index `i` of `devices` carries `label` in its
/// description and is not one of `known`.
pub open spec fn is_candidate(
    devices: Seq<DetailedDevice>,
    label: Seq<char>,
    known: Seq<DetailedDevice>,
    i: int,
) -> bool {
    0 <= i < devices.len() && contains(devices[i].details, label) && !known.contains(devices[i])
}

/// Index `i` holds a candidate, and no index before it does.
pub open spec fn is_first_candidate(
    devices: Seq<DetailedDevice>,
    label: Seq<char>,
    known: Seq<DetailedDevice>,
    i: int,
) -> bool {
    is_candidate(devices, label, known, i) && forall|j: int|
        0 <= j < i ==> !is_candidate(devices, label, known, j)
}

/// The path of the first device of `devices` that carries `label` in its
/// description and is not one of `known`.
pub open spec fn first_candidate(
    devices: Seq<DetailedDevice>,
    label: Seq<char>,
    known: Seq<DetailedDevice>,
) -> Option<Seq<char>> {
    if exists|i: int| is_first_candidate(devices, label, known, i) {
        Some(devices[choose|i: int| is_first_candidate(devices, label, known, i)].path)
    } else {
        None
    }
}

/// The first candidate is the one at the first candidate's index.
pub proof fn lemma_first_candidate_is(
    devices: Seq<DetailedDevice>,
    label: Seq<char>,
    known: Seq<DetailedDevice>,
    i: int,
)
    requires
        is_first_candidate(devices, label, known, i),
    ensures
        first_candidate(devices, label, known) == Some(devices[i].path),
{
    let k = choose|k: int| is_first_candidate(devices, label, known, k);
    if k < i {
        assert(!is_candidate(devices, label, known, k));
    }
    if i < k {
        assert(!is_candidate(devices, label, known, i));
    }
}

/// Without a candidate there is no first one.
pub proof fn lemma_no_candidate(
    devices: Seq<DetailedDevice>,
    label: Seq<char>,
    known: Seq<DetailedDevice>,
)
    requires
        forall|i: int| !is_candidate(devices, label, known, i),
    ensures
        first_candidate(devices, label, known) is None,
{
    assert forall|i: int| !is_first_candidate(devices, label, known, i) by {
        assert(!is_candidate(devices, label, known, i));
    }
}

fn is_known(known: &Vec<DetailedVideoDevice>, device: &DetailedVideoDevice) -> (yes: bool)
    ensures
        yes == device_views(known@).contains(device@),
{
    let mut i: usize = 0;
    while i < known.len()
        invariant
            i <= known.len(),
            forall|j: int| 0 <= j < i ==> device_views(known@)[j] != device@,
        decreases known.len() - i,
    {
        if same_text(known[i].video_device.0.as_str(), device.video_device.0.as_str())
            && same_text(known[i].details.as_str(), device.details.as_str()) {
            assert(device_views(known@)[i as int] == device@);
            return true;
        }
        i += 1;
    }
    false
}

fn find_candidate(
    devices: &Vec<DetailedVideoDevice>,
    label: &Vec<char>,
    known: &Vec<DetailedVideoDevice>,
) -> (found: Option<usize>)
    ensures
        match found {
            Some(i) => i < devices.len() && first_candidate(
                device_views(devices@),
                label@,
                device_views(known@),
            ) == Some(devices@[i as int].video_device@),
            None => first_candidate(device_views(devices@), label@, device_views(known@))
                is None,
        },
{
    let ghost all = device_views(devices@);
    let ghost seen = device_views(known@);
    let mut i: usize = 0;
    while i < devices.len()
        invariant
            i <= devices.len(),
            all == device_views(devices@),
            seen == device_views(known@),
            forall|j: int| 0 <= j < i ==> !is_candidate(all, label@, seen, j),
        decreases devices.len() - i,
    {
        let details = chars_of(devices[i].details.as_str());
        if contains_text(&details, label) && !is_known(known, &devices[i]) {
            proof {
                assert(is_candidate(all, label@, seen, i as int));
                lemma_first_candidate_is(all, label@, seen, i as int);
            }
            return Some(i);
        }
        i += 1;
    }
    proof {
        lemma_no_candidate(all, label@, seen);
    }
    None
}

/// What to do for the loopback twin of a device.
#[derive(Debug, Clone, PartialEq, Eq)]
pub enum LoopbackPlan {
    /// The twin exists: use it.
    Existing(LoopbackDevice),
    /// No twin exists: provision one with this device number and label.
    Provision { video_nr: i32, label: String },
}

/// The mathematical content of a [`LoopbackPlan`].
pub enum LoopbackDecision {
    Existing(Loopback),
    Provision { video_nr: int, label: Seq<char> },
}

impl View for LoopbackPlan {
    type V = LoopbackDecision;

    open spec fn view(&self) -> LoopbackDecision {
        match self {
            LoopbackPlan::Existing(device) => LoopbackDecision::Existing(device@),
            LoopbackPlan::Provision { video_nr, label } => LoopbackDecision::Provision {
                video_nr: *video_nr as int,
                label: label@,
            },
        }
    }
}

/// The plan for the loopback twin of the device at `source`, given the
/// devices that are present: the first present device whose description
/// carries the twin's label is the twin, and without one a twin has to be
/// provisioned. A path without a device number has no twin.
pub open spec fn loopback_plan(source: Seq<char>, present: Seq<DetailedDevice>) -> Result<
    LoopbackDecision,
    CaptureFailure,
> {
    match video_nr_of(source) {
        None => Err(CaptureFailure::NoDeviceNumber(source)),
        Some(n) => match first_candidate(present, label_of(n), Seq::empty()) {
            Some(path) => Ok(LoopbackDecision::Existing(Loopback { loopback: path, source })),
            None => Ok(LoopbackDecision::Provision { video_nr: n, label: label_of(n) }),
        },
    }
}

/// The loopback twin that provisioning made for the device at `source`:
/// the first device present afterwards, and not before, whose description
/// carries `label`.
pub open spec fn provisioned_loopback(
    source: Seq<char>,
    label: Seq<char>,
    before: Seq<DetailedDevice>,
    after: Seq<DetailedDevice>,
) -> Result<Loopback, CaptureFailure> {
    match first_candidate(after, label, before) {
        Some(path) => Ok(Loopback { loopback: path, source }),
        None => Err(CaptureFailure::NotCreated),
    }
}

fn device_at(devices: &Vec<DetailedVideoDevice>, i: usize) -> (device: VideoDevice)
    requires
        i < devices.len(),
    ensures
        device@ == devices@[i as int].video_device@,
{
    VideoDevice(devices[i].video_device.0.clone())
}

/// Decides, from the devices present, whether the loopback twin of
/// `for_device` exists or has to be provisioned.
pub fn plan_loopback(for_device: VideoDevice, present: &Vec<DetailedVideoDevice>) -> (plan: Result<
    LoopbackPlan,
    CaptureError,
>)
    ensures
        match plan {
            Ok(p) => loopback_plan(for_device@, device_views(present@)) == Ok::<
                LoopbackDecision,
                CaptureFailure,
            >(p@),
            Err(e) => loopback_plan(for_device@, device_views(present@)) == Err::<
                LoopbackDecision,
                CaptureFailure,
            >(e@),
        },
{
    let video_nr = match video_nr_from_video(&for_device) {
        Ok(n) => n,
        Err(e) => {
            return Err(e);
        },
    };
    let label = label_text(video_nr);
    let label_chars = chars_of(label.as_str());
    let nothing: Vec<DetailedVideoDevice> = Vec::new();
    assert(device_views(nothing@) =~= Seq::<DetailedDevice>::empty());
    match find_candidate(present, &label_chars, &nothing) {
        Some(i) => Ok(
            LoopbackPlan::Existing(
                LoopbackDevice { loopback_device: device_at(present, i), for_device },
            ),
        ),
        None => Ok(LoopbackPlan::Provision { video_nr, label }),
    }
}

/// Finds the loopback twin that provisioning made, by comparing the
/// devices present before and after it.
pub fn created_loopback(
    for_device: VideoDevice,
    label: &str,
    before: &Vec<DetailedVideoDevice>,
    after: &Vec<DetailedVideoDevice>,
) -> (device: Result<LoopbackDevice, CaptureError>)
    ensures
        match device {
            Ok(d) => provisioned_loopback(
                for_device@,
                label@,
                device_views(before@),
                device_views(after@),
            ) == Ok::<Loopback, CaptureFailure>(d@),
            Err(e) => provisioned_loopback(
                for_device@,
                label@,
                device_views(before@),
                device_views(after@),
            ) == Err::<Loopback, CaptureFailure>(e@),
        },
{
    let label_chars = chars_of(label);
    match find_candidate(after, &label_chars, before) {
        Some(i) => Ok(LoopbackDevice { loopback_device: device_at(after, i), for_device }),
        None => Err(CaptureError::NotCreated),
    }
}

/// Resolving twice provisions at most once: where the first resolution
/// found no twin among the devices `before` and then found the one that
/// provisioning made among the devices `after`, a second resolution that
/// sees the devices `after` plans to use that same twin.
pub proof fn law_second_resolution_reuses_the_twin(
    source: Seq<char>,
    before: Seq<DetailedDevice>,
    after: Seq<DetailedDevice>,
)
    requires
        loopback_plan(source, before) matches Ok(LoopbackDecision::Provision { video_nr, label })
            && provisioned_loopback(source, label, before, after) is Ok,
    ensures
        loopback_plan(source, before) matches Ok(LoopbackDecision::Provision { video_nr, label })
            && loopback_plan(source, after) == Ok::<LoopbackDecision, CaptureFailure>(
            LoopbackDecision::Existing(provisioned_loopback(source, label, before, after)->Ok_0),
        ),
{
    let n = video_nr_of(source)->Some_0;
    let label = label_of(n);
    let none = Seq::<DetailedDevice>::empty();
    let i = choose|i: int| is_first_candidate(after, label, before, i);
    assert(is_first_candidate(after, label, before, i));
    assert forall|j: int| 0 <= j < i implies !is_candidate(after, label, none, j) by {
        if is_candidate(after, label, none, j) {
            assert(!is_candidate(after, label, before, j));
            let k = choose|k: int| 0 <= k < before.len() && before[k] == after[j];
            assert(is_candidate(before, label, none, k));
            lemma_some_candidate(before, label, none, k);
        }
    }
    assert(is_first_candidate(after, label, none, i));
    lemma_first_candidate_is(after, label, none, i);
    lemma_first_candidate_is(after, label, before, i);
}

/// With a candidate there is a first one.
pub proof fn lemma_some_candidate(
    devices: Seq<DetailedDevice>,
    label: Seq<char>,
    known: Seq<DetailedDevice>,
    w: int,
)
    requires
        is_candidate(devices, label, known, w),
    ensures
        first_candidate(devices, label, known) is Some,
    decreases w,
{
    if forall|j: int| 0 <= j < w ==> !is_candidate(devices, label, known, j) {
        assert(is_first_candidate(devices, label, known, w));
    } else {
        let j = choose|j: int| 0 <= j < w && is_candidate(devices, label, known, j);
        lemma_some_candidate(devices, label, known, j);
    }
}

/// What a finished command left: whether it succeeded, its exit status
/// in words, and what it wrote to its output and to its error stream.
#[derive(Debug, Clone, PartialEq, Eq)]
pub struct CommandOutput {
    pub success: bool,
    pub status: String,
    pub stdout: String,
    pub stderr: String,
}

/// What a command wrote that succeeded.
#[derive(Debug, Clone, PartialEq, Eq)]
pub struct SuccessOutput {
    pub stdout: String,
    pub stderr: String,
}

/// A command that failed: its exit status in words, and what it wrote.
#[derive(Debug, Clone, PartialEq, Eq)]
pub struct CommandFailure {
    pub status: String,
    pub stdout: String,
    pub stderr: String,
}

/// A command's output where it succeeded, and else its failure; either
/// holds what the command wrote, unchanged.
pub open spec fn succeeded(output: CommandOutput) -> Result<SuccessOutput, CommandFailure> {
    if output.success {
        Ok(SuccessOutput { stdout: output.stdout, stderr: output.stderr })
    } else {
        Err(
            CommandFailure {
                status: output.status,
                stdout: output.stdout,
                stderr: output.stderr,
            },
        )
    }
}

/// Telling a command's success from its failure.
pub trait OutputExt: Sized {
    /// What the command left.
    spec fn output(self) -> CommandOutput;

    /// The command's output where it succeeded, and else its failure.
    fn success_output(self) -> (result: Result<SuccessOutput, CommandFailure>)
        ensures
            result == succeeded(self.output()),
    ;
}

impl OutputExt for CommandOutput {
    open spec fn output(self) -> CommandOutput {
        self
    }

    fn success_output(self) -> (result: Result<SuccessOutput, CommandFailure>) {
        if self.success {
            Ok(SuccessOutput { stdout: self.stdout, stderr: self.stderr })
        } else {
            Err(CommandFailure { status: self.status, stdout: self.stdout, stderr: self.stderr })
        }
    }
}

impl CommandFailure {
    /// The failure in words: what the command wrote, then its status.
    pub open spec fn message_spec(self) -> Seq<char> {
        "output:\nstdout: "@ + self.stdout@ + "\nstderr: "@ + self.stderr@ + "\n: bad status: "@
            + self.status@
    }

    /// The failure in words.
    pub fn message(&self) -> (text: String)
        ensures
            text@ == self.message_spec(),
    {
        let mut out: Vec<char> = Vec::new();
        push_str(&mut out, "output:\nstdout: ");
        push_str(&mut out, self.stdout.as_str());
        push_str(&mut out, "\nstderr: ");
        push_str(&mut out, self.stderr.as_str());
        push_str(&mut out, "\n: bad status: ");
        push_str(&mut out, self.status.as_str());
        let text = string_of(&out);
        assert(text@ =~= self.message_spec());
        text
    }
}

/// The program that provisions a loopback device is run through this one.
pub const PROVISIONING_PROGRAM: &'static str = "sudo";

/// How long to wait after provisioning before looking for the new device,
/// in milliseconds.
pub const SETTLE_DELAY_MS: u64 = 1000;

/// The arguments that provision a loopback device with the given number
/// and label.
pub open spec fn provisioning_arguments_of(video_nr: int, label: Seq<char>) -> Seq<Seq<char>> {
    seq![
        "modprobe"@,
        "v4l2loopback"@,
        "video_nr="@ + integer_text(video_nr),
        "card_label="@ + label,
    ]
}

/// The arguments that provision a loopback device.
pub fn provisioning_arguments(video_nr: i32, label: &str) -> (arguments: Vec<String>)
    ensures
        texts(arguments@) == provisioning_arguments_of(video_nr as int, label@),
{
    let mut number: Vec<char> = Vec::new();
    push_str(&mut number, "video_nr=");
    let digits = integer_chars(video_nr);
    push_all(&mut number, &digits);
    let number = string_of(&number);
    let mut card: Vec<char> = Vec::new();
    push_str(&mut card, "card_label=");
    push_str(&mut card, label);
    let card = string_of(&card);
    let mut arguments: Vec<String> = Vec::new();
    assert(texts(arguments@) =~= Seq::<Seq<char>>::empty());
    push_text(&mut arguments, "modprobe");
    push_text(&mut arguments, "v4l2loopback");
    push_text(&mut arguments, number.as_str());
    push_text(&mut arguments, card.as_str());
    assert(texts(arguments@) =~= provisioning_arguments_of(video_nr as int, label@));
    arguments
}

/// Why provisioning did not go through.
#[derive(Debug, Clone, PartialEq, Eq)]
pub enum ProvisioningError {
    /// The provisioning program could not be run, for the reason given.
    NotRun(String),
    /// The provisioning program failed.
    Failed(CommandFailure),
}

/// What the provisioning program's run calls for: to wait for the new
/// device to settle, this many milliseconds, where the program succeeded,
/// and else to give up with what it wrote.
pub open spec fn provisioning_verdict(outcome: Result<CommandOutput, String>) -> Result<
    u64,
    ProvisioningError,
> {
    match outcome {
        Err(why) => Err(ProvisioningError::NotRun(why)),
        Ok(output) => match succeeded(output) {
            Ok(_) => Ok(1000),
            Err(failure) => Err(ProvisioningError::Failed(failure)),
        },
    }
}

/// Decides from the provisioning program's run whether to go on: the
/// milliseconds to wait before looking for the new device, or why
/// provisioning did not go through.
pub fn after_provisioning(outcome: Result<CommandOutput, String>) -> (wait: Result<
    u64,
    ProvisioningError,
>)
    ensures
        wait == provisioning_verdict(outcome),
{
    match outcome {
        Err(why) => Err(ProvisioningError::NotRun(why)),
        Ok(output) => match output.success_output() {
            Ok(_) => Ok(SETTLE_DELAY_MS),
            Err(failure) => Err(ProvisioningError::Failed(failure)),
        },
    }
}

impl ProvisioningError {
    /// The error in words.
    pub fn message(&self) -> (text: String)
        ensures
            text@ == (match *self {
                ProvisioningError::NotRun(why) => "generating loopback device: "@ + why@,
                ProvisioningError::Failed(failure) => "generating loopback device: "@
                    + failure.message_spec(),
            }),
    {
        let mut out: Vec<char> = Vec::new();
        push_str(&mut out, "generating loopback device: ");
        match self {
            ProvisioningError::NotRun(why) => {
                push_str(&mut out, why.as_str());
            },
            ProvisioningError::Failed(failure) => {
                let inner = failure.message();
                push_str(&mut out, inner.as_str());
            },
        }
        string_of(&out)
    }
}

/// The program that shows a device's picture.
pub const FFPLAY_PATH: &'static str = "ffplay";

/// The program that records a device's picture.
pub const FFMPEG_PATH: &'static str = "ffmpeg";

/// The arguments that show the picture of `device`.
pub fn ffplay_preview(device: &VideoDevice) -> (arguments: Vec<String>)
    ensures
        texts(arguments@) == seq![device@],
{
    let mut arguments: Vec<String> = Vec::new();
    assert(texts(arguments@) =~= Seq::<Seq<char>>::empty());
    push_text(&mut arguments, device.path());
    assert(texts(arguments@) =~= seq![device@]);
    arguments
}

/// The arguments that record the picture of the device at `device` to the
/// file at `file`.
pub open spec fn recording_arguments_of(device: Seq<char>, file: Seq<char>) -> Seq<Seq<char>> {
    seq![
        "-f"@,
        "v4l2"@,
        "-video_size"@,
        "1920x1080"@,
        "-thread_queue_size"@,
        "512"@,
        "-r"@,
        "25"@,
        "-i"@,
        device,
        "-crf"@,
        "0"@,
        "-c:v"@,
        "libx264"@,
        "-preset"@,
        "ultrafast"@,
        "-threads"@,
        "8"@,
        file,
    ]
}

/// The arguments that record the picture of `device` to the file at
/// `file`.
pub fn recording_arguments(device: &VideoDevice, file: &str) -> (arguments: Vec<String>)
    ensures
        texts(arguments@) == recording_arguments_of(device@, file@),
{
    let mut arguments: Vec<String> = Vec::new();
    assert(texts(arguments@) =~= Seq::<Seq<char>>::empty());
    push_text(&mut arguments, "-f");
    push_text(&mut arguments, "v4l2");
    push_text(&mut arguments, "-video_size");
    push_text(&mut arguments, "1920x1080");
    push_text(&mut arguments, "-thread_queue_size");
    push_text(&mut arguments, "512");
    push_text(&mut arguments, "-r");
    push_text(&mut arguments, "25");
    push_text(&mut arguments, "-i");
    push_text(&mut arguments, device.path());
    push_text(&mut arguments, "-crf");
    push_text(&mut arguments, "0");
    push_text(&mut arguments, "-c:v");
    push_text(&mut arguments, "libx264");
    push_text(&mut arguments, "-preset");
    push_text(&mut arguments, "ultrafast");
    push_text(&mut arguments, "-threads");
    push_text(&mut arguments, "8");
    push_text(&mut arguments, file);
    assert(texts(arguments@) =~= recording_arguments_of(device@, file@));
    arguments
}

/// The program that controls the capture card.
pub const CONTROL_PROGRAM: &'static str = "mwcap-control";

/// How long to wait before asking the capture card for low latency, in
/// milliseconds.
pub const LOW_LATENCY_DELAY_MS: u64 = 500;

/// The arguments that ask the capture card behind `device` for low
/// latency.
pub fn low_latency_arguments(device: &VideoDevice) -> (arguments: Vec<String>)
    ensures
        texts(arguments@) == seq!["--video-output-lowlatency"@, "on"@, device@],
{
    let mut arguments: Vec<String> = Vec::new();
    assert(texts(arguments@) =~= Seq::<Seq<char>>::empty());
    push_text(&mut arguments, "--video-output-lowlatency");
    push_text(&mut arguments, "on");
    push_text(&mut arguments, device.path());
    assert(texts(arguments@) =~= seq!["--video-output-lowlatency"@, "on"@, device@]);
    arguments
}

/// Why the capture card does not run with low latency.
#[derive(Debug, Clone, PartialEq, Eq)]
pub enum LowLatencyError {
    /// The control program could not be run, for the reason given.
    NotRun(String),
    /// The control program failed.
    Failed(CommandFailure),
    /// The control program succeeded and did not say so.
    NotConfirmed(SuccessOutput),
}

/// The control program says that it succeeded: what it wrote holds the
/// word `successfully`.
pub open spec fn confirms_low_latency(output: SuccessOutput) -> bool {
    contains(output.stdout@ + " "@ + output.stderr@, "successfully"@)
}

/// What the control program's run means for low latency.
pub open spec fn low_latency_verdict(outcome: Result<CommandOutput, String>) -> Result<
    (),
    LowLatencyError,
> {
    match outcome {
        Err(why) => Err(LowLatencyError::NotRun(why)),
        Ok(output) => match succeeded(output) {
            Err(failure) => Err(LowLatencyError::Failed(failure)),
            Ok(written) => if confirms_low_latency(written) {
                Ok(())
            } else {
                Err(LowLatencyError::NotConfirmed(written))
            },
        },
    }
}

/// Decides from the control program's run whether the capture card runs
/// with low latency.
pub fn enable_low_latency_for_magewell(outcome: Result<CommandOutput, String>) -> (result: Result<
    (),
    LowLatencyError,
>)
    ensures
        result == low_latency_verdict(outcome),
{
    let output = match outcome {
        Ok(output) => output,
        Err(why) => {
            return Err(LowLatencyError::NotRun(why));
        },
    };
    let written = match output.success_output() {
        Ok(written) => written,
        Err(failure) => {
            return Err(LowLatencyError::Failed(failure));
        },
    };
    let mut all: Vec<char> = Vec::new();
    push_str(&mut all, written.stdout.as_str());
    push_str(&mut all, " ");
    push_str(&mut all, written.stderr.as_str());
    assert(all@ =~= written.stdout@ + " "@ + written.stderr@);
    let word = chars_of("successfully");
    if contains_text(&all, &word) {
        Ok(())
    } else {
        Err(LowLatencyError::NotConfirmed(written))
    }
}

/// The path of the directory that holds a project's recordings.
pub fn recordings_directory_path(project_directory: &ExistingDirectory) -> (path: String)
    ensures
        path@ == joined(project_directory@, "video-recordings"@),
{
    join(project_directory.path(), "video-recordings")
}

/// The path of a recording: in the recordings' directory, the project's
/// name, three hyphens, the time stamp and the ending `.mov`.
pub open spec fn video_file_of(recordings: Seq<char>, project_name: Seq<char>, stamp: Seq<char>) -> Seq<
    char,
> {
    joined(recordings, project_name + "---"@ + stamp + ".mov"@)
}

/// The path of the recording that starts at the time that `stamp` writes.
pub fn video_file_path_at(recordings: &ExistingDirectory, project_name: &str, stamp: &str) -> (path:
    String)
    ensures
        path@ == video_file_of(recordings@, project_name@, stamp@),
{
    let mut name: Vec<char> = Vec::new();
    push_str(&mut name, project_name);
    push_str(&mut name, "---");
    push_str(&mut name, stamp);
    push_str(&mut name, ".mov");
    let name = string_of(&name);
    assert(name@ =~= project_name@ + "---"@ + stamp@ + ".mov"@);
    join(recordings.path(), name.as_str())
}

/// The local time now as `chrono` formats it with
/// `%Y-%m-%d--%H-%M-%S`. Nothing is claimed of the text.
#[verifier::external_body]
fn file_stamp() -> (stamp: String) {
    chrono::Local::now().format("%Y-%m-%d--%H-%M-%S").to_string()
}

/// The path of the recording that starts now.
pub fn video_file_path(recordings: &ExistingDirectory, project_name: &str) -> (path: String)
    ensures
        exists|stamp: Seq<char>| path@ == #[trigger] video_file_of(
            recordings@,
            project_name@,
            stamp,
        ),
{
    let stamp = file_stamp();
    video_file_path_at(recordings, project_name, stamp.as_str())
}

/// The text that `byte_unit` writes for a number of bytes in binary
/// units.
pub uninterp spec fn binary_size_text(bytes: u64) -> Seq<char>;

/// `byte_unit::Byte::get_appropriate_unit` with binary units, as text:
/// the text depends on the number of bytes alone.
#[verifier::external_body]
fn binary_size(bytes: u64) -> (text: String)
    ensures
        text@ == binary_size_text(bytes),
{
    byte_unit::Byte::from_bytes(u128::from(bytes)).get_appropriate_unit(true).to_string()
}

/// The size of the recording for display: its length in binary units, or
/// why the length could not be read.
pub fn file_size(length: Result<u64, String>) -> (size: Result<String, String>)
    ensures
        match length {
            Ok(bytes) => size matches Ok(text) && text@ == binary_size_text(bytes),
            Err(why) => size matches Err(e) && e@ == "reading file metadata: "@ + why@,
        },
{
    match length {
        Ok(bytes) => Ok(binary_size(bytes)),
        Err(why) => {
            let mut out: Vec<char> = Vec::new();
            push_str(&mut out, "reading file metadata: ");
            push_str(&mut out, why.as_str());
            Err(string_of(&out))
        },
    }
}

} // verus!
