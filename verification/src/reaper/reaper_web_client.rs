//! The workstation's remote-control protocol: requests as text, responses
//! decoded field by field, and the bounded wait for the first answer.

use vstd::prelude::*;
use crate::number::{
    decimal_chars, decimal_text, is_float, is_float_text, parse_unsigned, unsigned_value,
};
use crate::reaper::ReaperBool;
use crate::text::{chars_of, push_all, push_str, split, split_text, string_of};

verus! {

/// Why a text is not a value of an enumeration that the protocol writes
/// as a number.
#[derive(Debug, Clone, PartialEq, Eq)]
pub enum ReprError {
    /// The text is no unsigned decimal number.
    InvalidNumber(String),
    /// The number stands for no value.
    InvalidRepr(usize),
}

/// The mathematical content of a [`ReprError`].
pub enum ReprFailure {
    InvalidNumber(Seq<char>),
    InvalidRepr(nat),
}

impl View for ReprError {
    type V = ReprFailure;

    open spec fn view(&self) -> ReprFailure {
        match self {
            ReprError::InvalidNumber(text) => ReprFailure::InvalidNumber(text@),
            ReprError::InvalidRepr(n) => ReprFailure::InvalidRepr(*n as nat),
        }
    }
}

/// The number that `text` writes, as the protocol's enumerations read it:
/// an optional `+` and digits, within the machine's word.
pub open spec fn repr_of_text(text: Seq<char>) -> Result<nat, ReprFailure> {
    match unsigned_value(text, usize::MAX as nat) {
        Some(n) => Ok(n),
        None => Err(ReprFailure::InvalidNumber(text)),
    }
}

/// Reads the number of an enumeration value.
pub fn parse_repr(text: &str) -> (number: Result<usize, ReprError>)
    ensures
        match number {
            Ok(n) => repr_of_text(text@) == Ok::<nat, ReprFailure>(n as nat),
            Err(e) => repr_of_text(text@) == Err::<nat, ReprFailure>(e@),
        },
{
    let chars = chars_of(text);
    match parse_unsigned(&chars, usize::MAX as u64) {
        Some(n) => Ok(n as usize),
        None => Err(ReprError::InvalidNumber(text.to_owned())),
    }
}

impl ReprError {
    /// The error in words.
    pub fn message(&self) -> (text: String)
        ensures
            text@ == (match self@ {
                ReprFailure::InvalidNumber(t) => "invalid number: '"@ + t + "'"@,
                ReprFailure::InvalidRepr(n) => "invalid repr "@ + decimal_text(n),
            }),
    {
        let mut out: Vec<char> = Vec::new();
        match self {
            ReprError::InvalidNumber(t) => {
                push_str(&mut out, "invalid number: '");
                push_str(&mut out, t.as_str());
                push_str(&mut out, "'");
            },
            ReprError::InvalidRepr(n) => {
                push_str(&mut out, "invalid repr ");
                let digits = decimal_chars(*n as u64);
                push_all(&mut out, &digits);
            },
        }
        string_of(&out)
    }
}

/// The colours of the transport panel.
#[derive(Debug, Clone, Copy, PartialEq, Eq, Structural)]
pub enum StateColor {
    Gray,
    Green,
    LightRed,
    DarkGray,
}

/// What the transport is doing.
#[derive(Debug, Clone, Copy, PartialEq, Eq, Structural)]
pub enum Playstate {
    Stopped,
    Playing,
    Paused,
    Recording,
    RecordPaused,
}

impl Playstate {
    /// The state that the protocol writes as `n`.
    pub open spec fn of_repr(n: nat) -> Option<Playstate> {
        if n == 0 {
            Some(Playstate::Stopped)
        } else if n == 1 {
            Some(Playstate::Playing)
        } else if n == 3 {
            Some(Playstate::Paused)
        } else if n == 5 {
            Some(Playstate::Recording)
        } else if n == 6 {
            Some(Playstate::RecordPaused)
        } else {
            None
        }
    }

    /// The number that the protocol writes for this state.
    pub open spec fn repr_spec(self) -> nat {
        match self {
            Playstate::Stopped => 0,
            Playstate::Playing => 1,
            Playstate::Paused => 3,
            Playstate::Recording => 5,
            Playstate::RecordPaused => 6,
        }
    }

    /// The state that `text` writes.
    pub open spec fn of_text(text: Seq<char>) -> Result<Playstate, ReprFailure> {
        match repr_of_text(text) {
            Ok(n) => match Self::of_repr(n) {
                Some(state) => Ok(state),
                None => Err(ReprFailure::InvalidRepr(n)),
            },
            Err(e) => Err(e),
        }
    }

    /// The state that the protocol writes as `n`, if there is one.
    pub fn from_repr(n: usize) -> (state: Option<Playstate>)
        ensures
            state == Self::of_repr(n as nat),
    {
        if n == 0 {
            Some(Playstate::Stopped)
        } else if n == 1 {
            Some(Playstate::Playing)
        } else if n == 3 {
            Some(Playstate::Paused)
        } else if n == 5 {
            Some(Playstate::Recording)
        } else if n == 6 {
            Some(Playstate::RecordPaused)
        } else {
            None
        }
    }

    /// The number that the protocol writes for this state.
    pub fn repr(self) -> (n: usize)
        ensures
            n == self.repr_spec(),
            Self::of_repr(n as nat) == Some(self),
    {
        match self {
            Playstate::Stopped => 0,
            Playstate::Playing => 1,
            Playstate::Paused => 3,
            Playstate::Recording => 5,
            Playstate::RecordPaused => 6,
        }
    }

    /// The colour in which the state is shown.
    pub fn color(self) -> (color: StateColor)
        ensures
            color == match self {
                Playstate::Stopped => StateColor::Gray,
                Playstate::Playing => StateColor::Green,
                Playstate::Paused => StateColor::Gray,
                Playstate::Recording => StateColor::LightRed,
                Playstate::RecordPaused => StateColor::DarkGray,
            },
    {
        match self {
            Playstate::Stopped => StateColor::Gray,
            Playstate::Playing => StateColor::Green,
            Playstate::Paused => StateColor::Gray,
            Playstate::Recording => StateColor::LightRed,
            Playstate::RecordPaused => StateColor::DarkGray,
        }
    }

    /// Reads a state from the number that `text` writes.
    pub fn from_str(text: &str) -> (state: Result<Playstate, ReprError>)
        ensures
            match state {
                Ok(s) => Self::of_text(text@) == Ok::<Playstate, ReprFailure>(s),
                Err(e) => Self::of_text(text@) == Err::<Playstate, ReprFailure>(e@),
            },
    {
        match parse_repr(text) {
            Ok(n) => match Self::from_repr(n) {
                Some(state) => Ok(state),
                None => Err(ReprError::InvalidRepr(n)),
            },
            Err(e) => Err(e),
        }
    }
}

impl ReaperBool {
    /// The flag that `text` writes.
    pub open spec fn of_text(text: Seq<char>) -> Result<ReaperBool, ReprFailure> {
        match repr_of_text(text) {
            Ok(n) => match Self::of_repr(n) {
                Some(flag) => Ok(flag),
                None => Err(ReprFailure::InvalidRepr(n)),
            },
            Err(e) => Err(e),
        }
    }

    /// Reads a flag from the number that `text` writes.
    pub fn from_str(text: &str) -> (flag: Result<ReaperBool, ReprError>)
        ensures
            match flag {
                Ok(f) => Self::of_text(text@) == Ok::<ReaperBool, ReprFailure>(f),
                Err(e) => Self::of_text(text@) == Err::<ReaperBool, ReprFailure>(e@),
            },
    {
        match parse_repr(text) {
            Ok(n) => match Self::from_repr(n) {
                Some(flag) => Ok(flag),
                None => Err(ReprError::InvalidRepr(n)),
            },
            Err(e) => Err(e),
        }
    }
}

/// An action of the workstation, by its command number.
#[derive(Debug, Clone, Copy, PartialEq, Eq, Structural)]
pub enum ActionId {
    TransportRecord,
    TransportStop,
    SaveProject,
    /// Item navigation: move the cursor to the end of the items.
    ItemNavigationMoveCursorToEndOfItems,
}

impl ActionId {
    /// The action with command number `n`.
    pub open spec fn of_repr(n: nat) -> Option<ActionId> {
        if n == 1013 {
            Some(ActionId::TransportRecord)
        } else if n == 1016 {
            Some(ActionId::TransportStop)
        } else if n == 40026 {
            Some(ActionId::SaveProject)
        } else if n == 41174 {
            Some(ActionId::ItemNavigationMoveCursorToEndOfItems)
        } else {
            None
        }
    }

    /// The action's command number.
    pub open spec fn repr_spec(self) -> nat {
        match self {
            ActionId::TransportRecord => 1013,
            ActionId::TransportStop => 1016,
            ActionId::SaveProject => 40026,
            ActionId::ItemNavigationMoveCursorToEndOfItems => 41174,
        }
    }

    /// The action that `text` writes.
    pub open spec fn of_text(text: Seq<char>) -> Result<ActionId, ReprFailure> {
        match repr_of_text(text) {
            Ok(n) => match Self::of_repr(n) {
                Some(action) => Ok(action),
                None => Err(ReprFailure::InvalidRepr(n)),
            },
            Err(e) => Err(e),
        }
    }

    /// The action with command number `n`, if there is one.
    pub fn from_repr(n: usize) -> (action: Option<ActionId>)
        ensures
            action == Self::of_repr(n as nat),
    {
        if n == 1013 {
            Some(ActionId::TransportRecord)
        } else if n == 1016 {
            Some(ActionId::TransportStop)
        } else if n == 40026 {
            Some(ActionId::SaveProject)
        } else if n == 41174 {
            Some(ActionId::ItemNavigationMoveCursorToEndOfItems)
        } else {
            None
        }
    }

    /// The action's command number.
    pub fn repr(self) -> (n: usize)
        ensures
            n == self.repr_spec(),
            Self::of_repr(n as nat) == Some(self),
    {
        match self {
            ActionId::TransportRecord => 1013,
            ActionId::TransportStop => 1016,
            ActionId::SaveProject => 40026,
            ActionId::ItemNavigationMoveCursorToEndOfItems => 41174,
        }
    }

    /// Reads an action from the command number that `text` writes.
    pub fn from_str(text: &str) -> (action: Result<ActionId, ReprError>)
        ensures
            match action {
                Ok(a) => Self::of_text(text@) == Ok::<ActionId, ReprFailure>(a),
                Err(e) => Self::of_text(text@) == Err::<ActionId, ReprFailure>(e@),
            },
    {
        match parse_repr(text) {
            Ok(n) => match Self::from_repr(n) {
                Some(action) => Ok(action),
                None => Err(ReprError::InvalidRepr(n)),
            },
            Err(e) => Err(e),
        }
    }
}

/// A field of the transport response, by position.
#[derive(Debug, Clone, Copy, PartialEq, Eq, Structural)]
pub enum TransportField {
    Playstate,
    PositionSeconds,
    IsRepeatOn,
    PositionString,
    PositionStringBeats,
}

impl TransportField {
    /// The field's name.
    pub open spec fn name_spec(self) -> Seq<char> {
        match self {
            TransportField::Playstate => "playstate"@,
            TransportField::PositionSeconds => "position_seconds"@,
            TransportField::IsRepeatOn => "is_repeat_on"@,
            TransportField::PositionString => "position_string"@,
            TransportField::PositionStringBeats => "position_string_beats"@,
        }
    }

    /// The kind of value that the field holds.
    pub open spec fn expected_spec(self) -> Seq<char> {
        match self {
            TransportField::Playstate => "Playstate"@,
            TransportField::PositionSeconds => "f64"@,
            TransportField::IsRepeatOn => "ReaperBool"@,
            TransportField::PositionString => "String"@,
            TransportField::PositionStringBeats => "String"@,
        }
    }

    /// The field's name.
    pub fn name(self) -> (name: &'static str)
        ensures
            name@ == self.name_spec(),
    {
        match self {
            TransportField::Playstate => "playstate",
            TransportField::PositionSeconds => "position_seconds",
            TransportField::IsRepeatOn => "is_repeat_on",
            TransportField::PositionString => "position_string",
            TransportField::PositionStringBeats => "position_string_beats",
        }
    }

    /// The kind of value that the field holds.
    pub fn expected(self) -> (kind: &'static str)
        ensures
            kind@ == self.expected_spec(),
    {
        match self {
            TransportField::Playstate => "Playstate",
            TransportField::PositionSeconds => "f64",
            TransportField::IsRepeatOn => "ReaperBool",
            TransportField::PositionString => "String",
            TransportField::PositionStringBeats => "String",
        }
    }
}

/// What is wrong with a field.
#[derive(Debug, Clone, PartialEq, Eq)]
pub enum FieldProblem {
    /// The response ends before the field.
    Missing,
    /// The field holds this text, which is no value of its kind.
    Unexpected(String),
}

/// The mathematical content of a [`FieldProblem`].
pub enum FieldFault {
    Missing,
    Unexpected(Seq<char>),
}

impl View for FieldProblem {
    type V = FieldFault;

    open spec fn view(&self) -> FieldFault {
        match self {
            FieldProblem::Missing => FieldFault::Missing,
            FieldProblem::Unexpected(text) => FieldFault::Unexpected(text@),
        }
    }
}

/// A response that does not decode: the first field that is wrong, and how.
#[derive(Debug, Clone, PartialEq, Eq)]
pub struct FieldError {
    pub field: TransportField,
    pub problem: FieldProblem,
}

/// The mathematical content of a [`FieldError`].
pub struct FieldFailure {
    pub field: TransportField,
    pub problem: FieldFault,
}

impl View for FieldError {
    type V = FieldFailure;

    open spec fn view(&self) -> FieldFailure {
        FieldFailure { field: self.field, problem: self.problem@ }
    }
}

impl FieldFailure {
    /// The failure in words: the response's kind, the field with the kind
    /// of value expected in it, and what was found.
    pub open spec fn message(self) -> Seq<char> {
        "parsing response TransportResponse: parsing "@ + self.field.name_spec() + " ("@
            + self.field.expected_spec() + "): "@ + (match self.problem {
            FieldFault::Missing => "field missing"@,
            FieldFault::Unexpected(text) => "unexpected value "@ + text,
        })
    }
}

impl FieldError {
    /// The failure in words.
    pub fn message(&self) -> (text: String)
        ensures
            text@ == self@.message(),
    {
        let mut out: Vec<char> = Vec::new();
        push_str(&mut out, "parsing response TransportResponse: parsing ");
        push_str(&mut out, self.field.name());
        push_str(&mut out, " (");
        push_str(&mut out, self.field.expected());
        push_str(&mut out, "): ");
        match &self.problem {
            FieldProblem::Missing => {
                push_str(&mut out, "field missing");
            },
            FieldProblem::Unexpected(text) => {
                push_str(&mut out, "unexpected value ");
                push_str(&mut out, text.as_str());
            },
        }
        let text = string_of(&out);
        assert(text@ =~= self@.message());
        text
    }
}

/// The fields of a response: what stands between its tabs, without the
/// leading marker.
pub open spec fn response_fields(response: Seq<char>) -> Seq<Seq<char>> {
    split(response, seq!['\t']).skip(1)
}

/// A decoded transport response.
///
/// `position_seconds` keeps the field's text, which is in decimal
/// floating-point notation.
#[derive(Debug, Clone, PartialEq, Eq)]
pub struct TransportResponse {
    pub playstate: Playstate,
    pub position_seconds: String,
    pub is_repeat_on: ReaperBool,
    pub position_string: String,
    pub position_string_beats: String,
}

/// The mathematical content of a [`TransportResponse`].
pub struct TransportState {
    pub playstate: Playstate,
    pub position_seconds: Seq<char>,
    pub is_repeat_on: ReaperBool,
    pub position_string: Seq<char>,
    pub position_string_beats: Seq<char>,
}

impl View for TransportResponse {
    type V = TransportState;

    open spec fn view(&self) -> TransportState {
        TransportState {
            playstate: self.playstate,
            position_seconds: self.position_seconds@,
            is_repeat_on: self.is_repeat_on,
            position_string: self.position_string@,
            position_string_beats: self.position_string_beats@,
        }
    }
}

/// What a transport response decodes to. The fields are read in order, and
/// the first one that is missing or is no value of its kind fails the
/// whole response; fields after the fifth are ignored.
pub open spec fn decoded_transport(response: Seq<char>) -> Result<TransportState, FieldFailure> {
    let fields = response_fields(response);
    if fields.len() < 1 {
        Err(FieldFailure { field: TransportField::Playstate, problem: FieldFault::Missing })
    } else if Playstate::of_text(fields[0]) is Err {
        Err(
            FieldFailure {
                field: TransportField::Playstate,
                problem: FieldFault::Unexpected(fields[0]),
            },
        )
    } else if fields.len() < 2 {
        Err(FieldFailure { field: TransportField::PositionSeconds, problem: FieldFault::Missing })
    } else if !is_float_text(fields[1]) {
        Err(
            FieldFailure {
                field: TransportField::PositionSeconds,
                problem: FieldFault::Unexpected(fields[1]),
            },
        )
    } else if fields.len() < 3 {
        Err(FieldFailure { field: TransportField::IsRepeatOn, problem: FieldFault::Missing })
    } else if ReaperBool::of_text(fields[2]) is Err {
        Err(
            FieldFailure {
                field: TransportField::IsRepeatOn,
                problem: FieldFault::Unexpected(fields[2]),
            },
        )
    } else if fields.len() < 4 {
        Err(FieldFailure { field: TransportField::PositionString, problem: FieldFault::Missing })
    } else if fields.len() < 5 {
        Err(
            FieldFailure {
                field: TransportField::PositionStringBeats,
                problem: FieldFault::Missing,
            },
        )
    } else {
        Ok(
            TransportState {
                playstate: Playstate::of_text(fields[0])->Ok_0,
                position_seconds: fields[1],
                is_repeat_on: ReaperBool::of_text(fields[2])->Ok_0,
                position_string: fields[3],
                position_string_beats: fields[4],
            },
        )
    }
}

/// A response of the workstation that can be decoded from its text.
pub trait ReaResponse: Sized {
    /// The mathematical content of a response.
    type Content;

    /// The content of this response.
    spec fn content(&self) -> Self::Content;

    /// What a response text decodes to.
    spec fn decoded(response: Seq<char>) -> Result<Self::Content, FieldFailure>;

    /// Decodes a response text.
    fn from_response(response: &str) -> (decoded: Result<Self, FieldError>)
        ensures
            match decoded {
                Ok(value) => Self::decoded(response@) == Ok::<Self::Content, FieldFailure>(
                    value.content(),
                ),
                Err(e) => Self::decoded(response@) == Err::<Self::Content, FieldFailure>(e@),
            },
    ;
}

fn missing(field: TransportField) -> (e: FieldError)
    ensures
        e@ == (FieldFailure { field, problem: FieldFault::Missing }),
{
    FieldError { field, problem: FieldProblem::Missing }
}

fn unexpected(field: TransportField, text: String) -> (e: FieldError)
    ensures
        e@ == (FieldFailure { field, problem: FieldFault::Unexpected(text@) }),
{
    FieldError { field, problem: FieldProblem::Unexpected(text) }
}

impl ReaResponse for TransportResponse {
    type Content = TransportState;

    open spec fn content(&self) -> TransportState {
        self@
    }

    open spec fn decoded(response: Seq<char>) -> Result<TransportState, FieldFailure> {
        decoded_transport(response)
    }

    fn from_response(response: &str) -> (decoded: Result<Self, FieldError>) {
        let chars = chars_of(response);
        let mut tab: Vec<char> = Vec::new();
        tab.push('\t');
        assert(tab@ =~= seq!['\t']);
        let parts = split_text(&chars, &tab);
        let ghost fields = response_fields(response@);
        assert(fields.len() == if parts.len() >= 1 {
            parts.len() - 1
        } else {
            0
        });
        assert(forall|k: int| 0 <= k < fields.len() ==> fields[k] == parts@[k + 1]@);
        if parts.len() < 2 {
            return Err(missing(TransportField::Playstate));
        }
        let first = string_of(&parts[1]);
        let playstate = match Playstate::from_str(first.as_str()) {
            Ok(state) => state,
            Err(_) => {
                return Err(unexpected(TransportField::Playstate, first));
            },
        };
        if parts.len() < 3 {
            return Err(missing(TransportField::PositionSeconds));
        }
        let position_seconds = string_of(&parts[2]);
        if !is_float(&parts[2]) {
            return Err(unexpected(TransportField::PositionSeconds, position_seconds));
        }
        if parts.len() < 4 {
            return Err(missing(TransportField::IsRepeatOn));
        }
        let third = string_of(&parts[3]);
        let is_repeat_on = match ReaperBool::from_str(third.as_str()) {
            Ok(flag) => flag,
            Err(_) => {
                return Err(unexpected(TransportField::IsRepeatOn, third));
            },
        };
        if parts.len() < 5 {
            return Err(missing(TransportField::PositionString));
        }
        if parts.len() < 6 {
            return Err(missing(TransportField::PositionStringBeats));
        }
        Ok(
            TransportResponse {
                playstate,
                position_seconds,
                is_repeat_on,
                position_string: string_of(&parts[4]),
                position_string_beats: string_of(&parts[5]),
            },
        )
    }
}

impl ReaResponse for () {
    type Content = ();

    open spec fn content(&self) -> () {
        ()
    }

    open spec fn decoded(response: Seq<char>) -> Result<(), FieldFailure> {
        Ok(())
    }

    fn from_response(_response: &str) -> (decoded: Result<Self, FieldError>) {
        Ok(())
    }
}

/// A request to the workstation, and the kind of response it brings.
pub trait ReaRequest {
    /// What the workstation answers.
    type Response: ReaResponse;

    /// The request as it stands in the request path.
    spec fn uri(&self) -> Seq<char>;

    /// The request as it stands in the request path.
    fn as_uri(&self) -> (uri: String)
        ensures
            uri@ == self.uri(),
    ;
}

/// The request for the transport state.
///
/// The workstation answers with one line of tab-separated fields: the
/// marker `TRANSPORT`, the play state, the position in seconds, the repeat
/// flag, the position as text and the position in beats as text.
#[derive(Debug, Clone, Copy, PartialEq, Eq, Structural)]
pub struct Transport;

impl ReaRequest for Transport {
    type Response = TransportResponse;

    open spec fn uri(&self) -> Seq<char> {
        "TRANSPORT"@
    }

    fn as_uri(&self) -> (uri: String) {
        "TRANSPORT".to_owned()
    }
}

impl ReaRequest for ActionId {
    type Response = ();

    open spec fn uri(&self) -> Seq<char> {
        decimal_text(self.repr_spec())
    }

    fn as_uri(&self) -> (uri: String) {
        let digits = decimal_chars(self.repr() as u64);
        string_of(&digits)
    }
}

/// The path of a request below the client's base address.
pub open spec fn request_path_of(uri: Seq<char>) -> Seq<char> {
    "_/"@ + uri + ";"@
}

/// The path of `request` below the client's base address.
pub fn request_path<R: ReaRequest>(request: &R) -> (path: String)
    ensures
        path@ == request_path_of(request.uri()),
{
    let uri = request.as_uri();
    let mut out: Vec<char> = Vec::new();
    push_str(&mut out, "_/");
    push_str(&mut out, uri.as_str());
    push_str(&mut out, ";");
    let path = string_of(&out);
    assert(path@ =~= request_path_of(request.uri()));
    path
}

/// What came of sending one request: the response's text, or the step
/// that failed with what it reported.
#[derive(Debug, Clone, PartialEq, Eq)]
pub enum Reply {
    /// The request's address could not be formed.
    InvalidUrl(String),
    /// The request could not be sent.
    NotSent(String),
    /// The workstation answered with an error status.
    BadStatus(String),
    /// The answer's text could not be read.
    Unreadable(String),
    /// The answer's text.
    Body(String),
}

/// Why a request brought no decoded response.
#[derive(Debug, Clone, PartialEq, Eq)]
pub enum RequestError {
    InvalidUrl(String),
    NotSent(String),
    BadStatus(String),
    Unreadable(String),
    /// The answer's text, and why it does not decode.
    BadResponse(String, FieldError),
}

/// The mathematical content of a [`RequestError`].
pub enum RequestFailure {
    InvalidUrl(Seq<char>),
    NotSent(Seq<char>),
    BadStatus(Seq<char>),
    Unreadable(Seq<char>),
    BadResponse(Seq<char>, FieldFailure),
}

impl View for RequestError {
    type V = RequestFailure;

    open spec fn view(&self) -> RequestFailure {
        match self {
            RequestError::InvalidUrl(m) => RequestFailure::InvalidUrl(m@),
            RequestError::NotSent(m) => RequestFailure::NotSent(m@),
            RequestError::BadStatus(m) => RequestFailure::BadStatus(m@),
            RequestError::Unreadable(m) => RequestFailure::Unreadable(m@),
            RequestError::BadResponse(body, e) => RequestFailure::BadResponse(body@, e@),
        }
    }
}

impl RequestFailure {
    /// The failure in words, outermost step first.
    pub open spec fn message(self) -> Seq<char> {
        match self {
            RequestFailure::InvalidUrl(m) => "invalid url: "@ + m,
            RequestFailure::NotSent(m) => "sending command request: "@ + m,
            RequestFailure::BadStatus(m) => "invalid status: "@ + m,
            RequestFailure::Unreadable(m) => "bad text response: "@ + m,
            RequestFailure::BadResponse(body, e) => "bad response: '"@ + body + "': "@
                + e.message(),
        }
    }
}

impl RequestError {
    /// The failure in words, outermost step first.
    pub fn message(&self) -> (text: String)
        ensures
            text@ == self@.message(),
    {
        let mut out: Vec<char> = Vec::new();
        match self {
            RequestError::InvalidUrl(m) => {
                push_str(&mut out, "invalid url: ");
                push_str(&mut out, m.as_str());
            },
            RequestError::NotSent(m) => {
                push_str(&mut out, "sending command request: ");
                push_str(&mut out, m.as_str());
            },
            RequestError::BadStatus(m) => {
                push_str(&mut out, "invalid status: ");
                push_str(&mut out, m.as_str());
            },
            RequestError::Unreadable(m) => {
                push_str(&mut out, "bad text response: ");
                push_str(&mut out, m.as_str());
            },
            RequestError::BadResponse(body, e) => {
                push_str(&mut out, "bad response: '");
                push_str(&mut out, body.as_str());
                push_str(&mut out, "': ");
                let inner = e.message();
                push_str(&mut out, inner.as_str());
            },
        }
        let text = string_of(&out);
        assert(text@ =~= self@.message());
        text
    }
}

/// What `reply` means for a request whose response is an `R`: the decoded
/// response where the answer's text came back and decodes, else the
/// failure of the step that failed.
pub open spec fn interpreted<R: ReaResponse>(reply: Reply) -> Result<R::Content, RequestFailure> {
    match reply {
        Reply::InvalidUrl(m) => Err(RequestFailure::InvalidUrl(m@)),
        Reply::NotSent(m) => Err(RequestFailure::NotSent(m@)),
        Reply::BadStatus(m) => Err(RequestFailure::BadStatus(m@)),
        Reply::Unreadable(m) => Err(RequestFailure::Unreadable(m@)),
        Reply::Body(body) => match R::decoded(body@) {
            Ok(content) => Ok(content),
            Err(e) => Err(RequestFailure::BadResponse(body@, e)),
        },
    }
}

/// Turns what came of sending one request into the request's result.
pub fn run_single<R: ReaResponse>(reply: Reply) -> (result: Result<R, RequestError>)
    ensures
        match result {
            Ok(value) => interpreted::<R>(reply) == Ok::<R::Content, RequestFailure>(
                value.content(),
            ),
            Err(e) => interpreted::<R>(reply) == Err::<R::Content, RequestFailure>(e@),
        },
{
    match reply {
        Reply::InvalidUrl(m) => Err(RequestError::InvalidUrl(m)),
        Reply::NotSent(m) => Err(RequestError::NotSent(m)),
        Reply::BadStatus(m) => Err(RequestError::BadStatus(m)),
        Reply::Unreadable(m) => Err(RequestError::Unreadable(m)),
        Reply::Body(body) => match R::from_response(body.as_str()) {
            Ok(value) => Ok(value),
            Err(e) => Err(RequestError::BadResponse(body, e)),
        },
    }
}

/// How long to wait between two probes, in milliseconds.
pub const PROBE_INTERVAL_MS: u64 = 100;

/// The number of seconds that the workstation gets to answer unless told
/// otherwise.
pub const DEFAULT_BUDGET_SECONDS: u64 = 5;

/// A budget of `budget_seconds` in milliseconds, as far as the machine's
/// numbers reach.
pub open spec fn budget_ms_of(budget_seconds: nat) -> nat {
    if budget_seconds * 1000 <= u64::MAX {
        budget_seconds * 1000
    } else {
        u64::MAX as nat
    }
}

/// The bounded wait for the workstation's first answer: the time that it
/// may take, and what the last failed probe reported.
#[derive(Debug, Clone, PartialEq, Eq)]
pub struct LivenessProbe {
    budget_ms: u64,
    last_error: Option<String>,
}

/// The mathematical content of a [`LivenessProbe`].
pub struct Liveness {
    pub budget_ms: nat,
    pub last_error: Option<Seq<char>>,
}

impl Liveness {
    /// The wait at its start.
    pub open spec fn start(budget_seconds: nat) -> Liveness {
        Liveness { budget_ms: budget_ms_of(budget_seconds), last_error: None }
    }

    /// The wait after one more probe failed with `error`.
    pub open spec fn after_failure(self, error: Seq<char>) -> Liveness {
        Liveness { budget_ms: self.budget_ms, last_error: Some(error) }
    }

    /// The wait after the probes failed with `errors`, in order.
    pub open spec fn after_failures(self, errors: Seq<Seq<char>>) -> Liveness
        decreases errors.len(),
    {
        if errors.len() == 0 {
            self
        } else {
            self.after_failures(errors.drop_last()).after_failure(errors.last())
        }
    }

    /// The budget is used up once more time has passed than it holds.
    pub open spec fn timed_out(self, elapsed_ms: nat) -> bool {
        elapsed_ms > self.budget_ms
    }
}

impl View for LivenessProbe {
    type V = Liveness;

    closed spec fn view(&self) -> Liveness {
        Liveness {
            budget_ms: self.budget_ms as nat,
            last_error: match self.last_error {
                Some(e) => Some(e@),
                None => None,
            },
        }
    }
}

/// The budget is used up: what the last failed probe reported, if any
/// probe was made.
#[derive(Debug, Clone, PartialEq, Eq)]
pub struct LivenessTimeout {
    pub last_error: Option<String>,
}

/// What to do next while waiting for the first answer.
#[derive(Debug, Clone, PartialEq, Eq)]
pub enum LivenessStep {
    /// Send a probe.
    Probe,
    /// Give up.
    TimedOut(LivenessTimeout),
}

/// What a probe's outcome means.
#[derive(Debug, Clone, Copy, PartialEq, Eq, Structural)]
pub enum ProbeVerdict {
    /// The workstation answered: the wait is over.
    Alive,
    /// No answer: wait this many milliseconds, and ask what to do next.
    Retry(u64),
}

impl LivenessTimeout {
    /// The failure in words.
    pub fn message(&self) -> (text: String)
        ensures
            text@ == "healthcheck failed: "@ + (match self.last_error {
                Some(e) => e@,
                None => "no probe was made"@,
            }),
    {
        let mut out: Vec<char> = Vec::new();
        push_str(&mut out, "healthcheck failed: ");
        match &self.last_error {
            Some(e) => {
                push_str(&mut out, e.as_str());
            },
            None => {
                push_str(&mut out, "no probe was made");
            },
        }
        string_of(&out)
    }
}

impl LivenessProbe {
    /// The wait at its start, with a budget of `budget_seconds`.
    pub fn new(budget_seconds: u64) -> (probe: LivenessProbe)
        ensures
            probe@ == Liveness::start(budget_seconds as nat),
    {
        let budget_ms = if budget_seconds > u64::MAX / 1000 {
            u64::MAX
        } else {
            budget_seconds * 1000
        };
        LivenessProbe { budget_ms, last_error: None }
    }

    /// What to do next, `elapsed_ms` milliseconds after the wait began:
    /// probe while no more time has passed than the budget holds, else
    /// give up with what the last failed probe reported.
    pub fn next(&self, elapsed_ms: u64) -> (step: LivenessStep)
        ensures
            match step {
                LivenessStep::Probe => !self@.timed_out(elapsed_ms as nat),
                LivenessStep::TimedOut(timeout) => self@.timed_out(elapsed_ms as nat) && (match (
                    timeout.last_error,
                    self@.last_error,
                ) {
                    (Some(reported), Some(last)) => reported@ == last,
                    (None, None) => true,
                    _ => false,
                }),
            },
    {
        if elapsed_ms <= self.budget_ms {
            LivenessStep::Probe
        } else {
            LivenessStep::TimedOut(
                LivenessTimeout {
                    last_error: match &self.last_error {
                        Some(e) => Some(e.clone()),
                        None => None,
                    },
                },
            )
        }
    }

    /// Takes the outcome of a probe: an answer ends the wait at once; a
    /// failure is kept as the last one, and the next step comes after the
    /// probe interval.
    pub fn record(&mut self, outcome: Result<(), String>) -> (verdict: ProbeVerdict)
        ensures
            match outcome {
                Ok(_) => verdict == ProbeVerdict::Alive && final(self)@ == old(self)@,
                Err(error) => verdict == ProbeVerdict::Retry(100) && final(self)@ == old(
                    self,
                )@.after_failure(error@),
            },
    {
        match outcome {
            Ok(_) => ProbeVerdict::Alive,
            Err(error) => {
                self.last_error = Some(error);
                ProbeVerdict::Retry(PROBE_INTERVAL_MS)
            },
        }
    }
}

/// Failed probes leave the budget as it is, and the last error kept is
/// the last one reported.
pub proof fn lemma_after_failures(budget_seconds: nat, errors: Seq<Seq<char>>)
    ensures
        Liveness::start(budget_seconds).after_failures(errors).budget_ms == budget_ms_of(
            budget_seconds,
        ),
        Liveness::start(budget_seconds).after_failures(errors).last_error == if errors.len()
            > 0 {
            Some(errors.last())
        } else {
            None
        },
    decreases errors.len(),
{
    if errors.len() > 0 {
        lemma_after_failures(budget_seconds, errors.drop_last());
    }
}

/// Against a workstation that never answers, the wait gives up when the
/// budget is used up, not before and not much after. Whatever failed
/// before, it goes on at `earlier` and gives up at `later` only where
/// `later` is past the budget; and where those two instants are no more
/// than `gap` apart, `later` is no more than `gap` past the budget. With
/// probes that take no time, the instants are one probe interval apart:
/// after `errors.len()` failures the wait stands at as many intervals,
/// gives up exactly when that is past the budget, and reports the last
/// failure.
pub proof fn law_wait_gives_up_when_the_budget_is_used(
    budget_seconds: nat,
    errors: Seq<Seq<char>>,
    earlier: nat,
    later: nat,
    gap: nat,
)
    ensures
        ({
            let wait = Liveness::start(budget_seconds).after_failures(errors);
            &&& wait.timed_out(later) ==> later > budget_ms_of(budget_seconds)
            &&& !wait.timed_out(earlier) && wait.timed_out(later) && later <= earlier + gap
                ==> later <= budget_ms_of(budget_seconds) + gap
            &&& wait.timed_out(errors.len() * 100) <==> errors.len() * 100 > budget_ms_of(
                budget_seconds,
            )
            &&& budget_seconds * 1000 <= u64::MAX ==> (wait.timed_out(errors.len() * 100)
                <==> errors.len() > budget_seconds * 10)
            &&& errors.len() > 0 ==> wait.last_error == Some(errors.last())
        }),
{
    lemma_after_failures(budget_seconds, errors);
}

} // verus!
