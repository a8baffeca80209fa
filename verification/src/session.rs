//! One run of a command, as a dialogue. The session decides what is
//! asked of the engine and of the terminal, in which order, and what
//! the run comes to; the front end carries each request out and hands
//! back the reply. A token that does not parse ends the run before the
//! engine is asked anything, and a transient result of the engine is
//! released on every path through the dialogue.

use vstd::prelude::*;
use crate::codes::{LcDetailLevel, LcDxfVersion, LcError, LcFormat};
use crate::info_report::{file_info_lines, file_info_report};
use crate::model::{FileInfo, ValidationResult};
use crate::raw::{LcFileInfo, LcValidationResult, file_info_of, validation_of};
use crate::report::{Line, Span, SpanView, Style, line_views, plain, span_views, styled, text_span};
use crate::validation_report::{validation_lines, validation_report};

verus! {

/// What the user asked for, with every token still as typed.
#[derive(Debug, Clone)]
pub enum Command {
    Convert { input: String, output: String, dxf_version: String },
    Info { input: String, detail: String, json: bool },
    Validate { input: String, json: bool },
    Version { package_version: String },
}

/// The two transient results an engine hands out.
#[derive(Debug, Clone, Copy, PartialEq, Eq, Structural)]
pub enum Subject {
    Info,
    Validation,
}

/// The three operations that can fail inside the engine.
#[derive(Debug, Clone, Copy, PartialEq, Eq, Structural)]
pub enum Operation {
    Convert,
    Info,
    Validate,
}

/// What the front end is to do next.
#[derive(Debug)]
pub enum Request {
    /// Ask the engine for the format of the file at `path`.
    DetectFormat { path: String },
    /// Ask the engine to convert `input` into `output`.
    Convert { input: String, output: String, version: LcDxfVersion },
    /// Ask the engine to extract the drawing at `path`.
    GetFileInfo { path: String, detail: LcDetailLevel },
    /// Ask the engine to validate the drawing at `path`.
    Validate { path: String },
    /// Ask the engine for the JSON form of the transient result it last
    /// handed out.
    ToJson { subject: Subject },
    /// Give the transient result back to the engine.
    Release { subject: Subject },
    /// Give the engine's string back to it.
    ReleaseString,
    /// Read the engine's diagnostic of its last failure.
    LastError,
    /// Ask the engine for its version.
    EngineVersion,
    /// Write the lines to the terminal.
    Print { lines: Vec<Line> },
    /// End the run with this outcome.
    Finish { outcome: Result<(), String> },
}

/// What a request is, as mathematics sees it.
pub enum RequestView {
    DetectFormat { path: Seq<char> },
    Convert { input: Seq<char>, output: Seq<char>, version: LcDxfVersion },
    GetFileInfo { path: Seq<char>, detail: LcDetailLevel },
    Validate { path: Seq<char> },
    ToJson { subject: Subject },
    Release { subject: Subject },
    ReleaseString,
    LastError,
    EngineVersion,
    Print { lines: Seq<Seq<SpanView>> },
    Finish { outcome: Result<(), Seq<char>> },
}

impl View for Request {
    type V = RequestView;

    open spec fn view(&self) -> RequestView {
        match self {
            Request::DetectFormat { path } => RequestView::DetectFormat { path: path@ },
            Request::Convert { input, output, version } => RequestView::Convert {
                input: input@,
                output: output@,
                version: *version,
            },
            Request::GetFileInfo { path, detail } => RequestView::GetFileInfo {
                path: path@,
                detail: *detail,
            },
            Request::Validate { path } => RequestView::Validate { path: path@ },
            Request::ToJson { subject } => RequestView::ToJson { subject: *subject },
            Request::Release { subject } => RequestView::Release { subject: *subject },
            Request::ReleaseString => RequestView::ReleaseString,
            Request::LastError => RequestView::LastError,
            Request::EngineVersion => RequestView::EngineVersion,
            Request::Print { lines } => RequestView::Print { lines: line_views(lines@) },
            Request::Finish { outcome } => RequestView::Finish {
                outcome: match outcome {
                    Ok(_) => Ok(()),
                    Err(e) => Err(e@),
                },
            },
        }
    }
}

/// What came of a request. A reply of a kind that the request does not
/// call for counts as the absence of what was asked for.
#[derive(Debug, Clone)]
pub enum Reply {
    /// The integer that the engine returned.
    Code(i32),
    /// The text that the engine returned, if it returned one.
    Text(Option<String>),
    /// The extraction result that the engine handed out, if any.
    Info(Option<LcFileInfo>),
    /// The validation result that the engine handed out, if any.
    Validation(Option<LcValidationResult>),
    /// The request was carried out and returns nothing.
    Done,
}

/// Where a run stands: what has been asked last and what is kept for
/// the steps to come.
#[derive(Debug, Clone)]
pub enum Session {
    ProbingInput { input: String, output: String, version: LcDxfVersion },
    ProbingOutput { input: String, output: String, version: LcDxfVersion, from: LcFormat },
    Announcing { input: String, output: String, version: LcDxfVersion },
    Converting,
    AcquiringInfo { detail: LcDetailLevel, as_json: bool },
    AcquiringValidation { filename: String, as_json: bool },
    Serializing { subject: Subject },
    ReleasingSerialized { subject: Subject, made: Option<String> },
    ReleasingString { text: String },
    Releasing { lines: Vec<Line> },
    AskingVersion { package_version: String },
    AwaitingError { operation: Operation },
    Closing,
    Closed,
}

/// What the state of a run is, as mathematics sees it.
pub enum SessionView {
    ProbingInput { input: Seq<char>, output: Seq<char>, version: LcDxfVersion },
    ProbingOutput { input: Seq<char>, output: Seq<char>, version: LcDxfVersion, from: LcFormat },
    Announcing { input: Seq<char>, output: Seq<char>, version: LcDxfVersion },
    Converting,
    AcquiringInfo { detail: LcDetailLevel, as_json: bool },
    AcquiringValidation { filename: Seq<char>, as_json: bool },
    Serializing { subject: Subject },
    ReleasingSerialized { subject: Subject, made: Option<Seq<char>> },
    ReleasingString { text: Seq<char> },
    Releasing { lines: Seq<Seq<SpanView>> },
    AskingVersion { package_version: Seq<char> },
    AwaitingError { operation: Operation },
    Closing,
    Closed,
}

impl View for Session {
    type V = SessionView;

    open spec fn view(&self) -> SessionView {
        match self {
            Session::ProbingInput { input, output, version } => SessionView::ProbingInput {
                input: input@,
                output: output@,
                version: *version,
            },
            Session::ProbingOutput { input, output, version, from } => SessionView::ProbingOutput {
                input: input@,
                output: output@,
                version: *version,
                from: *from,
            },
            Session::Announcing { input, output, version } => SessionView::Announcing {
                input: input@,
                output: output@,
                version: *version,
            },
            Session::Converting => SessionView::Converting,
            Session::AcquiringInfo { detail, as_json } => SessionView::AcquiringInfo {
                detail: *detail,
                as_json: *as_json,
            },
            Session::AcquiringValidation { filename, as_json } => SessionView::AcquiringValidation {
                filename: filename@,
                as_json: *as_json,
            },
            Session::Serializing { subject } => SessionView::Serializing { subject: *subject },
            Session::ReleasingSerialized { subject, made } => SessionView::ReleasingSerialized {
                subject: *subject,
                made: match made {
                    Some(t) => Some(t@),
                    None => None,
                },
            },
            Session::ReleasingString { text } => SessionView::ReleasingString { text: text@ },
            Session::Releasing { lines } => SessionView::Releasing { lines: line_views(lines@) },
            Session::AskingVersion { package_version } => SessionView::AskingVersion {
                package_version: package_version@,
            },
            Session::AwaitingError { operation } => SessionView::AwaitingError {
                operation: *operation,
            },
            Session::Closing => SessionView::Closing,
            Session::Closed => SessionView::Closed,
        }
    }
}

/// The integer a reply carries; a reply without one counts as the
/// integer of `LcError::Unknown`.
pub open spec fn code_in(reply: Reply) -> int {
    match reply {
        Reply::Code(c) => c as int,
        _ => 99,
    }
}

/// The text a reply carries, if it carries one.
pub open spec fn text_in(reply: Reply) -> Option<Seq<char>> {
    match reply {
        Reply::Text(Some(t)) => Some(t@),
        _ => None,
    }
}

/// What an operation's failure message begins with.
pub open spec fn failure_prefix(operation: Operation) -> Seq<char> {
    match operation {
        Operation::Convert => "Conversion failed: "@,
        Operation::Info => "Failed to get file info: "@,
        Operation::Validate => "Validation failed: "@,
    }
}

/// The operation that hands out a subject.
pub open spec fn operation_of(subject: Subject) -> Operation {
    match subject {
        Subject::Info => Operation::Info,
        Subject::Validation => Operation::Validate,
    }
}

/// The line that announces a conversion.
pub open spec fn announcement(
    input: Seq<char>,
    from: LcFormat,
    output: Seq<char>,
    to: LcFormat,
) -> Seq<SpanView> {
    seq![
        SpanView::Text { text: "Converting:"@, style: Style::GreenBold },
        text_span(" "@ + input + " ("@ + from.name() + ") -> "@ + output + " ("@ + to.name() + ")"@),
    ]
}

/// The two lines that state the versions.
pub open spec fn version_lines(package_version: Seq<char>, engine: Seq<char>) -> Seq<
    Seq<SpanView>,
> {
    seq![plain("cadutil "@ + package_version), plain("cadutil_core "@ + engine)]
}

/// The request that ends a run in failure.
pub open spec fn failure(message: Seq<char>) -> RequestView {
    RequestView::Finish { outcome: Err(message) }
}

/// How a run begins. A version or detail token that does not parse ends
/// it on the spot, with the rejection as its outcome.
pub open spec fn begin(command: Command) -> (SessionView, RequestView) {
    match command {
        Command::Convert { input, output, dxf_version } => match LcDxfVersion::parsed(
            dxf_version@,
        ) {
            Some(version) => (
                SessionView::ProbingInput { input: input@, output: output@, version },
                RequestView::DetectFormat { path: input@ },
            ),
            None => (SessionView::Closed, failure(LcDxfVersion::rejection(dxf_version@))),
        },
        Command::Info { input, detail, json } => match LcDetailLevel::parsed(detail@) {
            Some(level) => (
                SessionView::AcquiringInfo { detail: level, as_json: json },
                RequestView::GetFileInfo { path: input@, detail: level },
            ),
            None => (SessionView::Closed, failure(LcDetailLevel::rejection(detail@))),
        },
        Command::Validate { input, json } => (
            SessionView::AcquiringValidation { filename: input@, as_json: json },
            RequestView::Validate { path: input@ },
        ),
        Command::Version { package_version } => (
            SessionView::AskingVersion { package_version: package_version@ },
            RequestView::EngineVersion,
        ),
    }
}

/// How a run goes on from a state when a reply comes in.
pub open spec fn next(state: SessionView, reply: Reply) -> (SessionView, RequestView) {
    match state {
        SessionView::ProbingInput { input, output, version } => (
            SessionView::ProbingOutput {
                input,
                output,
                version,
                from: LcFormat::spec_from_code(code_in(reply)),
            },
            RequestView::DetectFormat { path: output },
        ),
        SessionView::ProbingOutput { input, output, version, from } => (
            SessionView::Announcing { input, output, version },
            RequestView::Print {
                lines: seq![
                    announcement(input, from, output, LcFormat::spec_from_code(code_in(reply))),
                ],
            },
        ),
        SessionView::Announcing { input, output, version } => (
            SessionView::Converting,
            RequestView::Convert { input, output, version },
        ),
        SessionView::Converting => if LcError::spec_from_code(code_in(reply))
            == LcError::Success {
            (
                SessionView::Closing,
                RequestView::Print {
                    lines: seq![styled("Conversion completed successfully!"@, Style::Green)],
                },
            )
        } else {
            (SessionView::AwaitingError { operation: Operation::Convert }, RequestView::LastError)
        },
        SessionView::AcquiringInfo { detail, as_json } => match reply {
            Reply::Info(Some(raw)) => if as_json {
                (
                    SessionView::Serializing { subject: Subject::Info },
                    RequestView::ToJson { subject: Subject::Info },
                )
            } else {
                (
                    SessionView::Releasing { lines: file_info_report(file_info_of(raw), detail) },
                    RequestView::Release { subject: Subject::Info },
                )
            },
            _ => (SessionView::AwaitingError { operation: Operation::Info }, RequestView::LastError),
        },
        SessionView::AcquiringValidation { filename, as_json } => match reply {
            Reply::Validation(Some(raw)) => if as_json {
                (
                    SessionView::Serializing { subject: Subject::Validation },
                    RequestView::ToJson { subject: Subject::Validation },
                )
            } else {
                (
                    SessionView::Releasing {
                        lines: validation_report(validation_of(raw), filename),
                    },
                    RequestView::Release { subject: Subject::Validation },
                )
            },
            _ => (
                SessionView::AwaitingError { operation: Operation::Validate },
                RequestView::LastError,
            ),
        },
        SessionView::Serializing { subject } => (
            SessionView::ReleasingSerialized { subject, made: text_in(reply) },
            RequestView::Release { subject },
        ),
        SessionView::ReleasingSerialized { subject, made } => match made {
            Some(t) => (SessionView::ReleasingString { text: t }, RequestView::ReleaseString),
            None => (
                SessionView::Closed,
                failure(failure_prefix(operation_of(subject)) + "Failed to convert to JSON"@),
            ),
        },
        SessionView::ReleasingString { text } => (
            SessionView::Closing,
            RequestView::Print { lines: seq![plain(text)] },
        ),
        SessionView::Releasing { lines } => (SessionView::Closing, RequestView::Print { lines }),
        SessionView::AskingVersion { package_version } => (
            SessionView::Closing,
            RequestView::Print {
                lines: version_lines(
                    package_version,
                    match text_in(reply) {
                        Some(t) => t,
                        None => Seq::empty(),
                    },
                ),
            },
        ),
        SessionView::AwaitingError { operation } => (
            SessionView::Closed,
            failure(
                failure_prefix(operation) + (match text_in(reply) {
                    Some(t) => t,
                    None => Seq::empty(),
                }),
            ),
        ),
        SessionView::Closing => (SessionView::Closed, RequestView::Finish { outcome: Ok(()) }),
        SessionView::Closed => (SessionView::Closed, failure("the run is over"@)),
    }
}

fn code_of(reply: &Reply) -> (r: i32)
    ensures
        r == code_in(*reply),
{
    match reply {
        Reply::Code(c) => *c,
        _ => 99,
    }
}

fn text_from(reply: Reply) -> (r: Option<String>)
    ensures
        match r {
            Some(t) => text_in(reply) == Some(t@),
            None => text_in(reply) is None,
        },
{
    match reply {
        Reply::Text(Some(t)) => Some(t),
        _ => None,
    }
}

fn text_or_nothing(reply: Reply) -> (r: String)
    ensures
        r@ == (match text_in(reply) {
            Some(t) => t,
            None => Seq::empty(),
        }),
{
    match text_from(reply) {
        Some(t) => t,
        None => String::new(),
    }
}

fn prefix_of(operation: Operation) -> (r: &'static str)
    ensures
        r@ == failure_prefix(operation),
{
    match operation {
        Operation::Convert => "Conversion failed: ",
        Operation::Info => "Failed to get file info: ",
        Operation::Validate => "Validation failed: ",
    }
}

fn operation_for(subject: Subject) -> (r: Operation)
    ensures
        r == operation_of(subject),
{
    match subject {
        Subject::Info => Operation::Info,
        Subject::Validation => Operation::Validate,
    }
}

fn failed(operation: Operation, detail: &str) -> (r: Request)
    ensures
        r@ == failure(failure_prefix(operation) + detail@),
{
    let mut message = String::from_str(prefix_of(operation));
    message.append(detail);
    Request::Finish { outcome: Err(message) }
}

fn announce(input: &str, from: LcFormat, output: &str, to: LcFormat) -> (r: Vec<Line>)
    ensures
        line_views(r@) == seq![announcement(input@, from, output@, to)],
{
    let mut t = String::from_str(" ");
    t.append(input);
    t.append(" (");
    t.append(from.as_str());
    t.append(") -> ");
    t.append(output);
    t.append(" (");
    t.append(to.as_str());
    t.append(")");
    let mut spans: Vec<Span> = Vec::new();
    spans.push(Span::styled("Converting:", Style::GreenBold));
    spans.push(Span::Text { text: t, style: Style::Plain });
    assert(span_views(spans@) =~= announcement(input@, from, output@, to));
    let mut lines: Vec<Line> = Vec::new();
    lines.push(Line::of(spans));
    lines
}

fn one_line(line: Line) -> (r: Vec<Line>)
    ensures
        line_views(r@) == seq![line@],
{
    let mut lines: Vec<Line> = Vec::new();
    lines.push(line);
    lines
}

fn versions(package_version: &str, engine: &str) -> (r: Vec<Line>)
    ensures
        line_views(r@) == version_lines(package_version@, engine@),
{
    let mut own = String::from_str("cadutil ");
    own.append(package_version);
    let mut core = String::from_str("cadutil_core ");
    core.append(engine);
    let mut lines: Vec<Line> = Vec::new();
    lines.push(Line::plain(own));
    lines.push(Line::plain(core));
    lines
}

impl Session {
    /// Begins the run of a command: the state to keep and the first
    /// thing to do.
    pub fn start(command: Command) -> (r: (Session, Request))
        ensures
            (r.0@, r.1@) == begin(command),
    {
        match command {
            Command::Convert { input, output, dxf_version } => {
                match LcDxfVersion::from_token(dxf_version.as_str()) {
                    Ok(version) => {
                        let path = input.clone();
                        (Session::ProbingInput { input, output, version }, Request::DetectFormat {
                            path,
                        })
                    },
                    Err(message) => (Session::Closed, Request::Finish { outcome: Err(message) }),
                }
            },
            Command::Info { input, detail, json } => {
                match LcDetailLevel::from_token(detail.as_str()) {
                    Ok(level) => (
                        Session::AcquiringInfo { detail: level, as_json: json },
                        Request::GetFileInfo { path: input, detail: level },
                    ),
                    Err(message) => (Session::Closed, Request::Finish { outcome: Err(message) }),
                }
            },
            Command::Validate { input, json } => {
                let path = input.clone();
                (
                    Session::AcquiringValidation { filename: input, as_json: json },
                    Request::Validate { path },
                )
            },
            Command::Version { package_version } => (
                Session::AskingVersion { package_version },
                Request::EngineVersion,
            ),
        }
    }

    /// Takes the reply to the last request: the state to keep and the
    /// next thing to do.
    pub fn step(self, reply: Reply) -> (r: (Session, Request))
        ensures
            (r.0@, r.1@) == next(self@, reply),
    {
        match self {
            Session::ProbingInput { input, output, version } => {
                let from = LcFormat::from_code(code_of(&reply));
                let path = output.clone();
                (Session::ProbingOutput { input, output, version, from }, Request::DetectFormat {
                    path,
                })
            },
            Session::ProbingOutput { input, output, version, from } => {
                let to = LcFormat::from_code(code_of(&reply));
                let lines = announce(input.as_str(), from, output.as_str(), to);
                (Session::Announcing { input, output, version }, Request::Print { lines })
            },
            Session::Announcing { input, output, version } => (
                Session::Converting,
                Request::Convert { input, output, version },
            ),
            Session::Converting => {
                if LcError::from_code(code_of(&reply)).is_ok() {
                    let lines = one_line(
                        Line::styled(
                            String::from_str("Conversion completed successfully!"),
                            Style::Green,
                        ),
                    );
                    (Session::Closing, Request::Print { lines })
                } else {
                    (Session::AwaitingError { operation: Operation::Convert }, Request::LastError)
                }
            },
            Session::AcquiringInfo { detail, as_json } => match reply {
                Reply::Info(Some(raw)) => {
                    if as_json {
                        (Session::Serializing { subject: Subject::Info }, Request::ToJson {
                            subject: Subject::Info,
                        })
                    } else {
                        let info = FileInfo::from_raw(&raw);
                        let lines = file_info_lines(&info, detail);
                        (Session::Releasing { lines }, Request::Release { subject: Subject::Info })
                    }
                },
                _ => (Session::AwaitingError { operation: Operation::Info }, Request::LastError),
            },
            Session::AcquiringValidation { filename, as_json } => match reply {
                Reply::Validation(Some(raw)) => {
                    if as_json {
                        (Session::Serializing { subject: Subject::Validation }, Request::ToJson {
                            subject: Subject::Validation,
                        })
                    } else {
                        let result = ValidationResult::from_raw(&raw);
                        let lines = validation_lines(&result, filename.as_str());
                        (Session::Releasing { lines }, Request::Release {
                            subject: Subject::Validation,
                        })
                    }
                },
                _ => (
                    Session::AwaitingError { operation: Operation::Validate },
                    Request::LastError,
                ),
            },
            Session::Serializing { subject } => {
                let made = text_from(reply);
                (Session::ReleasingSerialized { subject, made }, Request::Release { subject })
            },
            Session::ReleasingSerialized { subject, made } => match made {
                Some(t) => (Session::ReleasingString { text: t }, Request::ReleaseString),
                None => (
                    Session::Closed,
                    failed(operation_for(subject), "Failed to convert to JSON"),
                ),
            },
            Session::ReleasingString { text } => {
                let lines = one_line(Line::plain(text));
                (Session::Closing, Request::Print { lines })
            },
            Session::Releasing { lines } => (Session::Closing, Request::Print { lines }),
            Session::AskingVersion { package_version } => {
                let engine = text_or_nothing(reply);
                let lines = versions(package_version.as_str(), engine.as_str());
                (Session::Closing, Request::Print { lines })
            },
            Session::AwaitingError { operation } => {
                let detail = text_or_nothing(reply);
                (Session::Closed, failed(operation, detail.as_str()))
            },
            Session::Closing => (Session::Closed, Request::Finish { outcome: Ok(()) }),
            Session::Closed => (
                Session::Closed,
                Request::Finish { outcome: Err(String::from_str("the run is over")) },
            ),
        }
    }
}

} // verus!
