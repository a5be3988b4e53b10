//! Fault injection into recorded upstream rounds, and the audit that an injected fault
//! ends in a failure: no completed round, one error, no credential shown.
//!
//! JSON text is read and printed by `serde_json`. The functions that take a parser or a
//! printer hold for whatever is handed in.

use std::collections::BTreeMap;

use serde_json::value::RawValue;
use serde_json::{from_str, to_string, Number, Value};
use vstd::prelude::*;

use crate::json;
use crate::json::JsonValue;
use crate::parts;
use crate::text;

verus! {

/// The model name that a wrong-model fault puts in place.
pub const WRONG_MODEL: &'static str = "not-the-qualified-snapshot";

/// How many frames a failing stream may have.
pub const MAX_FAILED_FRAMES: usize = 512;

/// The status that a failed round is answered with.
pub const BAD_GATEWAY: u16 = 502;

/// What is wrong with a round.
#[derive(Debug, Clone, Copy, PartialEq, Eq, Structural)]
pub enum Fault {
    MissingModel,
    WrongModel,
    MissingTerminal,
}

/// A recorded upstream response: a document, or server-sent events, or both.
#[derive(Debug, PartialEq, Eq)]
pub struct Response {
    pub body: Option<JsonValue>,
    pub sse: Option<Vec<String>>,
}

/// Why a fault cannot be injected.
#[derive(Debug, Clone, Copy, PartialEq, Eq, Structural)]
pub enum FaultError {
    /// An event is no JSON document.
    MalformedEvent,
    /// What should carry the fault is no object.
    NotAnObject,
}

/// Why a round did not fail as it should.
#[derive(Debug, Clone, Copy, PartialEq, Eq, Structural)]
pub enum AuditFailure {
    /// A blocking round answered with a response.
    Answered,
    /// A blocking round failed with another status than a bad gateway.
    WrongStatus(u16),
    /// A diagnostic shows the credential.
    CredentialShown,
    /// The stream does not end.
    TooManyFrames,
    /// An event is no JSON document.
    MalformedEvent,
    /// The stream completed a response.
    Completed,
    /// The stream ended with this many errors.
    ErrorCount(usize),
}

// ---------------------------------------------------------------------------
// Events
// ---------------------------------------------------------------------------

/// A JSON parser as a function.
pub type Parser = spec_fn(Seq<char>) -> Option<json::Json>;

/// A JSON printer as a function.
pub type Printer = spec_fn(json::Json) -> Seq<char>;

/// Every answer of `parse` is what `parser` says.
pub open spec fn parses<P: Fn(&str) -> Option<JsonValue>>(parse: P, parser: Parser) -> bool {
    forall|data: &str, value: Option<JsonValue>| #[trigger]
        call_ensures(parse, (data,), value) ==> json::opt_json(value) == parser(data@)
}

/// Every answer of `render` is what `printer` says.
pub open spec fn prints<R: Fn(&JsonValue) -> String>(render: R, printer: Printer) -> bool {
    forall|value: &JsonValue, data: String| #[trigger]
        call_ensures(render, (value,), data) ==> data@ == printer(value@)
}

/// The document that `serde_json` reads in a text, if it is one.
pub uninterp spec fn json_of(data: Seq<char>) -> Option<json::Json>;

/// The text that `serde_json` prints for a document.
pub uninterp spec fn json_text(document: json::Json) -> Seq<char>;

/// Reading as `serde_json` does.
pub open spec fn reading() -> Parser {
    |data: Seq<char>| json_of(data)
}

/// Printing as `serde_json` does.
pub open spec fn printing() -> Printer {
    |document: json::Json| json_text(document)
}

/// `serde_json::from_str` for `serde_json::Value`: the document that a text holds, which
/// depends on the text alone, none where it holds no document. A value becomes plain
/// data kind by kind; an array or object has its elements read by the same function,
/// each from its own stretch of the text. Which document belongs to which text is left
/// to `serde_json`.
#[verifier::external_body]
fn parse_document(data: &str) -> (r: Option<JsonValue>)
    ensures
        json::opt_json(r) == json_of(data@),
{
    Some(match from_str(data).ok()? {
        Value::Null => JsonValue::Null,
        Value::Bool(b) => JsonValue::Bool(b),
        Value::Number(number) => JsonValue::Number(number.to_string()),
        Value::String(s) => JsonValue::Text(s),
        Value::Array(_) => JsonValue::Array(from_str::<Vec<&RawValue>>(data).ok()?.into_iter()
            .map(|item| parse_document(item.get())).collect::<Option<_>>()?),
        Value::Object(_) => JsonValue::Object(from_str::<BTreeMap<_, &RawValue>>(data).ok()?.into_iter()
            .map(|(name, member)| Some((name, parse_document(member.get())?))).collect::<Option<_>>()?)
    })
}

/// `serde_json::to_string`: the compact text of a document, which depends on the
/// document alone, with the members of an object in the order of their names. The
/// elements of an array or object are printed by the same function. A number is printed
/// as its text; a text that `serde_json` does not read as a number becomes null. Which
/// text belongs to which document is left to `serde_json`.
#[verifier::external_body]
fn print_document(value: &JsonValue) -> (data: String)
    ensures
        data@ == json_text(value@),
{
    let printed = match value {
        JsonValue::Null => to_string(&()),
        JsonValue::Bool(b) => to_string(b),
        JsonValue::Number(number) => from_str::<Number>(number).map(|_| number.clone()),
        JsonValue::Text(s) => to_string(s),
        JsonValue::Array(items) => to_string(&items.iter()
            .map(|item| RawValue::from_string(print_document(item)).ok()).collect::<Vec<_>>()),
        JsonValue::Object(members) => to_string(&members.iter()
            .map(|(name, member)| (name, RawValue::from_string(print_document(member)).ok()))
            .collect::<BTreeMap<_, _>>()),
    };
    printed.unwrap_or_else(|_| "null".to_owned())
}

/// The data that a line of an event stream carries: nothing without the field name, and
/// nothing where it only marks the end of the stream.
pub open spec fn line_data(line: Seq<char>) -> Option<Seq<char>> {
    match parts::after_prefix(line, "data:"@) {
        Some(data) => if text::trimmed(data) == "[DONE]"@ {
            None
        } else {
            Some(data)
        },
        None => None,
    }
}

/// The data of a list of lines, in order.
pub open spec fn lines_data(lines: Seq<Seq<char>>) -> Seq<Seq<char>>
    decreases lines.len(),
{
    if lines.len() == 0 {
        Seq::empty()
    } else {
        match line_data(lines.last()) {
            Some(data) => lines_data(lines.drop_last()).push(data),
            None => lines_data(lines.drop_last()),
        }
    }
}

/// The data of a stretch of an event stream.
pub open spec fn stream_data(raw: Seq<char>) -> Seq<Seq<char>> {
    lines_data(parts::lines(raw))
}

/// The data of a list of stretches, one after the other.
pub open spec fn all_data(raws: Seq<Seq<char>>) -> Seq<Seq<char>>
    decreases raws.len(),
{
    if raws.len() == 0 {
        Seq::empty()
    } else {
        all_data(raws.drop_last()) + stream_data(raws.last())
    }
}

/// The type that an event declares.
pub open spec fn event_type(event: json::Json) -> Option<Seq<char>> {
    json::held_text(event, "type"@)
}

/// Whether an event declares the type `name`.
fn has_type(event: &JsonValue, name: &str) -> (r: bool)
    ensures
        r == (event_type(event@) == Some(name@)),
{
    match event.get("type") {
        Some(declared) => match declared.as_str() {
            Some(text) => text::same_text(text, name),
            None => false,
        },
        None => false,
    }
}

/// The data that a line carries.
fn data_of_line(line: &str) -> (data: Option<String>)
    ensures
        text::opt_text(data) == line_data(line@),
{
    match parts::strip_prefix(line, "data:") {
        Some(data) => {
            if text::same_text(data.trim(), "[DONE]") {
                None
            } else {
                Some(data.to_owned())
            }
        },
        None => None,
    }
}

/// The data of a stretch of an event stream.
pub fn data_of_stream(raw: &str) -> (list: Vec<String>)
    ensures
        text::texts(list@) == stream_data(raw@),
{
    let lines: Vec<String> = parts::split_lines(raw);
    let mut list: Vec<String> = Vec::new();
    let mut i: usize = 0;
    assert(text::texts(list@) =~= lines_data(text::texts(lines@).take(0)));
    while i < lines.len()
        invariant
            i <= lines.len(),
            text::texts(lines@) == parts::lines(raw@),
            text::texts(list@) == lines_data(text::texts(lines@).take(i as int)),
        decreases lines.len() - i,
    {
        let ghost before = list@;
        proof {
            let taken = text::texts(lines@).take(i + 1);
            assert(taken.drop_last() =~= text::texts(lines@).take(i as int));
            assert(taken.last() == lines@[i as int]@);
        }
        if let Some(data) = data_of_line(lines[i].as_str()) {
            list.push(data);
            assert(text::texts(list@) =~= text::texts(before).push(list@.last()@));
        }
        i = i + 1;
    }
    assert(text::texts(lines@).take(i as int) =~= text::texts(lines@));
    list
}

// ---------------------------------------------------------------------------
// Faults
// ---------------------------------------------------------------------------

/// A response document with the fault in it. A missing document takes a wrong model
/// and nothing else.
pub open spec fn faulted_body(body: json::Json, fault: Fault) -> Result<json::Json, FaultError> {
    match (fault, body) {
        (Fault::MissingModel, json::Json::Object(members)) => Ok(
            json::Json::Object(json::without_member(members, "model"@)),
        ),
        (Fault::WrongModel, json::Json::Object(members)) => Ok(
            json::Json::Object(json::with_member(members, "model"@, json::Json::Text(WRONG_MODEL@))),
        ),
        (Fault::WrongModel, json::Json::Null) => Ok(
            json::Json::Object(seq![("model"@, json::Json::Text(WRONG_MODEL@))]),
        ),
        (Fault::MissingTerminal, json::Json::Object(members)) => Ok(
            json::Json::Object(json::without_member(members, "status"@)),
        ),
        _ => Err(FaultError::NotAnObject),
    }
}

/// An event of a faulty round: none where the fault is that it is missing, and with
/// the fault in the response that it carries, if it carries one.
pub open spec fn faulted_event(event: json::Json, fault: Fault) -> Result<Option<json::Json>, FaultError> {
    if fault is MissingTerminal && event_type(event) == Some("response.completed"@) {
        Ok(None)
    } else {
        match json::held(event, "response"@) {
            None => Ok(Some(event)),
            Some(body) => match faulted_body(body, fault) {
                Ok(faulted) => Ok(
                    Some(
                        json::Json::Object(json::with_member(event->Object_0, "response"@, faulted)),
                    ),
                ),
                Err(error) => Err(error),
            },
        }
    }
}

/// The frame of an event.
pub open spec fn frame(data: Seq<char>) -> Seq<char> {
    "data: "@ + data + "\n\n"@
}

/// The frames of a faulty round: the first event that cannot carry the fault refuses
/// them all.
pub open spec fn faulted_frames(list: Seq<Seq<char>>, fault: Fault, parser: Parser, printer: Printer) -> Result<
    Seq<Seq<char>>,
    FaultError,
>
    decreases list.len(),
{
    if list.len() == 0 {
        Ok(Seq::empty())
    } else {
        match faulted_frames(list.drop_last(), fault, parser, printer) {
            Err(error) => Err(error),
            Ok(frames) => match parser(list.last()) {
                None => Err(FaultError::MalformedEvent),
                Some(event) => match faulted_event(event, fault) {
                    Err(error) => Err(error),
                    Ok(None) => Ok(frames),
                    Ok(Some(faulted)) => Ok(frames.push(frame(printer(faulted)))),
                },
            },
        }
    }
}

/// A recorded response as a value.
pub struct ResponseValues {
    pub body: Option<json::Json>,
    pub sse: Option<Seq<Seq<char>>>,
}

impl View for Response {
    type V = ResponseValues;

    open spec fn view(&self) -> ResponseValues {
        ResponseValues {
            body: json::opt_json(self.body),
            sse: match self.sse {
                Some(raws) => Some(text::texts(raws@)),
                None => None,
            },
        }
    }
}

/// A response with the fault in it: in its document and in every event.
pub open spec fn faulted_response(response: ResponseValues, fault: Fault, parser: Parser, printer: Printer) -> Result<
    ResponseValues,
    FaultError,
> {
    match response.body {
        Some(body) => match faulted_body(body, fault) {
            Err(error) => Err(error),
            Ok(faulted) => faulted_events(Some(faulted), response.sse, fault, parser, printer),
        },
        None => faulted_events(None, response.sse, fault, parser, printer),
    }
}

/// A response whose document is settled, with the fault in its events.
pub open spec fn faulted_events(
    body: Option<json::Json>,
    sse: Option<Seq<Seq<char>>>,
    fault: Fault,
    parser: Parser,
    printer: Printer,
) -> Result<ResponseValues, FaultError> {
    match sse {
        None => Ok(ResponseValues { body, sse: None }),
        Some(raws) => match faulted_frames(all_data(raws), fault, parser, printer) {
            Err(error) => Err(error),
            Ok(frames) => Ok(ResponseValues { body, sse: Some(frames) }),
        },
    }
}

/// Put the fault into a response document.
///
/// # Errors
/// Says so where the document cannot carry the fault.
pub fn inject(body: JsonValue, fault: Fault) -> (r: Result<JsonValue, FaultError>)
    ensures
        (match r {
            Ok(faulted) => Ok(faulted@),
            Err(error) => Err(error),
        }) == faulted_body(body@, fault),
{
    match body {
        JsonValue::Object(members) => {
            let mut members: Vec<(String, JsonValue)> = members;
            match fault {
                Fault::MissingModel => json::remove_member(&mut members, "model"),
                Fault::WrongModel => json::set_member(
                    &mut members,
                    "model",
                    JsonValue::Text(WRONG_MODEL.to_owned()),
                ),
                Fault::MissingTerminal => json::remove_member(&mut members, "status"),
            }
            Ok(JsonValue::Object(members))
        },
        JsonValue::Null => match fault {
            Fault::WrongModel => {
                let mut members: Vec<(String, JsonValue)> = Vec::new();
                json::set_member(&mut members, "model", JsonValue::Text(WRONG_MODEL.to_owned()));
                Ok(JsonValue::Object(members))
            },
            _ => Err(FaultError::NotAnObject),
        },
        _ => Err(FaultError::NotAnObject),
    }
}

/// Put the fault into an event.
///
/// # Errors
/// Says so where the response that the event carries cannot carry the fault.
pub fn inject_event(event: JsonValue, fault: Fault) -> (r: Result<Option<JsonValue>, FaultError>)
    ensures
        (match r {
            Ok(faulted) => Ok(json::opt_json(faulted)),
            Err(error) => Err(error),
        }) == faulted_event(event@, fault),
{
    if matches!(fault, Fault::MissingTerminal) && has_type(&event, "response.completed") {
        return Ok(None);
    }
    match event {
        JsonValue::Object(members) => {
            let mut members: Vec<(String, JsonValue)> = members;
            let ghost before = members@;
            proof {
                json::lemma_json_members(before);
                json::lemma_position(json::json_members(before), "response"@);
            }
            match json::find(&members, "response") {
                Some(i) => {
                    let (name, body) = members.remove(i);
                    let faulted: JsonValue = inject(body, fault)?;
                    members.insert(i, (name, faulted));
                    proof {
                        json::lemma_json_members(members@);
                        assert(json::json_members(members@) =~= json::json_members(before).update(
                            i as int,
                            ("response"@, faulted@),
                        ));
                    }
                    Ok(Some(JsonValue::Object(members)))
                },
                None => Ok(Some(JsonValue::Object(members))),
            }
        },
        other => Ok(Some(other)),
    }
}

/// Put the fault into every event of a list, and frame what is left.
fn inject_events<P, R>(list: &Vec<String>, fault: Fault, parse: &P, render: &R) -> (r: Result<
    Vec<String>,
    FaultError,
>) where P: Fn(&str) -> Option<JsonValue>, R: Fn(&JsonValue) -> String
    requires
        forall|data: &str| call_requires(*parse, (data,)),
        forall|value: &JsonValue| call_requires(*render, (value,)),
    ensures
        forall|parser: Parser, printer: Printer| #[trigger]
            parses(*parse, parser) && #[trigger] prints(*render, printer) ==> (match r {
                Ok(frames) => Ok(text::texts(frames@)),
                Err(error) => Err(error),
            }) == faulted_frames(text::texts(list@), fault, parser, printer),
{
    let ghost data = text::texts(list@);
    let mut frames: Vec<String> = Vec::new();
    let mut i: usize = 0;
    assert(text::texts(frames@) =~= Seq::empty());
    while i < list.len()
        invariant
            i <= list.len(),
            data == text::texts(list@),
            forall|data: &str| call_requires(*parse, (data,)),
            forall|value: &JsonValue| call_requires(*render, (value,)),
            forall|parser: Parser, printer: Printer| #[trigger]
                parses(*parse, parser) && #[trigger] prints(*render, printer) ==> faulted_frames(
                    data.take(i as int),
                    fault,
                    parser,
                    printer,
                ) == Ok::<Seq<Seq<char>>, FaultError>(text::texts(frames@)),
        decreases list.len() - i,
    {
        let ghost before = frames@;
        proof {
            assert(data.take(i + 1).drop_last() =~= data.take(i as int));
            assert(data.take(i + 1).last() == list@[i as int]@);
        }
        let parsed: Option<JsonValue> = parse(list[i].as_str());
        let step: Result<Option<String>, FaultError> = match parsed {
            None => Err(FaultError::MalformedEvent),
            Some(event) => match inject_event(event, fault) {
                Err(error) => Err(error),
                Ok(None) => Ok(None),
                Ok(Some(faulted)) => Ok(Some("data: ".to_owned().concat(render(&faulted).as_str()).concat("\n\n"))),
            },
        };
        assert forall|parser: Parser, printer: Printer| #[trigger]
            parses(*parse, parser) && #[trigger] prints(*render, printer) implies faulted_frames(
            data.take(i + 1),
            fault,
            parser,
            printer,
        ) == (match step {
            Err(error) => Err(error),
            Ok(None) => Ok(text::texts(before)),
            Ok(Some(framed)) => Ok(text::texts(before).push(framed@)),
        }) by {}
        match step {
            Err(error) => {
                proof {
                    assert forall|parser: Parser, printer: Printer| #[trigger]
                        parses(*parse, parser) && #[trigger] prints(*render, printer) implies faulted_frames(
                        data,
                        fault,
                        parser,
                        printer,
                    ) == Err::<Seq<Seq<char>>, FaultError>(error) by {
                        lemma_refusal_stands(data, i + 1, fault, parser, printer);
                    }
                }
                return Err(error);
            },
            Ok(None) => {},
            Ok(Some(framed)) => {
                frames.push(framed);
                assert(text::texts(frames@) =~= text::texts(before).push(framed@));
            },
        }
        i = i + 1;
    }
    assert(data.take(i as int) =~= data);
    Ok(frames)
}

/// An event that cannot carry the fault refuses the round, whatever comes after it.
proof fn lemma_refusal_stands(list: Seq<Seq<char>>, upto: int, fault: Fault, parser: Parser, printer: Printer)
    requires
        0 <= upto <= list.len(),
        faulted_frames(list.take(upto), fault, parser, printer) is Err,
    ensures
        faulted_frames(list, fault, parser, printer) == faulted_frames(list.take(upto), fault, parser, printer),
    decreases list.len() - upto,
{
    if upto < list.len() {
        assert(list.take(upto + 1).drop_last() =~= list.take(upto));
        lemma_refusal_stands(list, upto + 1, fault, parser, printer);
    } else {
        assert(list.take(upto) =~= list);
    }
}

/// Put the fault into a recorded response: into its document, and into every event of
/// its stream, which is framed anew.
///
/// # Errors
/// Says so where an event is no document, or where what should carry the fault cannot.
pub fn fault<P, R>(response: Response, kind: Fault, parse: &P, render: &R) -> (r: Result<Response, FaultError>) where
    P: Fn(&str) -> Option<JsonValue>,
    R: Fn(&JsonValue) -> String,

    requires
        forall|data: &str| call_requires(*parse, (data,)),
        forall|value: &JsonValue| call_requires(*render, (value,)),
    ensures
        forall|parser: Parser, printer: Printer| #[trigger]
            parses(*parse, parser) && #[trigger] prints(*render, printer) ==> (match r {
                Ok(faulted) => Ok(faulted@),
                Err(error) => Err(error),
            }) == faulted_response(response@, kind, parser, printer),
{
    let body: Option<JsonValue> = match response.body {
        Some(body) => Some(inject(body, kind)?),
        None => None,
    };
    let sse: Option<Vec<String>> = match &response.sse {
        Some(raws) => {
            let mut list: Vec<String> = Vec::new();
            let mut i: usize = 0;
            assert(text::texts(list@) =~= all_data(text::texts(raws@).take(0)));
            while i < raws.len()
                invariant
                    i <= raws.len(),
                    text::texts(list@) == all_data(text::texts(raws@).take(i as int)),
                decreases raws.len() - i,
            {
                let ghost before = list@;
                let mut data: Vec<String> = data_of_stream(raws[i].as_str());
                let ghost added = data@;
                list.append(&mut data);
                proof {
                    let taken = text::texts(raws@).take(i + 1);
                    assert(taken.drop_last() =~= text::texts(raws@).take(i as int));
                    assert(taken.last() == raws@[i as int]@);
                    assert(text::texts(list@) =~= text::texts(before) + text::texts(added));
                }
                i = i + 1;
            }
            assert(text::texts(raws@).take(i as int) =~= text::texts(raws@));
            Some(inject_events(&list, kind, parse, render)?)
        },
        None => None,
    };
    Ok(Response { body, sse })
}

/// Put the fault into a recorded response, whose events are JSON text.
///
/// # Errors
/// Says so where an event is no document, or where what should carry the fault cannot.
pub fn faulted(response: Response, kind: Fault) -> (r: Result<Response, FaultError>)
    ensures
        (match r {
            Ok(changed) => Ok(changed@),
            Err(error) => Err(error),
        }) == faulted_response(response@, kind, reading(), printing()),
{
    assert(parses(parse_document, reading()));
    assert(prints(print_document, printing()));
    fault(response, kind, &parse_document, &print_document)
}

// ---------------------------------------------------------------------------
// Audit
// ---------------------------------------------------------------------------

/// How a round with an injected fault came back.
#[derive(Debug, PartialEq, Eq)]
pub enum RoundOutcome {
    /// It failed before any event, with this status and these diagnostics.
    Failed { status: u16, diagnostics: String },
    /// It answered with a whole response.
    Answered,
    /// It answered with a stream of events.
    Streaming,
}

/// What a stream has shown so far.
#[derive(Debug, Clone, Copy, PartialEq, Eq, Structural)]
pub struct FailureAudit {
    pub frames: usize,
    pub errors: usize,
}

/// One error more, as far as can be counted.
pub open spec fn one_more(errors: usize) -> usize {
    if errors < usize::MAX {
        (errors + 1) as usize
    } else {
        errors
    }
}

/// The errors counted once the data of a frame has been read: every event must be a
/// document, none may complete a response, and a frame with an error may not show the
/// credential.
pub open spec fn audited_data(list: Seq<Seq<char>>, shown: bool, errors: usize, parser: Parser) -> Result<
    usize,
    AuditFailure,
>
    decreases list.len(),
{
    if list.len() == 0 {
        Ok(errors)
    } else {
        match audited_data(list.drop_last(), shown, errors, parser) {
            Err(failure) => Err(failure),
            Ok(counted) => match parser(list.last()) {
                None => Err(AuditFailure::MalformedEvent),
                Some(event) => if event_type(event) == Some("response.completed"@) {
                    Err(AuditFailure::Completed)
                } else if event_type(event) == Some("error"@) {
                    if shown {
                        Err(AuditFailure::CredentialShown)
                    } else {
                        Ok(one_more(counted))
                    }
                } else {
                    Ok(counted)
                },
            },
        }
    }
}

/// The audit after one more frame.
pub open spec fn audited_frame(
    audit: FailureAudit,
    raw: Seq<char>,
    credential: Seq<char>,
    parser: Parser,
) -> Result<FailureAudit, AuditFailure> {
    if audit.frames >= MAX_FAILED_FRAMES {
        Err(AuditFailure::TooManyFrames)
    } else {
        match audited_data(stream_data(raw), parts::occurs(raw, credential), audit.errors, parser) {
            Err(failure) => Err(failure),
            Ok(errors) => Ok(FailureAudit { frames: (audit.frames + 1) as usize, errors }),
        }
    }
}

/// The audit after a whole stream.
pub open spec fn audited_stream(frames: Seq<Seq<char>>, credential: Seq<char>, parser: Parser) -> Result<
    FailureAudit,
    AuditFailure,
>
    decreases frames.len(),
{
    if frames.len() == 0 {
        Ok(FailureAudit { frames: 0, errors: 0 })
    } else {
        match audited_stream(frames.drop_last(), credential, parser) {
            Err(failure) => Err(failure),
            Ok(audit) => audited_frame(audit, frames.last(), credential, parser),
        }
    }
}

/// A stream that has ended must have shown exactly one error.
pub open spec fn audited_end(audit: FailureAudit) -> Result<(), AuditFailure> {
    if audit.errors == 1 {
        Ok(())
    } else {
        Err(AuditFailure::ErrorCount(audit.errors))
    }
}

/// What is to be done with a round: nothing more where it failed as it should, and an
/// audit of its events where it streams.
pub open spec fn audited_outcome(outcome: RoundOutcome, credential: Seq<char>) -> Result<
    Option<FailureAudit>,
    AuditFailure,
> {
    match outcome {
        RoundOutcome::Failed { status, diagnostics } => if status != BAD_GATEWAY {
            Err(AuditFailure::WrongStatus(status))
        } else if parts::occurs(diagnostics@, credential) {
            Err(AuditFailure::CredentialShown)
        } else {
            Ok(None)
        },
        RoundOutcome::Answered => Err(AuditFailure::Answered),
        RoundOutcome::Streaming => Ok(Some(FailureAudit { frames: 0, errors: 0 })),
    }
}

/// Hold the outcome of a round with an injected fault to what it should be.
///
/// # Errors
/// Says what is wrong where the round answered, failed with another status or showed
/// the credential.
pub fn audit_outcome(outcome: &RoundOutcome, credential: &str) -> (r: Result<Option<FailureAudit>, AuditFailure>)
    ensures
        r == audited_outcome(*outcome, credential@),
{
    match outcome {
        RoundOutcome::Failed { status, diagnostics } => {
            if *status != BAD_GATEWAY {
                Err(AuditFailure::WrongStatus(*status))
            } else if parts::contains(diagnostics.as_str(), credential) {
                Err(AuditFailure::CredentialShown)
            } else {
                Ok(None)
            }
        },
        RoundOutcome::Answered => Err(AuditFailure::Answered),
        RoundOutcome::Streaming => Ok(Some(FailureAudit { frames: 0, errors: 0 })),
    }
}

impl FailureAudit {
    /// The audit after one more frame.
    ///
    /// # Errors
    /// Says what is wrong where the stream is too long, holds an event that is no
    /// document, completes a response, or shows the credential beside an error.
    pub fn observe<P>(self, raw: &str, credential: &str, parse: &P) -> (r: Result<Self, AuditFailure>) where
        P: Fn(&str) -> Option<JsonValue>,

        requires
            forall|data: &str| call_requires(*parse, (data,)),
        ensures
            forall|parser: Parser| #[trigger]
                parses(*parse, parser) ==> r == audited_frame(self, raw@, credential@, parser),
            self.frames >= MAX_FAILED_FRAMES ==> r == Err::<Self, AuditFailure>(AuditFailure::TooManyFrames),
    {
        if self.frames >= MAX_FAILED_FRAMES {
            return Err(AuditFailure::TooManyFrames);
        }
        let list: Vec<String> = data_of_stream(raw);
        let shown: bool = parts::contains(raw, credential);
        let ghost data = text::texts(list@);
        let mut errors: usize = self.errors;
        let mut i: usize = 0;
        while i < list.len()
            invariant
                i <= list.len(),
                data == text::texts(list@),
                data == stream_data(raw@),
                shown == parts::occurs(raw@, credential@),
                self.frames < MAX_FAILED_FRAMES,
                forall|data: &str| call_requires(*parse, (data,)),
                forall|parser: Parser| #[trigger]
                    parses(*parse, parser) ==> audited_data(data.take(i as int), shown, self.errors, parser) == Ok::<
                        usize,
                        AuditFailure,
                    >(errors),
            decreases list.len() - i,
        {
            proof {
                assert(data.take(i + 1).drop_last() =~= data.take(i as int));
                assert(data.take(i + 1).last() == list@[i as int]@);
            }
            let parsed: Option<JsonValue> = parse(list[i].as_str());
            let step: Result<usize, AuditFailure> = match parsed {
                None => Err(AuditFailure::MalformedEvent),
                Some(event) => {
                    if has_type(&event, "response.completed") {
                        Err(AuditFailure::Completed)
                    } else if has_type(&event, "error") {
                        if shown {
                            Err(AuditFailure::CredentialShown)
                        } else if errors < usize::MAX {
                            Ok(errors + 1)
                        } else {
                            Ok(errors)
                        }
                    } else {
                        Ok(errors)
                    }
                },
            };
            assert forall|parser: Parser| #[trigger] parses(*parse, parser) implies audited_data(
                data.take(i + 1),
                shown,
                self.errors,
                parser,
            ) == step by {}
            match step {
                Ok(counted) => {
                    errors = counted;
                },
                Err(failure) => {
                    proof {
                        assert forall|parser: Parser| #[trigger] parses(*parse, parser) implies audited_data(
                            data,
                            shown,
                            self.errors,
                            parser,
                        ) == Err::<usize, AuditFailure>(failure) by {
                            lemma_failure_stands(data, i + 1, shown, self.errors, parser);
                        }
                    }
                    return Err(failure);
                },
            }
            i = i + 1;
        }
        assert(data.take(i as int) =~= data);
        Ok(FailureAudit { frames: self.frames + 1, errors })
    }

    /// The audit after one more frame, whose events are JSON text.
    ///
    /// # Errors
    /// Says what is wrong where the stream is too long, holds an event that is no
    /// document, completes a response, or shows the credential beside an error.
    pub fn observed(self, raw: &str, credential: &str) -> (r: Result<Self, AuditFailure>)
        ensures
            r == audited_frame(self, raw@, credential@, reading()),
    {
        assert(parses(parse_document, reading()));
        self.observe(raw, credential, &parse_document)
    }

    /// Hold a stream that has ended to exactly one error.
    ///
    /// # Errors
    /// Says how many errors there were instead.
    pub fn finish(self) -> (r: Result<(), AuditFailure>)
        ensures
            r == audited_end(self),
    {
        if self.errors == 1 {
            Ok(())
        } else {
            Err(AuditFailure::ErrorCount(self.errors))
        }
    }
}

/// What fails the audit of a frame fails it whatever comes after.
proof fn lemma_failure_stands(list: Seq<Seq<char>>, upto: int, shown: bool, errors: usize, parser: Parser)
    requires
        0 <= upto <= list.len(),
        audited_data(list.take(upto), shown, errors, parser) is Err,
    ensures
        audited_data(list, shown, errors, parser) == audited_data(list.take(upto), shown, errors, parser),
    decreases list.len() - upto,
{
    if upto < list.len() {
        assert(list.take(upto + 1).drop_last() =~= list.take(upto));
        lemma_failure_stands(list, upto + 1, shown, errors, parser);
    } else {
        assert(list.take(upto) =~= list);
    }
}

// ---------------------------------------------------------------------------
// Laws
// ---------------------------------------------------------------------------

/// The fault is in a faulty document, and nothing else in it has changed: the model is
/// gone or is the wrong one, or the status is gone; every other member is as it was.
pub proof fn law_fault_touches_its_member_alone(
    members: Seq<(Seq<char>, json::Json)>,
    fault: Fault,
    other: Seq<char>,
)
    requires
        json::names_are_distinct(members),
    ensures
        faulted_body(json::Json::Object(members), fault) matches Ok(faulted) && {
            &&& fault is MissingModel ==> json::held(faulted, "model"@) is None
            &&& fault is WrongModel ==> json::held(faulted, "model"@) == Some(json::Json::Text(WRONG_MODEL@))
            &&& fault is MissingTerminal ==> json::held(faulted, "status"@) is None
            &&& other != (if fault is MissingTerminal {
                "status"@
            } else {
                "model"@
            }) ==> json::held(faulted, other) == json::held(json::Json::Object(members), other)
        },
{
    json::law_removed_member_is_gone(members, "model"@, other);
    json::law_removed_member_is_gone(members, "status"@, other);
    json::law_set_member_is_held(members, "model"@, json::Json::Text(WRONG_MODEL@), other);
}

/// A faulty event declares the type that it declared, and carries the faulty response
/// in place of the one that it carried.
pub proof fn law_faulty_event_keeps_its_type(event: json::Json, fault: Fault)
    ensures
        faulted_event(event, fault) matches Ok(Some(faulted)) ==> {
            &&& event_type(faulted) == event_type(event)
            &&& match json::held(event, "response"@) {
                Some(body) => faulted_body(body, fault) matches Ok(changed) && json::held(faulted, "response"@) == Some(
                    changed,
                ),
                None => faulted == event,
            }
        },
{
    reveal_strlit("type");
    reveal_strlit("response");
    assert("type"@.len() != "response"@.len());
    if let json::Json::Object(members) = event {
        if let Some(body) = json::held(event, "response"@) {
            if let Ok(changed) = faulted_body(body, fault) {
                json::law_set_member_is_held(members, "response"@, changed, "type"@);
            }
        }
    }
}

/// A round whose terminal event is missing has no completed event left.
pub proof fn law_missing_terminal_leaves_no_completion(event: json::Json)
    ensures
        faulted_event(event, Fault::MissingTerminal) matches Ok(Some(faulted)) ==> event_type(faulted) != Some(
            "response.completed"@,
        ),
{
    law_faulty_event_keeps_its_type(event, Fault::MissingTerminal);
}

/// The number of error events among the data.
pub open spec fn error_events(list: Seq<Seq<char>>, parser: Parser) -> nat
    decreases list.len(),
{
    if list.len() == 0 {
        0
    } else {
        error_events(list.drop_last(), parser) + match parser(list.last()) {
            Some(event) => if event_type(event) == Some("error"@) {
                1nat
            } else {
                0
            },
            None => 0,
        }
    }
}

/// Every piece of data is a document, and none completes a response.
pub open spec fn all_documents_incomplete(list: Seq<Seq<char>>, parser: Parser) -> bool {
    forall|i: int|
        0 <= i < list.len() ==> (parser(#[trigger] list[i]) matches Some(event) && event_type(event) != Some(
            "response.completed"@,
        ))
}

/// As many as can be counted.
pub open spec fn countable(count: nat) -> usize {
    if count <= usize::MAX {
        count as usize
    } else {
        usize::MAX
    }
}

proof fn lemma_audited_data(list: Seq<Seq<char>>, shown: bool, before: nat, parser: Parser)
    ensures
        audited_data(list, shown, countable(before), parser) is Ok <==> all_documents_incomplete(list, parser) && !(
        shown && error_events(list, parser) > 0),
        audited_data(list, shown, countable(before), parser) matches Ok(errors) ==> errors == countable(
            before + error_events(list, parser),
        ),
    decreases list.len(),
{
    if list.len() > 0 {
        let init = list.drop_last();
        lemma_audited_data(init, shown, before, parser);
        reveal_strlit("error");
        reveal_strlit("response.completed");
        assert("error"@.len() != "response.completed"@.len());
        assert forall|i: int| 0 <= i < init.len() implies #[trigger] init[i] == list[i] by {}
        if all_documents_incomplete(init, parser) && (parser(list.last()) matches Some(event) && event_type(event)
            != Some("response.completed"@)) {
            assert forall|i: int| 0 <= i < list.len() implies (parser(#[trigger] list[i]) matches Some(event)
                && event_type(event) != Some("response.completed"@)) by {
                if i < init.len() {
                    assert(init[i] == list[i]);
                }
            }
        }
        if all_documents_incomplete(list, parser) {
            assert(list[list.len() - 1] == list.last());
            assert(all_documents_incomplete(init, parser));
        }
    }
}

proof fn lemma_joined_data(one: Seq<Seq<char>>, other: Seq<Seq<char>>, parser: Parser)
    ensures
        error_events(one + other, parser) == error_events(one, parser) + error_events(other, parser),
        all_documents_incomplete(one + other, parser) <==> all_documents_incomplete(one, parser)
            && all_documents_incomplete(other, parser),
    decreases other.len(),
{
    if other.len() > 0 {
        assert((one + other).drop_last() =~= one + other.drop_last());
        assert((one + other).last() == other.last());
        lemma_joined_data(one, other.drop_last(), parser);
    } else {
        assert(one + other =~= one);
    }
    assert forall|i: int| 0 <= i < one.len() implies #[trigger] one[i] == (one + other)[i] by {}
    assert forall|i: int| 0 <= i < other.len() implies #[trigger] other[i] == (one + other)[one.len() + i] by {}
    if all_documents_incomplete(one + other, parser) {
        assert(all_documents_incomplete(one, parser));
        assert(all_documents_incomplete(other, parser));
    }
    if all_documents_incomplete(one, parser) && all_documents_incomplete(other, parser) {
        assert forall|i: int| 0 <= i < (one + other).len() implies (parser(#[trigger] (one + other)[i]) matches Some(
            event,
        ) && event_type(event) != Some("response.completed"@)) by {
            if i < one.len() {
                assert((one + other)[i] == one[i]);
            } else {
                assert((one + other)[i] == other[i - one.len()]);
            }
        }
    }
}

/// No frame shows the credential beside an error.
pub open spec fn errors_hide_credential(frames: Seq<Seq<char>>, credential: Seq<char>, parser: Parser) -> bool {
    forall|i: int|
        0 <= i < frames.len() ==> !(error_events(stream_data(#[trigger] frames[i]), parser) > 0 && parts::occurs(
            frames[i],
            credential,
        ))
}

proof fn lemma_audited_stream(frames: Seq<Seq<char>>, credential: Seq<char>, parser: Parser)
    ensures
        audited_stream(frames, credential, parser) is Ok <==> {
            &&& frames.len() <= MAX_FAILED_FRAMES
            &&& all_documents_incomplete(all_data(frames), parser)
            &&& errors_hide_credential(frames, credential, parser)
        },
        audited_stream(frames, credential, parser) matches Ok(audit) ==> audit.frames == frames.len() && audit.errors
            == countable(error_events(all_data(frames), parser)),
    decreases frames.len(),
{
    if frames.len() > 0 {
        let init = frames.drop_last();
        let last = frames.last();
        lemma_audited_stream(init, credential, parser);
        lemma_joined_data(all_data(init), stream_data(last), parser);
        lemma_audited_data(
            stream_data(last),
            parts::occurs(last, credential),
            error_events(all_data(init), parser),
            parser,
        );
        assert forall|i: int| 0 <= i < init.len() implies #[trigger] init[i] == frames[i] by {}
        if errors_hide_credential(frames, credential, parser) {
            assert(frames[frames.len() - 1] == last);
            assert(errors_hide_credential(init, credential, parser));
        }
        if errors_hide_credential(init, credential, parser) && !(error_events(stream_data(last), parser) > 0
            && parts::occurs(last, credential)) {
            assert forall|i: int| 0 <= i < frames.len() implies !(error_events(
                stream_data(#[trigger] frames[i]),
                parser,
            ) > 0 && parts::occurs(frames[i], credential)) by {
                if i < init.len() {
                    assert(init[i] == frames[i]);
                }
            }
        }
    }
}

/// A stream passes the audit if and only if it is short enough, every event is a
/// document, none completes a response, exactly one is an error, and no frame shows the
/// credential beside an error.
pub proof fn law_stream_passes_if_it_fails_properly(
    frames: Seq<Seq<char>>,
    credential: Seq<char>,
    parser: Parser,
)
    ensures
        (audited_stream(frames, credential, parser) matches Ok(audit) && audited_end(audit) is Ok) <==> {
            &&& frames.len() <= MAX_FAILED_FRAMES
            &&& all_documents_incomplete(all_data(frames), parser)
            &&& error_events(all_data(frames), parser) == 1
            &&& errors_hide_credential(frames, credential, parser)
        },
{
    lemma_audited_stream(frames, credential, parser);
}

proof fn lemma_first_line_data(first: Seq<char>, rest: Seq<Seq<char>>)
    ensures
        lines_data(seq![first]) == match line_data(first) {
            Some(data) => seq![data],
            None => Seq::<Seq<char>>::empty(),
        },
        lines_data(seq![first] + rest) == lines_data(seq![first]) + lines_data(rest),
    decreases rest.len(),
{
    assert(seq![first].drop_last() =~= Seq::<Seq<char>>::empty());
    assert(lines_data(Seq::<Seq<char>>::empty()) =~= Seq::<Seq<char>>::empty());
    assert(lines_data(seq![first]) =~= match line_data(first) {
        Some(data) => seq![data],
        None => Seq::<Seq<char>>::empty(),
    });
    if rest.len() > 0 {
        lemma_first_line_data(first, rest.drop_last());
        assert((seq![first] + rest).drop_last() =~= seq![first] + rest.drop_last());
        assert(lines_data(seq![first] + rest) =~= lines_data(seq![first]) + lines_data(rest));
    } else {
        assert(seq![first] + rest =~= seq![first]);
        assert(lines_data(seq![first]) + lines_data(rest) =~= lines_data(seq![first]));
    }
}

/// The data that a line gives: what follows `data:`, unless that is the end marker; a
/// line without the field gives none.
pub open spec fn gives(line: Seq<char>, data: Seq<char>) -> bool {
    line == "data:"@ + data && text::trimmed(data) != "[DONE]"@
}

/// The data of a stream are those of its first line and, behind them, those of the rest:
/// every line that carries data gives it once and in its place, and no other line gives
/// any. A carriage return before the line feed is no part of a line.
pub proof fn law_every_data_line_is_read(
    first: &str,
    rest: &str,
    whole: &str,
    of_first: Vec<String>,
    of_rest: Vec<String>,
    of_whole: Vec<String>,
    data: Seq<char>,
)
    requires
        !first@.contains('\n'),
        whole@ == first@.push('\n') + rest@,
        call_ensures(data_of_stream, (first,), of_first),
        call_ensures(data_of_stream, (rest,), of_rest),
        call_ensures(data_of_stream, (whole,), of_whole),
    ensures
        ({
            let line = if first@.len() > 0 && first@[first@.len() - 1] == '\r' {
                first@.take(first@.len() - 1)
            } else {
                first@
            };
            &&& gives(line, data) ==> text::texts(of_whole@) == seq![data] + text::texts(of_rest@)
            &&& line == "data:"@ + data && text::trimmed(data) == "[DONE]"@ ==> text::texts(of_whole@) == text::texts(
                of_rest@,
            )
            &&& !"data:"@.is_prefix_of(line) ==> text::texts(of_whole@) == text::texts(of_rest@)
        }),
        gives(first@, data) ==> text::texts(of_first@) == seq![data],
        first@ == "data:"@ + data && text::trimmed(data) == "[DONE]"@ ==> of_first@.len() == 0,
        !"data:"@.is_prefix_of(first@) ==> of_first@.len() == 0,
{
    let line = if first@.len() > 0 && first@[first@.len() - 1] == '\r' {
        first@.take(first@.len() - 1)
    } else {
        first@
    };
    parts::law_lines_are_listed(first@, rest@);
    parts::law_prefix_and_rest_are_the_text(line, "data:"@, data);
    parts::law_prefix_and_rest_are_the_text(first@, "data:"@, data);
    lemma_first_line_data(line, parts::lines(rest@));
    lemma_first_line_data(first@, Seq::empty());
    assert(Seq::<Seq<char>>::empty() + text::texts(of_rest@) =~= text::texts(of_rest@));
    assert(text::texts(of_whole@).len() == of_whole@.len());
    assert(text::texts(of_rest@).len() == of_rest@.len());
    assert(text::texts(of_first@).len() == of_first@.len());
    if first@.len() == 0 {
        reveal_strlit("data:");
        assert(first@ != "data:"@ + data);
        assert(parts::lines(first@) == Seq::<Seq<char>>::empty());
        assert(stream_data(first@) =~= Seq::<Seq<char>>::empty());
    } else {
        assert(parts::lines(first@) == seq![first@]);
    }
}

/// The data of several stretches are those of each, one after the other.
pub proof fn law_stretches_are_read_one_by_one(raws: Seq<Seq<char>>, raw: Seq<char>)
    ensures
        all_data(Seq::empty()) == Seq::<Seq<char>>::empty(),
        all_data(raws.push(raw)) == all_data(raws) + stream_data(raw),
{
    assert(raws.push(raw).drop_last() =~= raws);
}

/// The type of an event is the JSON string that it holds under `type`.
pub proof fn law_types_are_declared_strings(event: json::Json, name: Seq<char>)
    ensures
        event_type(event) == Some(name) <==> json::held(event, "type"@) == Some(json::Json::Text(name)),
{
}

/// A fault goes into a document: the model is gone, or is the wrong one and holds its old
/// place, or the status is gone. Nothing but an object carries a fault, but for a missing
/// document, which a wrong model makes one of its own.
pub proof fn law_documents_carry_their_fault(body: JsonValue, kind: Fault, r: Result<JsonValue, FaultError>)
    requires
        call_ensures(inject, (body, kind), r),
    ensures
        r matches Ok(faulted) ==> match body@ {
            json::Json::Object(members) => faulted@ == json::Json::Object(
                match kind {
                    Fault::MissingModel => json::without_member(members, "model"@),
                    Fault::WrongModel => json::with_member(
                        members,
                        "model"@,
                        json::Json::Text("not-the-qualified-snapshot"@),
                    ),
                    Fault::MissingTerminal => json::without_member(members, "status"@),
                },
            ),
            json::Json::Null => kind is WrongModel && faulted@ == json::Json::Object(
                seq![("model"@, json::Json::Text("not-the-qualified-snapshot"@))],
            ),
            _ => false,
        },
        r is Ok <==> body@ is Object || (body@ is Null && kind is WrongModel),
        r matches Err(error) ==> error is NotAnObject,
{
}

/// An event is left out exactly where its completion is what is missing; an event without
/// a response stays as it is, and one with a response keeps everything but that, which
/// carries the fault, or refuses it.
pub proof fn law_events_carry_their_fault(
    event: JsonValue,
    kind: Fault,
    r: Result<Option<JsonValue>, FaultError>,
    body: JsonValue,
    injected: Result<JsonValue, FaultError>,
    other: Seq<char>,
)
    requires
        call_ensures(inject_event, (event, kind), r),
        call_ensures(inject, (body, kind), injected),
    ensures
        ({
            let dropped = kind is MissingTerminal && json::held(event@, "type"@) == Some(
                json::Json::Text("response.completed"@),
            );
            &&& r == Ok::<Option<JsonValue>, FaultError>(None) <==> dropped
            &&& !dropped && json::held(event@, "response"@) is None ==> (r matches Ok(Some(kept)) && kept@ == event@)
            &&& !dropped && json::held(event@, "response"@) == Some(body@) ==> match injected {
                Ok(changed) => r matches Ok(Some(kept)) && {
                    &&& json::held(kept@, "response"@) == Some(changed@)
                    &&& other != "response"@ ==> json::held(kept@, other) == json::held(event@, other)
                },
                Err(error) => r == Err::<Option<JsonValue>, FaultError>(error),
            }
        }),
{
    if let json::Json::Object(members) = event@ {
        if let Ok(changed) = injected {
            json::law_set_member_is_held(members, "response"@, changed@, other);
        }
    }
}

/// The frames of a faulty round, event by event: a further event that is no document or
/// cannot carry the fault refuses the round, one that is left out adds nothing, and any
/// other adds one frame with its text behind `data: ` and an empty line behind that. A
/// round that is refused stays refused.
pub proof fn law_every_event_is_framed(
    list: Seq<Seq<char>>,
    data: Seq<char>,
    fault: Fault,
    parser: Parser,
    printer: Printer,
)
    ensures
        faulted_frames(Seq::empty(), fault, parser, printer) == Ok::<Seq<Seq<char>>, FaultError>(Seq::empty()),
        match faulted_frames(list, fault, parser, printer) {
            Err(error) => faulted_frames(list.push(data), fault, parser, printer) == Err::<Seq<Seq<char>>, FaultError>(
                error,
            ),
            Ok(frames) => faulted_frames(list.push(data), fault, parser, printer) == match parser(data) {
                None => Err::<Seq<Seq<char>>, FaultError>(FaultError::MalformedEvent),
                Some(event) => match faulted_event(event, fault) {
                    Err(error) => Err(error),
                    Ok(None) => Ok(frames),
                    Ok(Some(changed)) => Ok(frames.push("data: "@ + printer(changed) + "\n\n"@)),
                },
            },
        },
{
    assert(list.push(data).drop_last() =~= list);
}

/// A recorded response carries its fault in both parts: its document, if it has one,
/// carries it, its events, if it has any, are framed anew with it, and a part that it
/// does not have it does not get. The document is looked at first.
pub proof fn law_responses_carry_their_fault(response: Response, kind: Fault, r: Result<Response, FaultError>)
    requires
        call_ensures(faulted, (response, kind), r),
    ensures
        r matches Ok(changed) ==> {
            &&& match response.body {
                Some(body) => changed.body matches Some(faulty) && faulted_body(body@, kind) == Ok::<
                    json::Json,
                    FaultError,
                >(faulty@),
                None => changed.body is None,
            }
            &&& match response.sse {
                Some(raws) => changed.sse matches Some(frames) && faulted_frames(
                    all_data(text::texts(raws@)),
                    kind,
                    |data: Seq<char>| json_of(data),
                    |document: json::Json| json_text(document),
                ) == Ok::<Seq<Seq<char>>, FaultError>(text::texts(frames@)),
                None => changed.sse is None,
            }
        },
        r matches Err(error) ==> {
            ||| response.body matches Some(body) && faulted_body(body@, kind) == Err::<json::Json, FaultError>(error)
            ||| response.sse matches Some(raws) && faulted_frames(
                all_data(text::texts(raws@)),
                kind,
                |data: Seq<char>| json_of(data),
                |document: json::Json| json_text(document),
            ) == Err::<Seq<Seq<char>>, FaultError>(error)
        },
        response.body matches Some(body) ==> (faulted_body(body@, kind) matches Err(error) ==> r == Err::<
            Response,
            FaultError,
        >(error)),
{
    assert(reading() =~= |data: Seq<char>| json_of(data));
    assert(printing() =~= |document: json::Json| json_text(document));
}

/// With a parser and a printer handed in, a response carries its fault as with
/// `serde_json`, by what those two say.
pub proof fn law_responses_carry_their_fault_by_any_parser<
    P: Fn(&str) -> Option<JsonValue>,
    R: Fn(&JsonValue) -> String,
>(
    response: Response,
    kind: Fault,
    parse: P,
    parser: Parser,
    render: R,
    printer: Printer,
    r: Result<Response, FaultError>,
)
    requires
        forall|data: &str, value: Option<JsonValue>| #[trigger]
            call_ensures(parse, (data,), value) ==> match value {
                Some(document) => parser(data@) == Some(document@),
                None => parser(data@) is None,
            },
        forall|value: &JsonValue, data: String| #[trigger]
            call_ensures(render, (value,), data) ==> data@ == printer(value@),
        call_ensures(fault::<P, R>, (response, kind, &parse, &render), r),
    ensures
        r matches Ok(changed) ==> {
            &&& match response.body {
                Some(body) => changed.body matches Some(faulty) && faulted_body(body@, kind) == Ok::<
                    json::Json,
                    FaultError,
                >(faulty@),
                None => changed.body is None,
            }
            &&& match response.sse {
                Some(raws) => changed.sse matches Some(frames) && faulted_frames(
                    all_data(text::texts(raws@)),
                    kind,
                    parser,
                    printer,
                ) == Ok::<Seq<Seq<char>>, FaultError>(text::texts(frames@)),
                None => changed.sse is None,
            }
        },
        response.body matches Some(body) ==> (faulted_body(body@, kind) matches Err(error) ==> r == Err::<
            Response,
            FaultError,
        >(error)),
{
    assert(parses(parse, parser));
    assert(prints(render, printer));
    let args = seq![(response, kind, &parse, &render)][0];
    assert(args.2 == &parse && args.3 == &render);
}

/// The outcome of a round with a fault: it passes at once exactly where it failed as a
/// bad gateway without showing the credential, goes on where it streams, with nothing
/// counted yet, and fails the audit for each other reason under its own name.
pub proof fn law_only_failed_rounds_pass(
    outcome: RoundOutcome,
    credential: &str,
    r: Result<Option<FailureAudit>, AuditFailure>,
)
    requires
        call_ensures(audit_outcome, (&outcome, credential), r),
    ensures
        match outcome {
            RoundOutcome::Answered => r == Err::<Option<FailureAudit>, AuditFailure>(AuditFailure::Answered),
            RoundOutcome::Streaming => r == Ok::<Option<FailureAudit>, AuditFailure>(
                Some(FailureAudit { frames: 0, errors: 0 }),
            ),
            RoundOutcome::Failed { status, diagnostics } => {
                &&& status != 502 ==> r == Err::<Option<FailureAudit>, AuditFailure>(AuditFailure::WrongStatus(status))
                &&& status == 502 && parts::occurs(diagnostics@, credential@) ==> r == Err::<
                    Option<FailureAudit>,
                    AuditFailure,
                >(AuditFailure::CredentialShown)
                &&& status == 502 && !parts::occurs(diagnostics@, credential@) ==> r == Ok::<
                    Option<FailureAudit>,
                    AuditFailure,
                >(None)
            },
        },
{
}

/// One more frame of a failing stream: it is counted, and so is every error event in it,
/// where there is room for it, each of its events is a document, none completes a
/// response, and no error stands beside the credential; otherwise the audit fails.
pub proof fn law_observed_frames_are_counted(
    audit: FailureAudit,
    raw: &str,
    credential: &str,
    r: Result<FailureAudit, AuditFailure>,
)
    requires
        call_ensures(FailureAudit::observed, (audit, raw, credential), r),
    ensures
        ({
            let parser = |data: Seq<char>| json_of(data);
            let data = stream_data(raw@);
            &&& audit.frames >= 512 ==> r == Err::<FailureAudit, AuditFailure>(AuditFailure::TooManyFrames)
            &&& r is Ok <==> audit.frames < 512 && all_documents_incomplete(data, parser) && !(error_events(data, parser)
                > 0 && parts::occurs(raw@, credential@))
            &&& r matches Ok(after) ==> after.frames == audit.frames + 1 && after.errors == countable(
                audit.errors as nat + error_events(data, parser),
            )
        }),
{
    assert(reading() =~= |data: Seq<char>| json_of(data));
    lemma_audited_data(
        stream_data(raw@),
        parts::occurs(raw@, credential@),
        audit.errors as nat,
        reading(),
    );
}

/// The first event that fails the audit of a frame says why: that it is no document, that
/// it completes a response, or that an error stands beside the credential.
pub proof fn law_first_failing_event_counts(
    list: Seq<Seq<char>>,
    data: Seq<char>,
    shown: bool,
    errors: usize,
    parser: Parser,
)
    requires
        audited_data(list, shown, errors, parser) is Ok,
    ensures
        ({
            let after = audited_data(list.push(data), shown, errors, parser);
            &&& parser(data) is None ==> after == Err::<usize, AuditFailure>(AuditFailure::MalformedEvent)
            &&& parser(data) matches Some(event) ==> {
                let declared = json::held(event, "type"@);
                &&& declared == Some(json::Json::Text("response.completed"@)) ==> after == Err::<usize, AuditFailure>(
                    AuditFailure::Completed,
                )
                &&& declared == Some(json::Json::Text("error"@)) && shown ==> after == Err::<usize, AuditFailure>(
                    AuditFailure::CredentialShown,
                )
            }
        }),
{
    assert(list.push(data).drop_last() =~= list);
    reveal_strlit("error");
    reveal_strlit("response.completed");
    assert("error"@.len() != "response.completed"@.len());
}

/// The frames of a stream are audited one after the other, from nothing, and what failed
/// stays failed.
pub proof fn law_frames_are_audited_one_by_one(
    frames: Seq<Seq<char>>,
    raw: &str,
    credential: &str,
    audit: FailureAudit,
    r: Result<FailureAudit, AuditFailure>,
)
    requires
        call_ensures(FailureAudit::observed, (audit, raw, credential), r),
    ensures
        audited_stream(Seq::empty(), credential@, reading()) == Ok::<FailureAudit, AuditFailure>(
            FailureAudit { frames: 0, errors: 0 },
        ),
        audited_stream(frames, credential@, reading()) == Ok::<FailureAudit, AuditFailure>(audit) ==> audited_stream(
            frames.push(raw@),
            credential@,
            reading(),
        ) == r,
        audited_stream(frames, credential@, reading()) matches Err(failure) ==> audited_stream(
            frames.push(raw@),
            credential@,
            reading(),
        ) == Err::<FailureAudit, AuditFailure>(failure),
{
    assert(frames.push(raw@).drop_last() =~= frames);
}

/// A stream that has ended passes exactly where it showed one error, and fails with the
/// number that it showed otherwise.
pub proof fn law_ended_streams_show_one_error(audit: FailureAudit, r: Result<(), AuditFailure>)
    requires
        call_ensures(FailureAudit::finish, (audit,), r),
    ensures
        r is Ok <==> audit.errors == 1,
        r matches Err(failure) ==> failure == AuditFailure::ErrorCount(audit.errors),
{
}

/// With a parser handed in, a frame is audited by what it says of the events.
pub proof fn law_observed_frames_are_counted_by_any_parser<P: Fn(&str) -> Option<JsonValue>>(
    audit: FailureAudit,
    raw: &str,
    credential: &str,
    parse: P,
    parser: Parser,
    r: Result<FailureAudit, AuditFailure>,
)
    requires
        forall|data: &str, value: Option<JsonValue>| #[trigger]
            call_ensures(parse, (data,), value) ==> match value {
                Some(document) => parser(data@) == Some(document@),
                None => parser(data@) is None,
            },
        call_ensures(FailureAudit::observe::<P>, (audit, raw, credential, &parse), r),
    ensures
        ({
            let data = stream_data(raw@);
            &&& r is Ok <==> audit.frames < 512 && all_documents_incomplete(data, parser) && !(error_events(data, parser)
                > 0 && parts::occurs(raw@, credential@))
            &&& r matches Ok(after) ==> after.frames == audit.frames + 1 && after.errors == countable(
                audit.errors as nat + error_events(data, parser),
            )
        }),
{
    assert(parses(parse, parser));
    let args = seq![(audit, raw, credential, &parse)][0];
    assert(args.3 == &parse);
    lemma_audited_data(stream_data(raw@), parts::occurs(raw@, credential@), audit.errors as nat, parser);
}

} // verus!
