use vstd::prelude::*;
use vstd::string::StrSliceExecFns;

verus! {

use crate::reading::Frame;

/// Longest prefix of a discarded string payload that is logged.
pub const PREVIEW_LEN: usize = 200;

/// The shape of a text payload, as far as routing distinguishes it.
pub enum JsonShape {
    /// An object-shaped value.
    Object,
    /// An array-shaped value.
    Array,
    /// A string scalar, with its characters.
    Str(Seq<char>),
    /// Some other scalar: a number, a boolean or null.
    OtherScalar,
    /// Not parseable as structured text.
    Malformed,
}

/// The shape serde_json parses the text `s` to, or `Malformed` when it
/// does not parse; a function of the text alone.
pub uninterp spec fn json_class_of(s: Seq<char>) -> JsonShape;

/// A parsed inbound text payload, reduced to what routing reads of it.
#[derive(Debug, Clone, PartialEq, Eq)]
pub enum ParsedPayload {
    /// An object-shaped value.
    Object,
    /// An array-shaped value.
    Array,
    /// A string scalar, with its contents.
    Str(String),
    /// Some other scalar: a number, a boolean or null.
    OtherScalar,
    /// Not parseable as structured text.
    Malformed,
}

impl View for ParsedPayload {
    type V = JsonShape;

    open spec fn view(&self) -> JsonShape {
        match self {
            ParsedPayload::Object => JsonShape::Object,
            ParsedPayload::Array => JsonShape::Array,
            ParsedPayload::Str(s) => JsonShape::Str(s@),
            ParsedPayload::OtherScalar => JsonShape::OtherScalar,
            ParsedPayload::Malformed => JsonShape::Malformed,
        }
    }
}

/// Relies on serde_json::from_str::<Value>: whether and to what shape a
/// text parses is a function of the text alone; the parsed value's
/// variant is handed over one for one.
#[verifier::external_body]
fn parse_payload(text: &str) -> (p: ParsedPayload)
    ensures
        p@ == json_class_of(text@),
{
    match serde_json::from_str::<serde_json::Value>(text) {
        Ok(serde_json::Value::Object(_)) => ParsedPayload::Object,
        Ok(serde_json::Value::Array(_)) => ParsedPayload::Array,
        Ok(serde_json::Value::String(s)) => ParsedPayload::Str(s),
        Ok(serde_json::Value::Null) => ParsedPayload::OtherScalar,
        Ok(serde_json::Value::Bool(_)) => ParsedPayload::OtherScalar,
        Ok(serde_json::Value::Number(_)) => ParsedPayload::OtherScalar,
        Err(_) => ParsedPayload::Malformed,
    }
}

/// What is logged of a string payload: all of it when short, otherwise
/// its first `PREVIEW_LEN` characters.
pub open spec fn preview_spec(s: Seq<char>) -> Seq<char> {
    if s.len() <= PREVIEW_LEN {
        s
    } else {
        s.take(PREVIEW_LEN as int)
    }
}

/// The logged preview of a string payload.
pub fn preview(s: &String) -> (r: String)
    ensures
        r@ == preview_spec(s@),
{
    let n = s.as_str().unicode_len();
    if n <= PREVIEW_LEN {
        s.clone()
    } else {
        let head = s.as_str().substring_char(0, PREVIEW_LEN);
        proof {
            assert(head@ =~= s@.take(PREVIEW_LEN as int));
        }
        head.to_owned()
    }
}

/// Where one inbound frame is routed.
#[derive(Debug, Clone, PartialEq, Eq)]
pub enum Route {
    /// An object-shaped payload: single-event processing, selected by the
    /// feed's type tag.
    Single,
    /// An array-shaped payload: batch processing, handed the full feed
    /// descriptor because a batch may mix symbols.
    Batch,
    /// A string scalar: logged at preview length, then discarded without
    /// dispatch.
    LogPreview(String),
    /// Discarded without dispatch: a non-text frame, a malformed text
    /// payload, or a non-string scalar.
    Discard,
}

/// Exactly how a frame and its route correspond.
pub open spec fn routes_to(f: Frame, r: Route) -> bool {
    match f {
        Frame::Text(t) => match json_class_of(t@) {
            JsonShape::Object => r == Route::Single,
            JsonShape::Array => r == Route::Batch,
            JsonShape::Str(s) => r matches Route::LogPreview(p) && p@ == preview_spec(s),
            JsonShape::OtherScalar => r == Route::Discard,
            JsonShape::Malformed => r == Route::Discard,
        },
        _ => r == Route::Discard,
    }
}

/// Classifies one frame. Only text frames are parsed; every other frame
/// is discarded without being handed to any processor, and a parse
/// failure is likewise absorbed here — logged, never failing the loop.
pub fn classify_frame(f: &Frame) -> (r: Route)
    ensures
        routes_to(*f, r),
{
    match f {
        Frame::Text(t) => match parse_payload(t.as_str()) {
            ParsedPayload::Object => Route::Single,
            ParsedPayload::Array => Route::Batch,
            ParsedPayload::Str(s) => Route::LogPreview(preview(&s)),
            ParsedPayload::OtherScalar => Route::Discard,
            ParsedPayload::Malformed => Route::Discard,
        },
        _ => Route::Discard,
    }
}

} // verus!
