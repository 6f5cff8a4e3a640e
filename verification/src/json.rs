//! Re-rendering JSON text with `serde_json`, and decoding UTF-8.

use vstd::prelude::*;
use vstd::utf8::{decode_utf8, valid_utf8};

use crate::text::owned;

verus! {

#[verifier::external_type_specification]
#[verifier::external_body]
pub struct ExJsonValue(serde_json::Value);

#[verifier::external_type_specification]
#[verifier::external_body]
pub struct ExJsonError(serde_json::Error);

/// Whether `serde_json::from_str::<serde_json::Value>` accepts the text.
pub uninterp spec fn json_text_parses(s: Seq<char>) -> bool;

/// The text that `serde_json::to_string_pretty` gives for the value parsed
/// from `s` (two-space indentation).
pub uninterp spec fn json_pretty_text(s: Seq<char>) -> Seq<char>;

/// The text that `serde_json::to_string` gives for the value parsed from
/// `s` (no whitespace).
pub uninterp spec fn json_compact_text(s: Seq<char>) -> Seq<char>;

/// The message that `serde_json::Error`'s `Display` gives for the error of
/// parsing `s`.
pub uninterp spec fn json_error_message(s: Seq<char>) -> Seq<char>;

/// The rendering of the value parsed from `s`: indented when `pretty`,
/// compact otherwise.
pub open spec fn json_rendering(s: Seq<char>, pretty: bool) -> Seq<char> {
    if pretty {
        json_pretty_text(s)
    } else {
        json_compact_text(s)
    }
}

/// A parsed JSON value, with the text it was parsed from.
struct JsonValue {
    value: serde_json::Value,
    source: Ghost<Seq<char>>,
}

impl View for JsonValue {
    type V = Seq<char>;

    closed spec fn view(&self) -> Seq<char> {
        self.source@
    }
}

/// A JSON parse error, with the text whose parse failed.
struct JsonError {
    error: serde_json::Error,
    source: Ghost<Seq<char>>,
}

impl View for JsonError {
    type V = Seq<char>;

    closed spec fn view(&self) -> Seq<char> {
        self.source@
    }
}

/// `serde_json::from_str::<serde_json::Value>`: parses JSON text. It
/// succeeds exactly on the texts that [`json_text_parses`] names; the value
/// or the error is kept with the text it came from.
#[verifier::external_body]
fn json_from_str(s: &str) -> (r: Result<JsonValue, JsonError>)
    ensures
        r is Ok <==> json_text_parses(s@),
        r matches Ok(v) ==> v@ == s@,
        r matches Err(e) ==> e@ == s@,
{
    match serde_json::from_str::<serde_json::Value>(s) {
        Ok(value) => Ok(JsonValue { value, source: Ghost(s@) }),
        Err(error) => Err(JsonError { error, source: Ghost(s@) }),
    }
}

/// `serde_json::to_string_pretty`: renders a value with indentation. The
/// text is a function of the value, hence of the text it was parsed from.
/// It never fails on a `Value`: its `Serialize` impl fails on nothing, its
/// map keys are strings and the writer is a `Vec`.
#[verifier::external_body]
fn json_to_string_pretty(v: &JsonValue) -> (r: Result<String, serde_json::Error>)
    ensures
        r is Ok,
        r matches Ok(s) ==> s@ == json_pretty_text(v@),
{
    serde_json::to_string_pretty(&v.value)
}

/// `serde_json::to_string`: renders a value compactly. The text is a
/// function of the value, hence of the text it was parsed from. It never
/// fails on a `Value`, for the reasons given for the pretty form.
#[verifier::external_body]
fn json_to_string(v: &JsonValue) -> (r: Result<String, serde_json::Error>)
    ensures
        r is Ok,
        r matches Ok(s) ==> s@ == json_compact_text(v@),
{
    serde_json::to_string(&v.value)
}

/// `<serde_json::Error as Display>::fmt`: the error's message (its kind,
/// line and column), a function of the text whose parse failed.
#[verifier::external_body]
fn json_error_text(e: &JsonError) -> (r: String)
    ensures
        r@ == json_error_message(e@),
{
    format!("{}", e.error)
}

/// `std::str::from_utf8`: the text of valid UTF-8 bytes, `None` for others.
#[verifier::external_body]
pub(crate) fn utf8_decode(b: &[u8]) -> (r: Option<&str>)
    ensures
        r is Some <==> valid_utf8(b@),
        r matches Some(s) ==> s@ == decode_utf8(b@),
{
    std::str::from_utf8(b).ok()
}

/// Re-renders JSON text, indented when `pretty`. `Ok` exactly when the text
/// parses, with the rendering of the parsed value; otherwise the parser's
/// error message.
pub fn reformat_json(text: &str, pretty: bool) -> (r: Result<String, String>)
    ensures
        r is Ok <==> json_text_parses(text@),
        r matches Ok(s) ==> s@ == json_rendering(text@, pretty),
        r matches Err(e) ==> e@ == json_error_message(text@),
{
    match json_from_str(text) {
        Ok(val) => {
            let out = if pretty {
                json_to_string_pretty(&val)
            } else {
                json_to_string(&val)
            };
            match out {
                Ok(s) => Ok(s),
                Err(_) => Ok(owned(text)),
            }
        },
        Err(e) => Err(json_error_text(&e)),
    }
}

} // verus!
