use vstd::prelude::*;

use crate::error::VarError;
use crate::text::{trim_spec, trim_text};

verus! {

/// Declares serde_json's JSON value type so that it can stand in
/// signatures.  The crate never looks inside such a value itself; it only
/// asks the two named questions below about one.
#[verifier::external_type_specification]
#[verifier::external_body]
pub struct ExValue(serde_json::Value);

/// The JSON document the text encodes, when the text is one well-formed
/// JSON document: what `serde_json::from_str::<serde_json::Value>` returns,
/// a function of the text alone.
pub uninterp spec fn json_parse_of(s: Seq<char>) -> Option<serde_json::Value>;

/// Relies on `serde_json::from_str::<serde_json::Value>`: parses the text
/// as a single JSON document; success and result depend on the text alone.
#[verifier::external_body]
fn parse_json(s: &str) -> (r: Option<serde_json::Value>)
    ensures
        r == json_parse_of(s@),
{
    serde_json::from_str::<serde_json::Value>(s).ok()
}

/// What `serde_json::Value::as_i64` answers of a JSON value: the value as
/// a signed 64-bit integer when it is an integer that fits in one, `None`
/// otherwise (also for every non-number and for floating-point numbers).
pub uninterp spec fn as_i64_of(v: serde_json::Value) -> Option<i64>;

/// Relies on `serde_json::Value::as_i64`: `Some` exactly of an integer
/// value representable as `i64`; a function of the value alone.
#[verifier::external_body]
fn value_as_i64(v: &serde_json::Value) -> (r: Option<i64>)
    ensures
        r == as_i64_of(*v),
{
    v.as_i64()
}

/// Whether a decoded value stands for "the variable is absent": the editor
/// prints the integer 0 when the variable is not set, so an integer-zero
/// result is read as absence unless the caller allows zero through.  The
/// convention touches the exact integer 0 only, never other falsy values.
pub open spec fn means_absent(v: serde_json::Value, allow_zero: bool) -> bool {
    !allow_zero && as_i64_of(v) == Some(0i64)
}

/// Decode text that is already free of surrounding whitespace: parse it as
/// one JSON value and apply the zero-means-absent convention.  Text that is
/// not well-formed JSON is reported as malformed, carrying the text itself.
pub fn decode_trimmed(s: &str, allow_zero: bool) -> (r: Result<
    Option<serde_json::Value>,
    VarError,
>)
    ensures
        json_parse_of(s@) is None ==> (r matches Err(VarError::MalformedOutput { text })
            && text@ == s@),
        json_parse_of(s@) matches Some(v) ==> r == (if means_absent(v, allow_zero) {
            Ok::<Option<serde_json::Value>, VarError>(None)
        } else {
            Ok(Some(v))
        }),
{
    match parse_json(s) {
        None => Err(VarError::MalformedOutput { text: s.to_owned() }),
        Some(v) => {
            if !allow_zero {
                let zero = match value_as_i64(&v) {
                    Some(n) => n == 0,
                    None => false,
                };
                if zero {
                    return Ok(None);
                }
            }
            Ok(Some(v))
        },
    }
}

/// Decode captured output text: trim surrounding whitespace, parse the rest
/// as one JSON value, and apply the zero-means-absent convention.
pub fn decode_value(s: &str, allow_zero: bool) -> (r: Result<
    Option<serde_json::Value>,
    VarError,
>)
    ensures
        json_parse_of(trim_spec(s@)) is None ==> (r matches Err(VarError::MalformedOutput {
            text,
        }) && text@ == trim_spec(s@)),
        json_parse_of(trim_spec(s@)) matches Some(v) ==> r == (if means_absent(
            v,
            allow_zero,
        ) {
            Ok::<Option<serde_json::Value>, VarError>(None)
        } else {
            Ok(Some(v))
        }),
{
    let t = trim_text(s);
    decode_trimmed(t.as_str(), allow_zero)
}

} // verus!
