//! Entry points from text to text, for hosts that run the library as a
//! component of a stream: three that rewrite a RUT in one notation each and
//! one that only tells whether a text is a RUT.
//!
//! No failure crosses this boundary as a value: the rewriting entry points
//! hand back its rendering, and the test collapses it into `false`.

use crate::digit::check_digit;
use crate::rut::{format_spec, parse_spec, Format, Rut};
use vstd::prelude::*;
use vstd::string::StrSliceExecFns;
use vstd::utf8::encode_utf8;

verus! {

/// What rewriting the text `input` in the notation `fmt` yields: the text of
/// the RUT that `input` denotes, or the rendering of the failure to read it.
pub open spec fn rewritten(input: Seq<char>, fmt: Format) -> Result<Seq<char>, Seq<char>> {
    match parse_spec(input) {
        Ok(num) => Ok(format_spec(num as nat, check_digit(num as nat), fmt)),
        Err(failure) => Err(failure.message()),
    }
}

/// The views of the two texts that a rewriting hands back.
pub open spec fn outcome(r: Result<String, String>) -> Result<Seq<char>, Seq<char>> {
    match r {
        Ok(text) => Ok(text@),
        Err(text) => Err(text@),
    }
}

/// Reads `input` as a RUT and writes it in the notation `fmt`.
pub fn rewrite(input: &str, fmt: Format) -> (r: Result<String, String>)
    ensures
        outcome(r) == rewritten(input@, fmt),
{
    match Rut::from_str(input) {
        Ok(rut) => Ok(rut.format(fmt)),
        Err(e) => Err(e.to_string()),
    }
}

/// Rewrites the RUT in `input` without dots and dash.
pub fn rut_format_sans(input: String) -> (r: Result<String, String>)
    ensures
        outcome(r) == rewritten(input@, Format::Sans),
{
    rewrite(input.as_str(), Format::Sans)
}

/// Rewrites the RUT in `input` with a dash before the verification digit.
pub fn rut_format_dash(input: String) -> (r: Result<String, String>)
    ensures
        outcome(r) == rewritten(input@, Format::Dash),
{
    rewrite(input.as_str(), Format::Dash)
}

/// Rewrites the RUT in `input` with dots and dash.
pub fn rut_format_dots(input: String) -> (r: Result<String, String>)
    ensures
        outcome(r) == rewritten(input@, Format::Dots),
{
    rewrite(input.as_str(), Format::Dots)
}

/// Tells whether `input` is the text of a RUT. It never fails.
pub fn rut_is_valid(input: String) -> (r: Result<bool, String>)
    ensures
        r matches Ok(valid) && valid == (parse_spec(input@) is Ok),
{
    if Rut::from_str(input.as_str()).is_ok() {
        return Ok(true);
    }
    Ok(false)
}

/// The key of a record as it arrives, turned into the bytes of its text. A
/// record without a key stays without one.
pub fn deserialize_key_impl(input_str: Option<String>) -> (r: Result<Option<Vec<u8>>, String>)
    ensures
        match input_str {
            None => r matches Ok(None),
            Some(text) => r matches Ok(Some(bytes)) && bytes@ == encode_utf8(text@),
        },
{
    let Some(input_str) = input_str else {
        return Ok(None);
    };
    Ok(Some(input_str.as_str().as_bytes_vec()))
}

/// The key of a record as it leaves: the bytes that were given.
pub fn serialize_key_impl(output: Option<Vec<u8>>) -> (r: Result<Option<Vec<u8>>, String>)
    ensures
        r matches Ok(key) && key == output,
{
    let Some(output) = output else {
        return Ok(None);
    };
    Ok(Some(output))
}

} // verus!
