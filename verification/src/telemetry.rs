use vstd::prelude::*;
use vstd::string::StringExecFns;
use vstd::utf8::{decode_utf8, valid_utf8};

use crate::error::PipelineError;

verus! {

/// What a chunk of telemetry bytes decodes to: its text when the bytes are
/// well-formed UTF-8, a decode error otherwise.
pub open spec fn decoded(bytes: Seq<u8>) -> Result<Seq<char>, PipelineError> {
    if valid_utf8(bytes) {
        Ok(decode_utf8(bytes))
    } else {
        Err(PipelineError::DecodeError)
    }
}

/// Trusted: `core::str::from_utf8`. The standard library documents that it
/// succeeds exactly on well-formed UTF-8 and that the string slice it hands
/// back is the same bytes read as text. Nothing here is proved about it.
#[verifier::external_body]
fn utf8_text<'a>(bytes: &'a [u8]) -> (text: Option<&'a str>)
    ensures
        text is Some <==> valid_utf8(bytes@),
        text matches Some(s) ==> s@ == decode_utf8(bytes@),
{
    match core::str::from_utf8(bytes) {
        Ok(s) => Some(s),
        Err(_) => None,
    }
}

/// Decodes one chunk read from the telemetry channel as text.
pub fn decode_chunk(bytes: &[u8]) -> (chunk: Result<String, PipelineError>)
    ensures
        match chunk {
            Ok(text) => decoded(bytes@) == Ok::<Seq<char>, PipelineError>(text@),
            Err(error) => decoded(bytes@) == Err::<Seq<char>, PipelineError>(error),
        },
{
    match utf8_text(bytes) {
        Some(text) => Ok(String::from_str(text)),
        None => Err(PipelineError::DecodeError),
    }
}

} // verus!
