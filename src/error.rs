use vstd::prelude::*;

verus! {

/// What went wrong below the protocol: the HTTP exchange itself.
#[verifier::external_type_specification]
#[verifier::external_body]
pub struct ExReqwestError(reqwest::Error);

/// What the JSON reader reports of text that is not JSON.
#[verifier::external_type_specification]
#[verifier::external_body]
pub struct ExJsonError(serde_json::Error);

/// Why a response body could not be read as a list of events.
#[derive(Debug)]
pub enum DecodeError {
    /// The body is not JSON text.
    Syntax(serde_json::Error),
    /// The body is JSON, but not an object with an `events` array of
    /// `{text, x, y}` records.
    Schema,
}

/// The failure of a call to the emulator.
#[derive(Debug)]
pub enum ApiError {
    /// The HTTP exchange could not be completed.
    Request(reqwest::Error),
    /// The emulator answered with a body that does not decode.
    Decode(DecodeError),
}

} // verus!
