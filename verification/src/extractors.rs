//! Body extraction: the fully-read request body as owned bytes, and its
//! conversions. Reading the body off the connection is the embedding
//! application's task; the conversions are decided here.

use vstd::prelude::*;

use crate::error::HttpError;
use vstd::utf8::decode_utf8;
use vstd::utf8::valid_utf8;

verus! {

/// A request body read to its end and owned.
#[derive(Debug)]
pub struct BodyOwned {
    pub bytes: Vec<u8>,
}

impl View for BodyOwned {
    type V = Seq<u8>;

    open spec fn view(&self) -> Seq<u8> {
        self.bytes@
    }
}

/// Relies on String::from_utf8: it succeeds exactly on valid UTF-8,
/// decoding those bytes; on failure the error's text is handed back.
#[verifier::external_body]
fn string_from_utf8(bytes: Vec<u8>) -> (r: Result<String, String>)
    ensures
        valid_utf8(bytes@) ==> r is Ok && r->Ok_0@ == decode_utf8(bytes@),
        !valid_utf8(bytes@) ==> r is Err,
{
    String::from_utf8(bytes).map_err(|e| e.to_string())
}

/// What a `bytes::Bytes` buffer holds.
#[verifier::external_type_specification]
#[verifier::external_body]
pub struct ExBytes(bytes::Bytes);

pub uninterp spec fn bytes_content(b: bytes::Bytes) -> Seq<u8>;

/// Relies on Bytes::from for Vec<u8>: the buffer holds exactly the
/// vector's bytes.
#[verifier::external_body]
fn vec_into_bytes(v: Vec<u8>) -> (r: bytes::Bytes)
    ensures
        bytes_content(r) == v@,
{
    bytes::Bytes::from(v)
}

impl BodyOwned {
    /// Owns a fully-read body.
    pub fn new(bytes: Vec<u8>) -> (r: BodyOwned)
        ensures
            r@ == bytes@,
    {
        BodyOwned { bytes }
    }

    /// Owns a fully-read body, refusing an empty one with a status-500
    /// error — the connection engine hands an empty buffer for bodyless
    /// requests.
    pub fn from_payload(bytes: Vec<u8>) -> (r: Result<BodyOwned, HttpError>)
        ensures
            bytes@.len() == 0 ==> r is Err && r->Err_0.status == 500 && r->Err_0.message@
                == "found empty body"@,
            bytes@.len() > 0 ==> r is Ok && r->Ok_0@ == bytes@,
    {
        if bytes.len() == 0 {
            Err(HttpError::new("found empty body", 500))
        } else {
            Ok(BodyOwned { bytes })
        }
    }

    /// The body as text: the UTF-8 decoding of its bytes, or a status-400
    /// error when they are not valid UTF-8.
    pub fn text(self) -> (r: Result<String, HttpError>)
        ensures
            valid_utf8(self@) ==> r is Ok && r->Ok_0@ == decode_utf8(self@),
            !valid_utf8(self@) ==> r is Err && r->Err_0.status == 400,
    {
        match string_from_utf8(self.bytes) {
            Ok(s) => Ok(s),
            Err(m) => Err(HttpError { message: m, status: 400 }),
        }
    }

    /// The body as a shared byte buffer.
    pub fn bytes(self) -> (r: bytes::Bytes)
        ensures
            bytes_content(r) == self@,
    {
        vec_into_bytes(self.bytes)
    }
}

} // verus!
