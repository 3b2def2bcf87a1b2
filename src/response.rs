//! A response of the daemon, read in full, and the checks made on it.
use vstd::prelude::*;
use vstd::utf8::*;
use crate::error::ClientError;

verus! {

/// Whether a status code is in the 2xx range.
pub open spec fn is_success_status(status: u16) -> bool {
    200 <= status && status < 300
}

/// The number of items of the JSON array that the bytes hold, or `None`
/// where they are not a JSON array.
pub uninterp spec fn json_array_len_of(b: Seq<u8>) -> Option<nat>;

/// Relies on `serde_json::from_slice` into a sequence of ignored values: it
/// succeeds exactly on a JSON array, whose items it counts. An empty body,
/// or one that opens with `{` (an object), is not an array.
#[verifier::external_body]
fn json_array_len(b: &[u8]) -> (r: Option<usize>)
    ensures
        r is Some == json_array_len_of(b@) is Some,
        r is Some ==> r->Some_0 as nat == json_array_len_of(b@)->Some_0,
        b@.len() == 0 ==> r is None,
        b@.len() > 0 && b@[0] == 0x7bu8 ==> r is None,
{
    serde_json::from_slice::<Vec<serde::de::IgnoredAny>>(b).ok().map(|v| v.len())
}

/// Relies on `String::from_utf8`: it succeeds exactly on valid UTF-8, and
/// then holds the decoded characters.
#[verifier::external_body]
fn utf8_string(b: Vec<u8>) -> (r: Option<String>)
    ensures
        r is Some == valid_utf8(b@),
        r is Some ==> r->Some_0@ == decode_utf8(b@),
{
    String::from_utf8(b).ok()
}

/// A status code and the whole body that came with it.
#[derive(Clone, Debug)]
pub struct DockerResponse {
    pub status: u16,
    pub body: Vec<u8>,
}

impl DockerResponse {
    pub fn new(status: u16, body: Vec<u8>) -> (r: Self)
        ensures
            r.status == status,
            r.body@ == body@,
    {
        DockerResponse { status, body }
    }

    pub fn is_success(&self) -> (r: bool)
        ensures
            r == is_success_status(self.status),
    {
        200 <= self.status && self.status < 300
    }

    /// Fails with the status itself where it is not in the 2xx range.
    pub fn check_status(&self) -> (r: Result<(), ClientError>)
        ensures
            r is Ok <==> is_success_status(self.status),
            r is Err ==> r == Err::<(), ClientError>(ClientError::HttpStatus(self.status)),
    {
        if self.is_success() {
            Ok(())
        } else {
            Err(ClientError::HttpStatus(self.status))
        }
    }

    /// The body as text; fails with `Decode` where it is not valid UTF-8.
    pub fn into_text(self) -> (r: Result<String, ClientError>)
        ensures
            r is Ok <==> valid_utf8(self.body@),
            r is Ok ==> r->Ok_0@ == decode_utf8(self.body@),
            r is Err ==> r == Err::<String, ClientError>(ClientError::Decode),
    {
        match utf8_string(self.body) {
            Some(s) => Ok(s),
            None => Err(ClientError::Decode),
        }
    }

    /// The number of records of a body that must hold a JSON array; fails
    /// with `Decode` where it holds anything else. An empty array is a
    /// success with no records; a JSON object fails, and never passes as an
    /// empty list.
    pub fn list_len(&self) -> (r: Result<usize, ClientError>)
        ensures
            r is Ok <==> json_array_len_of(self.body@) is Some,
            r is Ok ==> r->Ok_0 as nat == json_array_len_of(self.body@)->Some_0,
            r is Err ==> r == Err::<usize, ClientError>(ClientError::Decode),
            self.body@.len() > 0 && self.body@[0] == 0x7bu8 ==> r == Err::<usize, ClientError>(
                ClientError::Decode,
            ),
    {
        match json_array_len(self.body.as_slice()) {
            Some(n) => Ok(n),
            None => Err(ClientError::Decode),
        }
    }
}

} // verus!
