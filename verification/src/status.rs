//! Status codes and the errors that carry them.

use vstd::prelude::*;

verus! {

/// The operation succeeded.
pub const GOOD: u32 = 0x0000_0000;

/// An unexpected error occurred.
pub const BAD_UNEXPECTED_ERROR: u32 = 0x8001_0000;

/// A low level communication error occurred.
pub const BAD_COMMUNICATION_ERROR: u32 = 0x8005_0000;

/// Decoding halted because of invalid data in the stream.
pub const BAD_DECODING_ERROR: u32 = 0x8007_0000;

/// The encoding or decoding limits imposed by the stack have been exceeded.
pub const BAD_ENCODING_LIMITS_EXCEEDED: u32 = 0x8008_0000;

/// The operation timed out.
pub const BAD_TIMEOUT: u32 = 0x800A_0000;

/// The secure channel id is not valid.
pub const BAD_SECURE_CHANNEL_ID_INVALID: u32 = 0x8022_0000;

/// The session id is not valid.
pub const BAD_SESSION_ID_INVALID: u32 = 0x8025_0000;

/// The session was closed by the client.
pub const BAD_SESSION_CLOSED: u32 = 0x8026_0000;

/// The server has reached the maximum number of queued publish requests.
pub const BAD_TOO_MANY_PUBLISH_REQUESTS: u32 = 0x8078_0000;

/// There is no subscription available for this session.
pub const BAD_NO_SUBSCRIPTION: u32 = 0x8079_0000;

/// The endpoint URL is not valid.
pub const BAD_TCP_ENDPOINT_URL_INVALID: u32 = 0x8083_0000;

/// The sequence number is not valid.
pub const BAD_SEQUENCE_NUMBER_INVALID: u32 = 0x8088_0000;

/// One or more arguments are invalid.
pub const BAD_INVALID_ARGUMENT: u32 = 0x80AB_0000;

/// The network connection has been closed.
pub const BAD_CONNECTION_CLOSED: u32 = 0x80AE_0000;

/// The first value whose severity, held in the two highest bits, is no longer good.
pub const FIRST_NOT_GOOD: u32 = 0x4000_0000;

/// An OPC UA status code, by its 32 bits.
#[derive(Clone, Copy, Debug, PartialEq, Eq, Structural)]
pub struct StatusCode(pub u32);

impl StatusCode {
    /// Whether the severity is good.
    pub open spec fn good(self) -> bool {
        self.0 < FIRST_NOT_GOOD
    }

    /// Return `true` if the severity is good.
    pub fn is_good(&self) -> (res: bool)
        ensures
            res == self.good(),
    {
        self.0 < FIRST_NOT_GOOD
    }
}

/// An error with the status code that stands for it and, where they are known, the request
/// id and request handle of the request that it belongs to.
#[derive(Clone, Copy, Debug, PartialEq, Eq, Structural)]
pub struct Error {
    pub status: StatusCode,
    pub request_id: Option<u32>,
    pub request_handle: Option<u32>,
}

impl Error {
    /// The request id and request handle, if both are known.
    pub open spec fn context(self) -> Option<(u32, u32)> {
        match (self.request_id, self.request_handle) {
            (Some(id), Some(handle)) => Some((id, handle)),
            _ => None,
        }
    }

    /// Get the full context of this error, if both fields are present.
    pub fn full_context(&self) -> (res: Option<(u32, u32)>)
        ensures
            res == self.context(),
    {
        match (self.request_id, self.request_handle) {
            (Some(id), Some(handle)) => Some((id, handle)),
            _ => None,
        }
    }
}

/// A status is good exactly if its two highest bits are both clear.
pub proof fn law_severity_is_in_the_two_highest_bits(status: StatusCode)
    ensures
        status.good() <==> status.0 & 0xC000_0000 == 0,
{
    let bits = status.0;
    assert(bits < 0x4000_0000 <==> bits & 0xC000_0000 == 0) by (bit_vector);
}

/// An error has a full context exactly if both its request id and its request handle are known,
/// and the context is made of these two.
pub proof fn law_full_context_takes_both(e: Error, id: u32, handle: u32)
    ensures
        e.context() == Some((id, handle)) <==> e.request_id == Some(id) && e.request_handle == Some(
            handle,
        ),
        e.request_id is None || e.request_handle is None ==> e.context() is None,
        e.request_id is Some && e.request_handle is Some ==> e.context() is Some,
{
}

/// Asking whether a status is good tells whether its two highest bits are both clear, and asking
/// an error for its full context gives both parts or nothing.
pub proof fn law_answers_on_statuses_are_right(
    status: StatusCode,
    is_good: bool,
    e: Error,
    context: Option<(u32, u32)>,
)
    requires
        call_ensures(StatusCode::is_good, (&status,), is_good),
        call_ensures(Error::full_context, (&e,), context),
    ensures
        is_good <==> status.0 & 0xC000_0000 == 0,
        e.request_id is Some && e.request_handle is Some ==> context == Some(
            (e.request_id->0, e.request_handle->0),
        ),
        e.request_id is None || e.request_handle is None ==> context is None,
{
    law_severity_is_in_the_two_highest_bits(status);
}

} // verus!
