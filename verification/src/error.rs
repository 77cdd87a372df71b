use vstd::prelude::*;

verus! {

/// The errors an administrative call can end in.
///
/// `Http` reports an exchange that completed with a client- or server-error
/// status; `Transport` reports an exchange that could not complete at all;
/// `Decode` reports a success response whose body did not have the expected
/// shape. The three are kept apart so a caller can tell a rejected request
/// from an unusable reply.
#[derive(Debug)]
pub enum AdminError {
    /// The response status was in the client- or server-error range.
    Http { status: u16, message: String },
    /// The HTTP exchange itself failed before any status was received.
    Transport { detail: String },
    /// The response body could not be decoded into the expected shape.
    Decode { detail: String },
}

impl AdminError {
    /// Whether this error reports an error-range response status.
    pub fn is_http(&self) -> (r: bool)
        ensures
            r == (self is Http),
    {
        match self {
            AdminError::Http { .. } => true,
            _ => false,
        }
    }

    /// Whether this error reports an undecodable response body.
    pub fn is_decode(&self) -> (r: bool)
        ensures
            r == (self is Decode),
    {
        match self {
            AdminError::Decode { .. } => true,
            _ => false,
        }
    }
}

} // verus!
