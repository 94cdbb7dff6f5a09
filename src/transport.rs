//! Classification of what a single GET request came back with.
use vstd::prelude::*;

use crate::error::ClientError;

verus! {

/// What the transport saw of one request.
#[derive(Debug, PartialEq, Eq)]
pub enum Reply {
    /// The exchange answered with this HTTP status.
    Status(u16),
    /// The exchange could not be reached (connection, DNS, timeout), for the
    /// given cause.
    Unreachable(String),
}

/// The status of a successful answer, whose body is then read.
pub const STATUS_OK: u16 = 200;

/// The status of a "not found" answer.
pub const STATUS_NOT_FOUND: u16 = 404;

/// Whether a reply lets the body be read, and otherwise the error it means.
pub open spec fn spec_check_reply(reply: Reply) -> Result<(), ClientError> {
    match reply {
        Reply::Unreachable(cause) => Err(ClientError::Network(cause)),
        Reply::Status(code) => if code == STATUS_OK {
            Ok(())
        } else if code == STATUS_NOT_FOUND {
            Err(ClientError::NotFound)
        } else {
            Err(ClientError::HttpStatus(code))
        },
    }
}

/// Classifies a reply: 200 lets the body be read, 404 is `NotFound`, any
/// other status is `HttpStatus` with that status, and a request that reached
/// nobody is `Network`.
pub fn check_reply(reply: Reply) -> (r: Result<(), ClientError>)
    ensures
        r == spec_check_reply(reply),
        reply is Status && reply->Status_0 == STATUS_NOT_FOUND ==> r == Err::<(), ClientError>(
            ClientError::NotFound,
        ),
        reply is Status && reply->Status_0 != STATUS_OK && reply->Status_0 != STATUS_NOT_FOUND
            ==> r == Err::<(), ClientError>(ClientError::HttpStatus(reply->Status_0)),
        reply is Unreachable ==> r == Err::<(), ClientError>(
            ClientError::Network(reply->Unreachable_0),
        ),
{
    match reply {
        Reply::Unreachable(cause) => Err(ClientError::Network(cause)),
        Reply::Status(code) => {
            if code == STATUS_OK {
                Ok(())
            } else if code == STATUS_NOT_FOUND {
                Err(ClientError::NotFound)
            } else {
                Err(ClientError::HttpStatus(code))
            }
        },
    }
}

/// The body of a 200 answer, or `Network` when reading it broke off.
pub fn read_outcome(read: Result<String, String>) -> (r: Result<String, ClientError>)
    ensures
        read is Ok ==> r == Ok::<String, ClientError>(read->Ok_0),
        read is Err ==> r == Err::<String, ClientError>(ClientError::Network(read->Err_0)),
{
    match read {
        Ok(body) => Ok(body),
        Err(cause) => Err(ClientError::Network(cause)),
    }
}

} // verus!
