//! Cluster protocol versions and the checks every cluster request passes.

use vstd::prelude::*;

use crate::error::{result_view, AppError, ErrorView};
use crate::ids::MachineId;

verus! {

/// Version of the public request and response schemas.
pub const API_VERSION: u32 = 1;

/// Oldest cluster protocol this daemon speaks.
pub const SUPPORTED_PROTOCOL_MIN: u32 = 1;

/// Newest cluster protocol this daemon speaks.
pub const SUPPORTED_PROTOCOL_MAX: u32 = 2;

/// Cluster protocol of requests that no negotiation preceded.
pub const CLUSTER_PROTOCOL_VERSION: u32 = 2;

/// An inclusive range of cluster protocol versions.
#[derive(Debug, Clone, Copy, PartialEq, Eq, Structural)]
pub struct ProtocolRange {
    pub min: u32,
    pub max: u32,
}

impl ProtocolRange {
    /// Versions start at one and a range is never empty.
    pub open spec fn wf(self) -> bool {
        1 <= self.min <= self.max
    }

    /// A range, or nothing when it would be empty or hold version zero.
    pub fn new(min: u32, max: u32) -> (range: Option<ProtocolRange>)
        ensures
            range == if 1 <= min <= max {
                Some(ProtocolRange { min, max })
            } else {
                None
            },
            range matches Some(range) ==> range.wf(),
    {
        if 1 <= min && min <= max {
            Some(ProtocolRange { min, max })
        } else {
            None
        }
    }
}

/// An HTTP status code, which is never outside 100 to 999.
#[derive(Debug, Clone, Copy, PartialEq, Eq, Structural)]
pub struct HttpStatus {
    code: u16,
}

impl HttpStatus {
    #[verifier::type_invariant]
    spec fn in_range(self) -> bool {
        100 <= self.code <= 999
    }

    /// The code as a number.
    pub closed spec fn number(self) -> u16 {
        self.code
    }

    /// A status code, or nothing for a number that is none.
    pub fn new(code: u16) -> (status: Option<HttpStatus>)
        ensures
            status is Some == (100 <= code <= 999),
            status matches Some(status) ==> status.number() == code,
    {
        if 100 <= code && code <= 999 {
            Some(HttpStatus { code })
        } else {
            None
        }
    }

    /// The code as a number.
    pub fn code(self) -> (code: u16)
        ensures
            code == self.number(),
    {
        self.code
    }

    /// Whether this is the code of an accepted request.
    pub fn is_ok(self) -> (ok: bool)
        ensures
            ok == (self.number() == 200),
    {
        self.code == 200
    }

    /// Whether this code reports success.
    pub fn is_success(self) -> (success: bool)
        ensures
            success == success_status(self.number()),
    {
        200 <= self.code && self.code < 300
    }

    /// The code and its reason as one text.
    pub fn text(self) -> (text: String)
        ensures
            text@ == http_status_text(self.number()),
    {
        proof {
            use_type_invariant(self);
        }
        status_text(self.code)
    }
}

/// Answer of one cluster request: its HTTP status code and body bytes.
#[derive(Debug)]
pub struct ClusterResponse {
    pub status: HttpStatus,
    pub body: Vec<u8>,
}

/// Whether a status code reports success.
pub open spec fn success_status(status: u16) -> bool {
    200 <= status < 300
}

/// The text of an HTTP status code as the `Display` of `axum::http::StatusCode` writes it.
pub uninterp spec fn http_status_text(status: u16) -> Seq<char>;

/// Calls `axum::http::StatusCode::from_u16` and the `Display` of its result.
///
/// Claimed: the text depends on the code alone. Codes outside 100 to 999 are not codes
/// that `from_u16` accepts.
#[verifier::external_body]
pub(crate) fn status_text(status: u16) -> (text: String)
    requires
        100 <= status <= 999,
    ensures
        text@ == http_status_text(status),
{
    axum::http::StatusCode::from_u16(status).map(|code| code.to_string()).unwrap_or_default()
}

/// Refuse a request that was meant for another machine.
pub fn check_destination(local: MachineId, destination: MachineId) -> (result: Result<
    (),
    AppError,
>)
    ensures
        result_view(result) == if destination == local {
            Ok(())
        } else {
            Err(ErrorView::MachineIdentityMismatch { expected: destination, found: Some(local) })
        },
{
    if destination == local {
        Ok(())
    } else {
        Err(AppError::MachineIdentityMismatch { expected: destination, found: Some(local) })
    }
}

/// What [`check_api_version`] answers.
pub open spec fn api_version_checked(version: u32) -> Result<(), ErrorView> {
    if version == API_VERSION {
        Ok(())
    } else {
        Err(ErrorView::Usage { message: "unsupported API version"@ })
    }
}

} // verus!
