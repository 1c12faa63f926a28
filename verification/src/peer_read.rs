//! Versioned JSON reads of one peer daemon.
//!
//! Every fleet-wide view reads its peers the same way: a body of another API version is
//! refused before its typed parse.

use vstd::prelude::*;

use crate::fleet::{http_status_text, ClusterResponse, API_VERSION};
use crate::json::{check_body_version, json_number_member, VersionRefusal};
use crate::text::join2;

verus! {

/// Seconds of one peer read, connect through body.
pub const READ_TIMEOUT_SECS: u64 = 5;

/// Largest body of one peer read in bytes.
pub const READ_MAX_BODY: usize = 8_388_608;

/// Why a peer's answer is refused before its typed parse, if it is.
pub open spec fn peer_refusal(status: u16, body: Seq<u8>) -> Option<Seq<char>> {
    if status != 200 {
        Some("peer returned HTTP "@ + http_status_text(status))
    } else {
        match json_number_member(body, "api_version"@) {
            Err(error) => Some("invalid peer response: "@ + error),
            Ok(Some(version)) => if version == API_VERSION {
                None
            } else {
                Some("peer response uses an unsupported API version"@)
            },
            Ok(None) => Some("peer response uses an unsupported API version"@),
        }
    }
}

/// Check one peer's answer before its typed parse.
///
/// The error is display text for a view that reports the peer as unavailable.
pub fn read_peer(response: &ClusterResponse) -> (result: Result<(), String>)
    ensures
        match peer_refusal(response.status.number(), response.body@) {
            None => result is Ok,
            Some(text) => result matches Err(found) && found@ == text,
        },
{
    if !response.status.is_ok() {
        let status = response.status.text();
        return Err(join2("peer returned HTTP ", status.as_str()));
    }
    match check_body_version(&response.body, API_VERSION) {
        Ok(_) => Ok(()),
        Err(VersionRefusal::Invalid(error)) => Err(
            join2("invalid peer response: ", error.as_str()),
        ),
        Err(VersionRefusal::Unsupported) => Err(
            "peer response uses an unsupported API version".to_owned(),
        ),
    }
}

/// The typed parse of a body that passed [`read_peer`]; `parsed` holds the parser's error.
pub fn parsed_body<T>(parsed: Result<T, String>) -> (result: Result<T, String>)
    ensures
        match parsed {
            Ok(value) => result == Ok::<T, String>(value),
            Err(error) => result matches Err(text) && text@ == "invalid peer response: "@ + error@,
        },
{
    match parsed {
        Ok(value) => Ok(value),
        Err(error) => Err(join2("invalid peer response: ", error.as_str())),
    }
}

} // verus!
