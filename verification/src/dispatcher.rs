//! The dispatch notifier: the message that tells the dispatcher of a change,
//! and what a delivery attempt amounts to. The transport itself is not part
//! of this library: a caller sends the message and reports whether it
//! arrived.

use vstd::prelude::*;
use crate::observer::registry::{EventView, ObsResult};

verus! {

/// Why a notification did not reach the dispatcher.
#[derive(Debug, Clone, Copy, PartialEq, Eq, Structural)]
pub enum DispatchError {
    /// The transport reported a failure. The change is not sent again.
    DeliveryFailed,
}

/// The key under which the new commit id is sent: `comm_id=`.
pub open spec fn commit_key() -> Seq<char> {
    seq!['c', 'o', 'm', 'm', '_', 'i', 'd', '=']
}

/// The key under which the resource is sent: `&resource=`.
pub open spec fn resource_key() -> Seq<char> {
    seq!['&', 'r', 'e', 's', 'o', 'u', 'r', 'c', 'e', '=']
}

/// The message for a change: the new commit id, then the raw identifier of
/// the resource, each behind its key.
pub open spec fn message_of(event: EventView) -> Seq<char> {
    commit_key() + event.commit + resource_key() + event.path.raw
}

/// Writes the message that tells the dispatcher of `event`.
pub fn request_body(event: &ObsResult) -> (body: String)
    ensures
        body@ == message_of(event@),
{
    proof {
        reveal_strlit("comm_id=");
        reveal_strlit("&resource=");
        assert("comm_id="@ =~= commit_key());
        assert("&resource="@ =~= resource_key());
    }
    let mut body = "comm_id=".to_owned();
    body.append(event.commit());
    body.append("&resource=");
    body.append(event.resource().as_str());
    body
}

/// What a delivery attempt amounts to.
pub open spec fn delivery_answer(delivered: bool) -> Result<(), DispatchError> {
    if delivered {
        Ok(())
    } else {
        Err(DispatchError::DeliveryFailed)
    }
}

/// Turns the transport's report of a delivery attempt into the notifier's
/// answer.
pub fn confirm(delivered: bool) -> (answer: Result<(), DispatchError>)
    ensures
        answer == delivery_answer(delivered),
{
    if delivered {
        Ok(())
    } else {
        Err(DispatchError::DeliveryFailed)
    }
}

} // verus!
