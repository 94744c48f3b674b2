//! The exchange between the completion engine and the session: one request,
//! then one reply. The queues that carry them belong to the caller.

use crate::error::BridgeError;
use vstd::prelude::*;

verus! {

/// What one exchange came to, from what the two queues did: whether the
/// request was taken, and what came back. A request that was not taken
/// fails at once; a queue that closed without a reply fails too.
pub fn outcome<C>(sent: bool, received: Option<C>) -> (r: Result<C, BridgeError>)
    ensures
        r == (if !sent {
            Err::<C, BridgeError>(BridgeError::SendFailed)
        } else {
            match received {
                Some(reply) => Ok::<C, BridgeError>(reply),
                None => Err::<C, BridgeError>(BridgeError::Closed),
            }
        }),
{
    if !sent {
        Err(BridgeError::SendFailed)
    } else {
        match received {
            Some(reply) => Ok(reply),
            None => Err(BridgeError::Closed),
        }
    }
}

} // verus!
