use vstd::prelude::*;
use crate::error::NodeError;

verus! {

/// The bytes to send after a message was encoded: a failed encoding ends
/// the publish with `EncodeError`, and nothing is sent.
pub fn encoded_payload<X>(encoded: Result<Vec<u8>, X>) -> (r: Result<Vec<u8>, NodeError>)
    ensures
        encoded is Ok ==> r is Ok && r->Ok_0@ == encoded->Ok_0@,
        encoded is Err ==> r matches Err(NodeError::EncodeError),
{
    match encoded {
        Ok(bytes) => Ok(bytes),
        Err(_) => Err(NodeError::EncodeError),
    }
}

/// The result of a publish once the transport has answered: a refusal,
/// with its message, becomes `DeclarePublisherError`.
pub fn send_outcome(sent: Result<(), String>) -> (r: Result<(), NodeError>)
    ensures
        sent is Ok ==> r is Ok,
        sent is Err ==> (match r {
            Err(NodeError::DeclarePublisherError { detail }) => detail@ == sent->Err_0@,
            _ => false,
        }),
{
    match sent {
        Ok(()) => Ok(()),
        Err(detail) => Err(NodeError::DeclarePublisherError { detail }),
    }
}

} // verus!
