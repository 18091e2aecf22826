//! Temporal gating of AI computation: the rules by which the temporal
//! functions admit nodes and carry a request from submission to a verified
//! result. The caller keeps the records.

use crate::ai_compute::{AIComputeStatus, Error};
use crate::hash::{sha3_512_digest, H256, H512};
use crate::temporal_crypto::{expected_proof, Pallet};
use vstd::prelude::*;

verus! {

/// A request for computation, gated by a temporal key.
#[derive(Clone, Copy, Debug, PartialEq, Eq)]
pub struct AIComputeRequest<AccountId, Balance, Moment> {
    /// Who submitted the request.
    pub requester: AccountId,
    /// The temporal key that binds the result.
    pub temporal_key: H512,
    /// Hash of the prompt.
    pub request_hash: H256,
    /// Time of the request, in seconds.
    pub timestamp: Moment,
    /// Payment held for the node.
    pub payment: Balance,
    /// The node that took the request, if any.
    pub assigned_node: Option<AccountId>,
    /// Where the request stands.
    pub status: AIComputeStatus,
}

/// A verified result.
#[derive(Clone, Copy, Debug, PartialEq, Eq)]
pub struct AIComputeResult<AccountId> {
    /// Hash of the output.
    pub output_hash: H256,
    /// The proof that the node presented.
    pub output_hmac: H512,
    /// The node that computed the result.
    pub node: AccountId,
    /// Digest of the proof, for the audit log.
    pub temporal_proof: H512,
}

/// The error, if any, with which a node is kept from taking a request.
pub open spec fn gated_assign_refusal(
    node_registered: bool,
    request: Option<AIComputeRequest<u64, u128, u64>>,
) -> Option<Error> {
    if !node_registered {
        Some(Error::AINodeNotRegistered)
    } else if request is None {
        Some(Error::AIComputeRequestNotFound)
    } else if request->0.status != AIComputeStatus::Pending {
        Some(Error::InvalidAIComputeRequest)
    } else {
        None
    }
}

/// The error, if any, with which a result is turned down.
pub open spec fn gated_result_refusal(
    who: u64,
    request: Option<AIComputeRequest<u64, u128, u64>>,
    output_hash: H256,
    output_hmac: H512,
) -> Option<Error> {
    if request is None {
        Some(Error::AIComputeRequestNotFound)
    } else if request->0.assigned_node != Some(who) {
        Some(Error::NotAuthorizedNode)
    } else if request->0.status == AIComputeStatus::Completed {
        Some(Error::RequestAlreadyCompleted)
    } else if output_hmac@ != expected_proof(request->0.temporal_key@, output_hash@) {
        Some(Error::AIComputeVerificationFailed)
    } else {
        None
    }
}

impl Pallet {
    /// Registers a node, once. Returns the flag to record.
    pub fn register_ai_node(registered: bool) -> (result: Result<bool, Error>)
        ensures
            result == if registered {
                Err::<bool, Error>(Error::AINodeAlreadyRegistered)
            } else {
                Ok::<bool, Error>(true)
            },
    {
        if registered {
            return Err(Error::AINodeAlreadyRegistered);
        }
        Ok(true)
    }

    /// Takes a node off the register. Only a registered node can leave.
    pub fn unregister_ai_node(registered: bool) -> (result: Result<(), Error>)
        ensures
            result == if registered {
                Ok::<(), Error>(())
            } else {
                Err::<(), Error>(Error::AINodeNotRegistered)
            },
    {
        if !registered {
            return Err(Error::AINodeNotRegistered);
        }
        Ok(())
    }

    /// Takes in a request at `now_millis`, a time in milliseconds. The
    /// requester must be able to set the payment aside. Returns the pending
    /// request and the id of the next.
    pub fn submit_ai_compute_request(
        who: u64,
        temporal_key: H512,
        request_hash: H256,
        payment: u128,
        can_reserve: bool,
        now_millis: u64,
        request_id: u64,
    ) -> (result: Result<(AIComputeRequest<u64, u128, u64>, u64), Error>)
        requires
            request_id < u64::MAX,
        ensures
            match result {
                Ok((request, next_id)) => {
                    &&& can_reserve
                    &&& request.requester == who
                    &&& request.temporal_key == temporal_key
                    &&& request.request_hash == request_hash
                    &&& request.timestamp == now_millis / 1000
                    &&& request.payment == payment
                    &&& request.assigned_node is None
                    &&& request.status == AIComputeStatus::Pending
                    &&& next_id == request_id + 1
                },
                Err(e) => !can_reserve && e == Error::InsufficientBalance,
            },
    {
        if !can_reserve {
            return Err(Error::InsufficientBalance);
        }
        let timestamp: u64 = now_millis / 1000;
        let request = AIComputeRequest {
            requester: who,
            temporal_key,
            request_hash,
            timestamp,
            payment,
            assigned_node: None,
            status: AIComputeStatus::Pending,
        };
        Ok((request, request_id + 1))
    }

    /// Assigns a pending request to the registered node `who`.
    pub fn assign_ai_compute_request(
        who: u64,
        node_registered: bool,
        request: Option<AIComputeRequest<u64, u128, u64>>,
    ) -> (result: Result<AIComputeRequest<u64, u128, u64>, Error>)
        ensures
            match result {
                Ok(assigned) => {
                    &&& gated_assign_refusal(node_registered, request) is None
                    &&& assigned.assigned_node == Some(who)
                    &&& assigned.status == AIComputeStatus::Assigned
                    &&& assigned.requester == request->0.requester
                    &&& assigned.temporal_key == request->0.temporal_key
                    &&& assigned.request_hash == request->0.request_hash
                    &&& assigned.timestamp == request->0.timestamp
                    &&& assigned.payment == request->0.payment
                },
                Err(e) => gated_assign_refusal(node_registered, request) == Some(e),
            },
    {
        if !node_registered {
            return Err(Error::AINodeNotRegistered);
        }
        let mut request = match request {
            Some(request) => request,
            None => {
                return Err(Error::AIComputeRequestNotFound);
            },
        };
        if !(request.status == AIComputeStatus::Pending) {
            return Err(Error::InvalidAIComputeRequest);
        }
        request.assigned_node = Some(who);
        request.status = AIComputeStatus::Assigned;
        Ok(request)
    }

    /// Takes in the result of the node `who` for a request. The node must be
    /// the one assigned, the request must not be completed, and the proof
    /// must be the one that the temporal key of the request yields. Returns
    /// the request as completed, and the result to record.
    pub fn submit_ai_compute_result(
        who: u64,
        request: Option<AIComputeRequest<u64, u128, u64>>,
        output_hash: H256,
        output_hmac: H512,
    ) -> (result: Result<(AIComputeRequest<u64, u128, u64>, AIComputeResult<u64>), Error>)
        ensures
            match result {
                Ok((completed, record)) => {
                    &&& gated_result_refusal(who, request, output_hash, output_hmac) is None
                    &&& completed.status == AIComputeStatus::Completed
                    &&& completed.assigned_node == request->0.assigned_node
                    &&& completed.requester == request->0.requester
                    &&& completed.temporal_key == request->0.temporal_key
                    &&& completed.request_hash == request->0.request_hash
                    &&& completed.timestamp == request->0.timestamp
                    &&& completed.payment == request->0.payment
                    &&& record.output_hash == output_hash
                    &&& record.output_hmac == output_hmac
                    &&& record.node == who
                    &&& record.temporal_proof@ == sha3_512_digest(output_hmac@)
                },
                Err(e) => gated_result_refusal(who, request, output_hash, output_hmac) == Some(e),
            },
    {
        let mut request = match request {
            Some(request) => request,
            None => {
                return Err(Error::AIComputeRequestNotFound);
            },
        };
        match request.assigned_node {
            Some(node) => {
                if node != who {
                    return Err(Error::NotAuthorizedNode);
                }
            },
            None => {
                return Err(Error::NotAuthorizedNode);
            },
        }
        if request.status == AIComputeStatus::Completed {
            return Err(Error::RequestAlreadyCompleted);
        }
        let temporal_proof = match Self::verify_ai_output_hmac(
            &request.temporal_key,
            &output_hash,
            &output_hmac,
        ) {
            Ok(proof_hash) => proof_hash,
            Err(_) => {
                return Err(Error::AIComputeVerificationFailed);
            },
        };
        let record = AIComputeResult { output_hash, output_hmac, node: who, temporal_proof };
        request.status = AIComputeStatus::Completed;
        Ok((request, record))
    }
}

} // verus!
