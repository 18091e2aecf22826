//! The AI compute market: the rules by which models and nodes are
//! registered and by which a request is submitted, assigned, completed or
//! cancelled. The caller keeps the records; each function takes what the
//! caller read and returns what it has to write.

use crate::hash::{sha3_512_digest, H256, H512};
use crate::temporal_crypto::{expected_proof, Pallet as TemporalPallet};
use vstd::prelude::*;

verus! {

/// Most requests that the pending queue holds.
pub const PENDING_LIMIT: usize = 1000;

/// Where a request stands.
#[derive(Clone, Copy, Debug, PartialEq, Eq, Structural)]
pub enum AIComputeStatus {
    /// Submitted, waiting for a node.
    Pending,
    /// Assigned to a node.
    Assigned,
    /// The node is computing.
    Computing,
    /// The result waits for verification.
    Verifying,
    /// Completed and verified.
    Completed,
    /// Failed or rejected.
    Failed,
}

/// A model that a node can run.
#[derive(Clone, Copy, Debug, PartialEq, Eq, Hash, Structural)]
pub enum AIModel {
    GPT4,
    GPT4Turbo,
    GPT35Turbo,
    Claude3Opus,
    Claude3Sonnet,
    Claude3Haiku,
    Grok,
    Grok2,
    Llama3,
    Llama31,
    Gemini15Pro,
    Gemini15Flash,
    LocalLLM,
    Custom,
}

/// What a model can do.
#[derive(Clone, Copy, Debug, PartialEq, Eq, Structural)]
pub enum AIModelCapabilities {
    TextGeneration,
    TextAndCode,
    Multimodal,
    Specialized,
}

/// A request for computation.
#[derive(Clone, Copy, Debug, PartialEq, Eq)]
pub struct AIComputeRequest<AccountId, Balance, BlockNumber> {
    /// Who submitted the request.
    pub requester: AccountId,
    /// The temporal key that binds the result.
    pub temporal_key: H512,
    /// Hash of the prompt.
    pub request_hash: H256,
    /// The model asked for.
    pub model: AIModel,
    /// Most tokens of the answer.
    pub max_tokens: u32,
    /// Block in which the request was made.
    pub created_at: BlockNumber,
    /// Payment held for the node.
    pub payment: Balance,
    /// The node that took the request, if any.
    pub assigned_node: Option<AccountId>,
    /// Where the request stands.
    pub status: AIComputeStatus,
}

/// A verified result.
#[derive(Clone, Copy, Debug, PartialEq, Eq)]
pub struct AIComputeResult<AccountId, BlockNumber> {
    /// Hash of the output.
    pub output_hash: H256,
    /// The proof that the node presented.
    pub output_hmac: H512,
    /// The node that computed the result.
    pub node: AccountId,
    /// Block in which the result came in.
    pub submitted_at: BlockNumber,
    /// Digest of the proof, for the audit log.
    pub temporal_proof: H512,
    /// Tokens used.
    pub tokens_used: u32,
}

/// What is known of a registered model.
#[derive(Clone, Debug, PartialEq, Eq)]
pub struct AIModelMetadata<BlockNumber> {
    pub model: AIModel,
    pub name: Vec<u8>,
    pub provider: Vec<u8>,
    pub version: Vec<u8>,
    pub max_context: u32,
    /// Energy efficiency, 0 to 100.
    pub energy_rating: u8,
    pub base_cost: u64,
    pub capabilities: AIModelCapabilities,
    pub registered_at: BlockNumber,
}

/// What is known of a registered node.
#[derive(Clone, Debug, PartialEq, Eq)]
pub struct AINodeInfo<BlockNumber> {
    pub is_active: bool,
    pub supported_models: Vec<AIModel>,
    pub total_completed: u64,
    pub total_failed: u64,
    pub avg_response_time: u32,
    pub energy_consumed: u64,
    pub registered_at: BlockNumber,
}

/// Why a request to the market was turned down.
#[derive(Clone, Copy, Debug, PartialEq, Eq, Structural)]
pub enum Error {
    AINodeAlreadyRegistered,
    AINodeNotRegistered,
    AIComputeRequestNotFound,
    InsufficientBalance,
    InvalidAIComputeRequest,
    AIComputeVerificationFailed,
    NotAuthorizedNode,
    RequestAlreadyCompleted,
    TooManyModels,
    MaxTokensExceeded,
    ModelNotSupported,
    NotAuthorizedToCancel,
    CannotCancelCompleted,
    AIModelAlreadyRegistered,
    AIModelNotRegistered,
    InvalidModelParameters,
}

/// A queue as it is stored: unchanged while it holds no more than
/// [`PENDING_LIMIT`] requests, and empty otherwise.
pub open spec fn stored_queue(queue: Seq<u64>) -> Seq<u64> {
    if queue.len() <= PENDING_LIMIT {
        queue
    } else {
        Seq::empty()
    }
}

/// A queue without a request.
pub open spec fn queue_without(queue: Seq<u64>, request_id: u64) -> Seq<u64> {
    queue.filter(|id: u64| id != request_id)
}

/// The error, if any, with which a new model is turned down.
pub open spec fn model_refusal(
    already_registered: bool,
    name: Seq<u8>,
    provider: Seq<u8>,
    energy_rating: u8,
) -> Option<Error> {
    if energy_rating > 100 || name.len() == 0 || provider.len() == 0 {
        Some(Error::InvalidModelParameters)
    } else if already_registered {
        Some(Error::AIModelAlreadyRegistered)
    } else {
        None
    }
}

/// The error, if any, with which a node is kept from taking a request.
pub open spec fn assign_refusal(
    node_info: Option<AINodeInfo<u64>>,
    request: Option<AIComputeRequest<u64, u128, u64>>,
) -> Option<Error> {
    if node_info is None {
        Some(Error::AINodeNotRegistered)
    } else if request is None {
        Some(Error::AIComputeRequestNotFound)
    } else if request->0.status != AIComputeStatus::Pending {
        Some(Error::InvalidAIComputeRequest)
    } else if !node_info->0.supported_models@.contains(request->0.model) {
        Some(Error::ModelNotSupported)
    } else {
        None
    }
}

/// The error, if any, with which a result is turned down.
pub open spec fn result_refusal(
    who: u64,
    request: Option<AIComputeRequest<u64, u128, u64>>,
    output_hash: H256,
    output_hmac: H512,
) -> Option<Error> {
    if request is None {
        Some(Error::AIComputeRequestNotFound)
    } else if request->0.assigned_node != Some(who) {
        Some(Error::NotAuthorizedNode)
    } else if request->0.status == AIComputeStatus::Completed {
        Some(Error::RequestAlreadyCompleted)
    } else if output_hmac@ != expected_proof(request->0.temporal_key@, output_hash@) {
        Some(Error::AIComputeVerificationFailed)
    } else {
        None
    }
}

/// The error, if any, with which a cancellation is turned down.
pub open spec fn cancel_refusal(who: u64, request: Option<AIComputeRequest<u64, u128, u64>>) -> Option<
    Error,
> {
    if request is None {
        Some(Error::AIComputeRequestNotFound)
    } else if request->0.requester != who {
        Some(Error::NotAuthorizedToCancel)
    } else if request->0.status == AIComputeStatus::Completed {
        Some(Error::CannotCancelCompleted)
    } else {
        None
    }
}

/// Says whether `model` is among `models`.
fn supports(models: &Vec<AIModel>, model: AIModel) -> (found: bool)
    ensures
        found == models@.contains(model),
{
    let mut i: usize = 0;
    while i < models.len()
        invariant
            i <= models@.len(),
            forall|j: int| 0 <= j < i ==> models@[j] != model,
        decreases models@.len() - i,
    {
        if models[i] == model {
            return true;
        }
        i += 1;
    }
    false
}

/// A queue without a request, one entry further.
proof fn lemma_queue_without_step(queue: Seq<u64>, i: int, request_id: u64)
    requires
        0 <= i < queue.len(),
    ensures
        queue_without(queue.take(i + 1), request_id) == if queue[i] != request_id {
            queue_without(queue.take(i), request_id).push(queue[i])
        } else {
            queue_without(queue.take(i), request_id)
        },
{
    reveal(Seq::filter);
    assert(queue.take(i + 1).drop_last() =~= queue.take(i));
}

/// Takes a request out of the queue and stores what is left.
fn remove_pending(queue: &mut Vec<u64>, request_id: u64)
    ensures
        final(queue)@ == stored_queue(queue_without(old(queue)@, request_id)),
{
    let mut filtered: Vec<u64> = Vec::new();
    let mut i: usize = 0;
    assert(queue@.take(0) =~= Seq::<u64>::empty());
    assert(queue_without(Seq::<u64>::empty(), request_id) =~= Seq::<u64>::empty()) by {
        reveal(Seq::filter);
    }
    while i < queue.len()
        invariant
            i <= queue@.len(),
            queue@ == old(queue)@,
            filtered@ == queue_without(queue@.take(i as int), request_id),
        decreases queue@.len() - i,
    {
        proof {
            lemma_queue_without_step(queue@, i as int, request_id);
        }
        if queue[i] != request_id {
            filtered.push(queue[i]);
        }
        i += 1;
    }
    assert(queue@.take(i as int) =~= queue@);
    if filtered.len() <= PENDING_LIMIT {
        *queue = filtered;
    } else {
        *queue = Vec::new();
    }
}

/// The anchor type of the market functions.
pub struct Pallet;

impl Pallet {
    /// Registers a model. The energy rating must not pass 100, name and
    /// provider must not be empty, and the model must be new.
    pub fn register_ai_model(
        already_registered: bool,
        model: AIModel,
        name: Vec<u8>,
        provider: Vec<u8>,
        version: Vec<u8>,
        max_context: u32,
        energy_rating: u8,
        base_cost: u64,
        capabilities: AIModelCapabilities,
        current_block: u64,
    ) -> (result: Result<AIModelMetadata<u64>, Error>)
        ensures
            match result {
                Ok(metadata) => {
                    &&& model_refusal(already_registered, name@, provider@, energy_rating) is None
                    &&& metadata.model == model
                    &&& metadata.name@ == name@
                    &&& metadata.provider@ == provider@
                    &&& metadata.version@ == version@
                    &&& metadata.max_context == max_context
                    &&& metadata.energy_rating == energy_rating
                    &&& metadata.base_cost == base_cost
                    &&& metadata.capabilities == capabilities
                    &&& metadata.registered_at == current_block
                },
                Err(e) => model_refusal(already_registered, name@, provider@, energy_rating)
                    == Some(e),
            },
    {
        if energy_rating > 100 {
            return Err(Error::InvalidModelParameters);
        }
        if name.len() == 0 {
            return Err(Error::InvalidModelParameters);
        }
        if provider.len() == 0 {
            return Err(Error::InvalidModelParameters);
        }
        if already_registered {
            return Err(Error::AIModelAlreadyRegistered);
        }
        Ok(
            AIModelMetadata {
                model,
                name,
                provider,
                version,
                max_context,
                energy_rating,
                base_cost,
                capabilities,
                registered_at: current_block,
            },
        )
    }

    /// Registers a node with the models that it runs. A node registers
    /// once, with no more than `max_models_per_node` models.
    pub fn register_ai_node(
        already_registered: bool,
        supported_models: Vec<AIModel>,
        max_models_per_node: u32,
        current_block: u64,
    ) -> (result: Result<AINodeInfo<u64>, Error>)
        ensures
            match result {
                Ok(info) => {
                    &&& !already_registered
                    &&& supported_models@.len() <= max_models_per_node
                    &&& info.is_active
                    &&& info.supported_models@ == supported_models@
                    &&& info.total_completed == 0
                    &&& info.total_failed == 0
                    &&& info.avg_response_time == 0
                    &&& info.energy_consumed == 0
                    &&& info.registered_at == current_block
                },
                Err(e) => e == if already_registered {
                    Error::AINodeAlreadyRegistered
                } else {
                    Error::TooManyModels
                } && (already_registered || supported_models@.len() > max_models_per_node),
            },
    {
        if already_registered {
            return Err(Error::AINodeAlreadyRegistered);
        }
        if supported_models.len() > max_models_per_node as usize {
            return Err(Error::TooManyModels);
        }
        Ok(
            AINodeInfo {
                is_active: true,
                supported_models,
                total_completed: 0,
                total_failed: 0,
                avg_response_time: 0,
                energy_consumed: 0,
                registered_at: current_block,
            },
        )
    }

    /// Takes a node off the register. Only a registered node can leave.
    pub fn unregister_ai_node(registered: bool) -> (result: Result<(), Error>)
        ensures
            result == if registered {
                Ok::<(), Error>(())
            } else {
                Err::<(), Error>(Error::AINodeNotRegistered)
            },
    {
        if !registered {
            return Err(Error::AINodeNotRegistered);
        }
        Ok(())
    }

    /// Replaces the models of a registered node and leaves the rest of its
    /// record as it was.
    pub fn update_supported_models(
        node_info: Option<AINodeInfo<u64>>,
        supported_models: Vec<AIModel>,
        max_models_per_node: u32,
    ) -> (result: Result<AINodeInfo<u64>, Error>)
        ensures
            match result {
                Ok(info) => {
                    &&& node_info is Some
                    &&& supported_models@.len() <= max_models_per_node
                    &&& info.supported_models@ == supported_models@
                    &&& info.is_active == node_info->0.is_active
                    &&& info.total_completed == node_info->0.total_completed
                    &&& info.total_failed == node_info->0.total_failed
                    &&& info.avg_response_time == node_info->0.avg_response_time
                    &&& info.energy_consumed == node_info->0.energy_consumed
                    &&& info.registered_at == node_info->0.registered_at
                },
                Err(e) => e == if node_info is None {
                    Error::AINodeNotRegistered
                } else {
                    Error::TooManyModels
                } && (node_info is None || supported_models@.len() > max_models_per_node),
            },
    {
        let mut info = match node_info {
            Some(info) => info,
            None => {
                return Err(Error::AINodeNotRegistered);
            },
        };
        if supported_models.len() > max_models_per_node as usize {
            return Err(Error::TooManyModels);
        }
        info.supported_models = supported_models;
        Ok(info)
    }

    /// Takes in a request. It must ask for no more than
    /// `max_tokens_per_request` tokens, and the requester must be able to
    /// set the payment aside. The request is appended to the pending queue,
    /// which is stored as [`stored_queue`] says. Returns the new request and
    /// the id of the next.
    pub fn submit_ai_compute_request(
        who: u64,
        temporal_key: H512,
        request_hash: H256,
        model: AIModel,
        max_tokens: u32,
        payment: u128,
        max_tokens_per_request: u32,
        can_reserve: bool,
        current_block: u64,
        request_id: u64,
        queue: &mut Vec<u64>,
    ) -> (result: Result<(AIComputeRequest<u64, u128, u64>, u64), Error>)
        requires
            request_id < u64::MAX,
        ensures
            match result {
                Ok((request, next_id)) => {
                    &&& max_tokens <= max_tokens_per_request
                    &&& can_reserve
                    &&& request.requester == who
                    &&& request.temporal_key == temporal_key
                    &&& request.request_hash == request_hash
                    &&& request.model == model
                    &&& request.max_tokens == max_tokens
                    &&& request.created_at == current_block
                    &&& request.payment == payment
                    &&& request.assigned_node is None
                    &&& request.status == AIComputeStatus::Pending
                    &&& next_id == request_id + 1
                    &&& final(queue)@ == stored_queue(old(queue)@.push(request_id))
                },
                Err(e) => {
                    &&& e == if max_tokens > max_tokens_per_request {
                        Error::MaxTokensExceeded
                    } else {
                        Error::InsufficientBalance
                    }
                    &&& (max_tokens > max_tokens_per_request || !can_reserve)
                    &&& final(queue)@ == old(queue)@
                },
            },
    {
        if max_tokens > max_tokens_per_request {
            return Err(Error::MaxTokensExceeded);
        }
        if !can_reserve {
            return Err(Error::InsufficientBalance);
        }
        let request = AIComputeRequest {
            requester: who,
            temporal_key,
            request_hash,
            model,
            max_tokens,
            created_at: current_block,
            payment,
            assigned_node: None,
            status: AIComputeStatus::Pending,
        };
        if queue.len() < PENDING_LIMIT {
            queue.push(request_id);
        } else {
            *queue = Vec::new();
        }
        Ok((request, request_id + 1))
    }

    /// Assigns a pending request to the node `who`, which must be registered
    /// and support the model. Returns the request as assigned, and takes it
    /// out of the pending queue.
    pub fn assign_ai_compute_request(
        who: u64,
        node_info: &Option<AINodeInfo<u64>>,
        request: Option<AIComputeRequest<u64, u128, u64>>,
        request_id: u64,
        queue: &mut Vec<u64>,
    ) -> (result: Result<AIComputeRequest<u64, u128, u64>, Error>)
        ensures
            match result {
                Ok(assigned) => {
                    &&& assign_refusal(*node_info, request) is None
                    &&& assigned.assigned_node == Some(who)
                    &&& assigned.status == AIComputeStatus::Assigned
                    &&& assigned.requester == request->0.requester
                    &&& assigned.temporal_key == request->0.temporal_key
                    &&& assigned.request_hash == request->0.request_hash
                    &&& assigned.model == request->0.model
                    &&& assigned.max_tokens == request->0.max_tokens
                    &&& assigned.created_at == request->0.created_at
                    &&& assigned.payment == request->0.payment
                    &&& final(queue)@ == stored_queue(queue_without(old(queue)@, request_id))
                },
                Err(e) => {
                    &&& assign_refusal(*node_info, request) == Some(e)
                    &&& final(queue)@ == old(queue)@
                },
            },
    {
        let info = match node_info {
            Some(info) => info,
            None => {
                return Err(Error::AINodeNotRegistered);
            },
        };
        let mut request = match request {
            Some(request) => request,
            None => {
                return Err(Error::AIComputeRequestNotFound);
            },
        };
        if !(request.status == AIComputeStatus::Pending) {
            return Err(Error::InvalidAIComputeRequest);
        }
        if !supports(&info.supported_models, request.model) {
            return Err(Error::ModelNotSupported);
        }
        request.assigned_node = Some(who);
        request.status = AIComputeStatus::Assigned;
        remove_pending(queue, request_id);
        Ok(request)
    }

    /// Takes in the result of the node `who` for a request. The node must be
    /// the one assigned, the request must not be completed, and the proof
    /// must be the one that the temporal key of the request yields. Returns
    /// the request as completed, and the result to record.
    pub fn submit_ai_compute_result(
        who: u64,
        request: Option<AIComputeRequest<u64, u128, u64>>,
        output_hash: H256,
        output_hmac: H512,
        tokens_used: u32,
        current_block: u64,
    ) -> (result: Result<(AIComputeRequest<u64, u128, u64>, AIComputeResult<u64, u64>), Error>)
        ensures
            match result {
                Ok((completed, record)) => {
                    &&& result_refusal(who, request, output_hash, output_hmac) is None
                    &&& completed.status == AIComputeStatus::Completed
                    &&& completed.assigned_node == request->0.assigned_node
                    &&& completed.requester == request->0.requester
                    &&& completed.temporal_key == request->0.temporal_key
                    &&& completed.request_hash == request->0.request_hash
                    &&& completed.model == request->0.model
                    &&& completed.max_tokens == request->0.max_tokens
                    &&& completed.created_at == request->0.created_at
                    &&& completed.payment == request->0.payment
                    &&& record.output_hash == output_hash
                    &&& record.output_hmac == output_hmac
                    &&& record.node == who
                    &&& record.submitted_at == current_block
                    &&& record.temporal_proof@ == sha3_512_digest(output_hmac@)
                    &&& record.tokens_used == tokens_used
                },
                Err(e) => result_refusal(who, request, output_hash, output_hmac) == Some(e),
            },
    {
        let mut request = match request {
            Some(request) => request,
            None => {
                return Err(Error::AIComputeRequestNotFound);
            },
        };
        match request.assigned_node {
            Some(node) => {
                if node != who {
                    return Err(Error::NotAuthorizedNode);
                }
            },
            None => {
                return Err(Error::NotAuthorizedNode);
            },
        }
        if request.status == AIComputeStatus::Completed {
            return Err(Error::RequestAlreadyCompleted);
        }
        let temporal_proof = match Self::verify_ai_output_hmac(
            &request.temporal_key,
            &output_hash,
            &output_hmac,
        ) {
            Ok(proof_hash) => proof_hash,
            Err(e) => {
                return Err(e);
            },
        };
        let record = AIComputeResult {
            output_hash,
            output_hmac,
            node: who,
            submitted_at: current_block,
            temporal_proof,
            tokens_used,
        };
        request.status = AIComputeStatus::Completed;
        Ok((request, record))
    }

    /// Counts one more completed request for a node.
    pub fn record_completion(node: &mut AINodeInfo<u64>)
        requires
            old(node).total_completed < u64::MAX,
        ensures
            final(node).total_completed == old(node).total_completed + 1,
            final(node).is_active == old(node).is_active,
            final(node).supported_models@ == old(node).supported_models@,
            final(node).total_failed == old(node).total_failed,
            final(node).avg_response_time == old(node).avg_response_time,
            final(node).energy_consumed == old(node).energy_consumed,
            final(node).registered_at == old(node).registered_at,
    {
        node.total_completed += 1;
    }

    /// Cancels a request for its requester `who`, unless it is completed.
    /// A request that is still pending leaves the queue. Returns the payment
    /// to release.
    pub fn cancel_ai_compute_request(
        who: u64,
        request: &Option<AIComputeRequest<u64, u128, u64>>,
        request_id: u64,
        queue: &mut Vec<u64>,
    ) -> (result: Result<u128, Error>)
        ensures
            match result {
                Ok(payment) => {
                    &&& cancel_refusal(who, *request) is None
                    &&& payment == request->0.payment
                    &&& final(queue)@ == if request->0.status == AIComputeStatus::Pending {
                        stored_queue(queue_without(old(queue)@, request_id))
                    } else {
                        old(queue)@
                    }
                },
                Err(e) => {
                    &&& cancel_refusal(who, *request) == Some(e)
                    &&& final(queue)@ == old(queue)@
                },
            },
    {
        let request = match request {
            Some(request) => request,
            None => {
                return Err(Error::AIComputeRequestNotFound);
            },
        };
        if who != request.requester {
            return Err(Error::NotAuthorizedToCancel);
        }
        if request.status == AIComputeStatus::Completed {
            return Err(Error::CannotCancelCompleted);
        }
        if request.status == AIComputeStatus::Pending {
            remove_pending(queue, request_id);
        }
        Ok(request.payment)
    }

    /// Accepts `output_hmac` exactly when it is the digest of `output_hash`
    /// followed by `temporal_key`, and then returns the digest of
    /// `output_hmac`. A mismatch is `AIComputeVerificationFailed`.
    pub fn verify_ai_output_hmac(
        temporal_key: &H512,
        output_hash: &H256,
        output_hmac: &H512,
    ) -> (result: Result<H512, Error>)
        ensures
            result is Ok <==> output_hmac@ == expected_proof(temporal_key@, output_hash@),
            match result {
                Ok(audit_hash) => audit_hash@ == sha3_512_digest(output_hmac@),
                Err(e) => e == Error::AIComputeVerificationFailed,
            },
    {
        match TemporalPallet::verify_ai_output_hmac(temporal_key, output_hash, output_hmac) {
            Ok(audit_hash) => Ok(audit_hash),
            Err(_) => Err(Error::AIComputeVerificationFailed),
        }
    }
}

} // verus!
