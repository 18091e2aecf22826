use luxbin_core::ai_compute::{AIComputeStatus, Error};
use luxbin_core::hash::{H256, H512};
use luxbin_core::temporal_crypto::Pallet as TemporalCrypto;
use sha3::{Digest, Sha3_512};

fn proof_for(key: &H512, output_hash: &H256) -> H512 {
    let mut message = output_hash.as_bytes().to_vec();
    message.extend_from_slice(key.as_bytes());
    let mut out = [0u8; 64];
    out.copy_from_slice(&Sha3_512::digest(&message));
    H512(out)
}

#[test]
fn nodes_register_once() {
    assert_eq!(TemporalCrypto::register_ai_node(false), Ok(true));
    assert_eq!(TemporalCrypto::register_ai_node(true), Err(Error::AINodeAlreadyRegistered));
    assert_eq!(TemporalCrypto::unregister_ai_node(true), Ok(()));
    assert_eq!(TemporalCrypto::unregister_ai_node(false), Err(Error::AINodeNotRegistered));
}

#[test]
fn gated_request_runs_to_a_verified_result() {
    let key = TemporalCrypto::compute_temporal_key(1000, b"SECURE PAYMENT").unwrap();
    let request_hash = H256([5u8; 32]);
    assert_eq!(
        TemporalCrypto::submit_ai_compute_request(1, key, request_hash, 1000, false, 1000000, 0),
        Err(Error::InsufficientBalance)
    );
    let (request, next_id) =
        TemporalCrypto::submit_ai_compute_request(1, key, request_hash, 1000, true, 1000999, 0)
            .unwrap();
    assert_eq!(next_id, 1);
    assert_eq!(request.requester, 1);
    assert_eq!(request.temporal_key, key);
    assert_eq!(request.request_hash, request_hash);
    assert_eq!(request.timestamp, 1000);
    assert_eq!(request.payment, 1000);
    assert_eq!(request.assigned_node, None);
    assert_eq!(request.status, AIComputeStatus::Pending);

    assert_eq!(
        TemporalCrypto::assign_ai_compute_request(2, false, Some(request)),
        Err(Error::AINodeNotRegistered)
    );
    assert_eq!(
        TemporalCrypto::assign_ai_compute_request(2, true, None),
        Err(Error::AIComputeRequestNotFound)
    );
    let assigned = TemporalCrypto::assign_ai_compute_request(2, true, Some(request)).unwrap();
    assert_eq!(assigned.assigned_node, Some(2));
    assert_eq!(assigned.status, AIComputeStatus::Assigned);
    assert_eq!(assigned.payment, 1000);
    assert_eq!(
        TemporalCrypto::assign_ai_compute_request(3, true, Some(assigned)),
        Err(Error::InvalidAIComputeRequest)
    );

    let output_hash = H256([6u8; 32]);
    let proof = proof_for(&key, &output_hash);
    assert_eq!(
        TemporalCrypto::submit_ai_compute_result(2, None, output_hash, proof),
        Err(Error::AIComputeRequestNotFound)
    );
    assert_eq!(
        TemporalCrypto::submit_ai_compute_result(3, Some(assigned), output_hash, proof),
        Err(Error::NotAuthorizedNode)
    );
    assert_eq!(
        TemporalCrypto::submit_ai_compute_result(2, Some(request), output_hash, proof),
        Err(Error::NotAuthorizedNode)
    );
    assert_eq!(
        TemporalCrypto::submit_ai_compute_result(2, Some(assigned), H256([7u8; 32]), proof),
        Err(Error::AIComputeVerificationFailed)
    );
    let (completed, record) =
        TemporalCrypto::submit_ai_compute_result(2, Some(assigned), output_hash, proof).unwrap();
    assert_eq!(completed.status, AIComputeStatus::Completed);
    assert_eq!(completed.assigned_node, Some(2));
    assert_eq!(completed.requester, 1);
    assert_eq!(record.node, 2);
    assert_eq!(record.output_hash, output_hash);
    assert_eq!(record.output_hmac, proof);
    assert_eq!(record.temporal_proof.as_bytes(), &Sha3_512::digest(proof.as_bytes())[..]);
    assert_eq!(
        TemporalCrypto::submit_ai_compute_result(2, Some(completed), output_hash, proof),
        Err(Error::RequestAlreadyCompleted)
    );
}
