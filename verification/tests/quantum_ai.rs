use luxbin_core::hash::H256;
use luxbin_core::quantum_ai::{
    ChainId, EnergyData, EnergyOptimizationRequest, Error, LightColor, NeuralState,
    Pallet as QuantumAI, PhotonicVision, RequestStatus, ThreatAnalysisResult, ThreatData,
    TransactionData, UrgencyLevel,
};

fn transaction() -> TransactionData {
    TransactionData {
        from_address: H256([1u8; 32]),
        to_address: H256([2u8; 32]),
        value: 10,
        gas_price: 20,
        gas_limit: 30,
        block_number: 40,
    }
}

#[test]
fn requests_start_pending() {
    let (request, next) = QuantumAI::request_threat_analysis(7, transaction(), 0, 1000);
    assert_eq!(request.requester, 7);
    assert_eq!(request.tx_data, transaction());
    assert_eq!(request.timestamp, 1000);
    assert_eq!(request.status, RequestStatus::Pending);
    assert_eq!(next, 1);

    let (request, next) = QuantumAI::request_energy_optimization(7, 12, UrgencyLevel::High, 5, 1000);
    assert_eq!(
        request,
        EnergyOptimizationRequest {
            requester: 7,
            pending_transactions: 12,
            urgency_level: UrgencyLevel::High,
            timestamp: 1000,
            status: RequestStatus::Pending,
        }
    );
    assert_eq!(next, 6);

    let (request, next) =
        QuantumAI::request_quantum_eyes_decode(7, H256([3u8; 32]), u64::MAX - 1, 1000);
    assert_eq!(request.tx_hash, H256([3u8; 32]));
    assert_eq!(request.status, RequestStatus::Pending);
    assert_eq!(next, u64::MAX);
}

#[test]
fn thresholds_must_rise() {
    let chains = vec![ChainId::Base, ChainId::Polygon];
    let config = QuantumAI::configure_neural_params(10, 50, 90, chains.clone()).unwrap();
    assert_eq!(config.low_threshold, 10);
    assert_eq!(config.medium_threshold, 50);
    assert_eq!(config.high_threshold, 90);
    assert_eq!(config.enabled_chains, chains);
    assert_eq!(
        QuantumAI::configure_neural_params(50, 50, 90, vec![]),
        Err(Error::InvalidThresholds)
    );
    assert_eq!(
        QuantumAI::configure_neural_params(10, 90, 90, vec![]),
        Err(Error::InvalidThresholds)
    );
    assert_eq!(
        QuantumAI::configure_neural_params(90, 50, 10, vec![]),
        Err(Error::InvalidThresholds)
    );
    assert!(QuantumAI::configure_neural_params(0, 1, 2, vec![]).is_ok());
}

#[test]
fn chain_numbers() {
    assert_eq!(ChainId::Base.number(), 1);
    assert_eq!(ChainId::Ethereum.number(), 2);
    assert_eq!(ChainId::Arbitrum.number(), 3);
    assert_eq!(ChainId::Polygon.number(), 4);
}

#[test]
fn only_workers_submit() {
    let result = ThreatAnalysisResult { threat_probability: 77, timestamp: 5 };
    let (request, _) = QuantumAI::request_threat_analysis(7, transaction(), 0, 1000);
    assert_eq!(
        QuantumAI::submit_threat_analysis_result(false, Some(request), &result),
        Err(Error::Unauthorized)
    );
    let (stored, level) =
        QuantumAI::submit_threat_analysis_result(true, Some(request), &result).unwrap();
    assert_eq!(level, 77);
    let stored = stored.unwrap();
    assert_eq!(stored.status, RequestStatus::Completed);
    assert_eq!(stored.requester, 7);
    assert_eq!(stored.timestamp, 1000);
    assert_eq!(QuantumAI::submit_threat_analysis_result(true, None, &result), Ok((None, 77)));

    let (request, _) = QuantumAI::request_energy_optimization(7, 12, UrgencyLevel::Low, 5, 1000);
    assert_eq!(
        QuantumAI::submit_energy_optimization_result(false, Some(request)),
        Err(Error::Unauthorized)
    );
    let stored = QuantumAI::submit_energy_optimization_result(true, Some(request)).unwrap();
    assert_eq!(
        stored,
        Some(EnergyOptimizationRequest { status: RequestStatus::Completed, ..request })
    );
    assert_eq!(QuantumAI::submit_energy_optimization_result(true, None), Ok(None));

    let vision = PhotonicVision {
        tx_hash: H256([3u8; 32]),
        left_eye: vec![],
        right_eye: vec![],
        color: LightColor::Cyan,
        quantum_state: vec![],
        decoded_message: vec![],
        timestamp: 9,
    };
    let (request, _) = QuantumAI::request_quantum_eyes_decode(7, H256([3u8; 32]), 0, 1000);
    assert_eq!(
        QuantumAI::submit_quantum_eyes(false, Some(request), &vision),
        Err(Error::Unauthorized)
    );
    let (stored, color) = QuantumAI::submit_quantum_eyes(true, Some(request), &vision).unwrap();
    assert_eq!(color, LightColor::Cyan);
    assert_eq!(stored.unwrap().status, RequestStatus::Completed);
}

#[test]
fn worker_reports() {
    let threat = ThreatData {
        threat_probability: 12,
        cross_chain_risk: 1,
        quantum_advantage: 2,
        predicted_attacks: vec![],
        timestamp: 3,
        block_hash: H256([0u8; 32]),
    };
    assert_eq!(QuantumAI::submit_threat_prediction(true, &threat), Ok(12));
    assert_eq!(QuantumAI::submit_threat_prediction(false, &threat), Err(Error::Unauthorized));

    let state = NeuralState {
        chain_id: ChainId::Arbitrum,
        model_hash: H256([0u8; 32]),
        accuracy: 93,
        total_detected: 1,
        false_positives: 0,
        last_trained_block: 4,
        round_number: 2,
    };
    assert_eq!(QuantumAI::update_neural_state(true, &state), Ok(93));
    assert_eq!(QuantumAI::update_neural_state(false, &state), Err(Error::Unauthorized));

    let grid = EnergyData {
        fleet_capacity_kwh: 1,
        available_capacity_kwh: 2,
        grid_demand: 64,
        electricity_price: 3,
        arbitrage_profit: 4,
        carbon_offset_kg: 5,
        compute_load: 6,
        timestamp: 7,
    };
    assert_eq!(QuantumAI::submit_grid_metrics(true, &grid), Ok(64));
    assert_eq!(QuantumAI::submit_grid_metrics(false, &grid), Err(Error::Unauthorized));
}

#[test]
fn unknown_workers_are_not_authorised() {
    assert!(QuantumAI::is_authorized_worker(Some(true)));
    assert!(!QuantumAI::is_authorized_worker(Some(false)));
    assert!(!QuantumAI::is_authorized_worker(None));
}
