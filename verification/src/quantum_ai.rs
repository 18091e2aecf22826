//! Requests to the off-chain analysis workers: how a request is made, what
//! a worker may submit, and how a result closes a request. The caller keeps
//! the records.

use crate::hash::H256;
use vstd::prelude::*;

verus! {

/// Where a request stands.
#[derive(Clone, Copy, Debug, PartialEq, Eq, Structural)]
pub enum RequestStatus {
    Pending,
    Processing,
    Completed,
    Failed,
}

/// A chain that the neural analyser watches.
#[derive(Clone, Copy, Debug, PartialEq, Eq, Hash, Structural)]
pub enum ChainId {
    Base,
    Ethereum,
    Arbitrum,
    Polygon,
}

/// A kind of attack.
#[derive(Clone, Debug, PartialEq, Eq)]
pub enum AttackType {
    MEVSandwich,
    FrontRunning,
    FlashLoan,
    ReentrancyAttack,
    CrossChainBridge,
    OracleManipulation,
    GovernanceAttack,
    Custom(Vec<u8>),
}

/// A colour that the quantum eyes report.
#[derive(Clone, Copy, Debug, PartialEq, Eq, Structural)]
pub enum LightColor {
    Red,
    Orange,
    Yellow,
    Green,
    Cyan,
    Blue,
    Violet,
}

/// Polarisation of a photon.
#[derive(Clone, Copy, Debug, PartialEq, Eq, Structural)]
pub enum Polarization {
    Horizontal,
    Vertical,
    Diagonal,
    Circular,
}

/// How urgent an energy optimisation is.
#[derive(Clone, Copy, Debug, PartialEq, Eq, Structural)]
pub enum UrgencyLevel {
    Low,
    Normal,
    High,
}

/// The transaction that a threat analysis looks at.
#[derive(Clone, Copy, Debug, PartialEq, Eq)]
pub struct TransactionData {
    pub from_address: H256,
    pub to_address: H256,
    pub value: u128,
    pub gas_price: u64,
    pub gas_limit: u64,
    pub block_number: u32,
}

/// A request for a threat analysis.
#[derive(Clone, Copy, Debug, PartialEq, Eq)]
pub struct ThreatAnalysisRequest {
    pub requester: u64,
    pub tx_data: TransactionData,
    pub timestamp: u64,
    pub status: RequestStatus,
}

/// The result of a threat analysis.
#[derive(Clone, Copy, Debug, PartialEq, Eq, Structural)]
pub struct ThreatAnalysisResult {
    /// Probability of a threat, 0 to 100.
    pub threat_probability: u8,
    pub timestamp: u64,
}

/// The thresholds and chains that a user chose.
#[derive(Clone, Debug, PartialEq, Eq)]
pub struct NeuralConfig {
    pub low_threshold: u8,
    pub medium_threshold: u8,
    pub high_threshold: u8,
    pub enabled_chains: Vec<ChainId>,
}

/// State of the neural analyser for one chain.
#[derive(Clone, Copy, Debug, PartialEq, Eq)]
pub struct NeuralState {
    pub chain_id: ChainId,
    pub model_hash: H256,
    pub accuracy: u8,
    pub total_detected: u64,
    pub false_positives: u64,
    pub last_trained_block: u64,
    pub round_number: u32,
}

/// A request for an energy optimisation.
#[derive(Clone, Copy, Debug, PartialEq, Eq, Structural)]
pub struct EnergyOptimizationRequest {
    pub requester: u64,
    pub pending_transactions: u32,
    pub urgency_level: UrgencyLevel,
    pub timestamp: u64,
    pub status: RequestStatus,
}

/// The result of an energy optimisation.
#[derive(Clone, Debug, PartialEq, Eq)]
pub struct EnergyOptimizationResult {
    pub charge_from_grid: bool,
    pub discharge_to_grid: bool,
    pub power_compute_kw: u32,
    pub battery_power_kw: u32,
    pub grid_power_kw: u32,
    pub reasoning: Vec<u8>,
    pub timestamp: u64,
}

/// Measurements of the grid.
#[derive(Clone, Copy, Debug, PartialEq, Eq, Structural)]
pub struct EnergyData {
    pub fleet_capacity_kwh: u32,
    pub available_capacity_kwh: u32,
    pub grid_demand: u8,
    pub electricity_price: u16,
    pub arbitrage_profit: u32,
    pub carbon_offset_kg: u32,
    pub compute_load: u8,
    pub timestamp: u64,
}

/// A request to decode a transaction with the quantum eyes.
#[derive(Clone, Copy, Debug, PartialEq, Eq)]
pub struct QuantumEyesRequest {
    pub requester: u64,
    pub tx_hash: H256,
    pub timestamp: u64,
    pub status: RequestStatus,
}

/// One photon.
#[derive(Clone, Copy, Debug, PartialEq, Eq, Structural)]
pub struct Photon {
    pub wavelength: u16,
    pub energy: u16,
    pub polarization: Polarization,
}

/// What the quantum eyes saw of a transaction.
#[derive(Clone, Debug, PartialEq, Eq)]
pub struct PhotonicVision {
    pub tx_hash: H256,
    pub left_eye: Vec<Photon>,
    pub right_eye: Vec<Photon>,
    pub color: LightColor,
    pub quantum_state: Vec<u8>,
    pub decoded_message: Vec<u8>,
    pub timestamp: u64,
}

/// A threat prediction for a block.
#[derive(Clone, Debug, PartialEq, Eq)]
pub struct ThreatData {
    pub threat_probability: u8,
    pub cross_chain_risk: u8,
    pub quantum_advantage: u8,
    pub predicted_attacks: Vec<AttackType>,
    pub timestamp: u64,
    pub block_hash: H256,
}

/// Why a request was turned down.
#[derive(Clone, Copy, Debug, PartialEq, Eq, Structural)]
pub enum Error {
    /// The worker is not authorised.
    Unauthorized,
    /// The thresholds do not rise from low to high.
    InvalidThresholds,
    /// No such request.
    RequestNotFound,
    /// The request is already completed.
    RequestAlreadyCompleted,
}

impl ChainId {
    /// The number of a chain: 1 for Base, 2 for Ethereum, 3 for Arbitrum, 4
    /// for Polygon.
    pub fn number(self) -> (n: u8)
        ensures
            n == match self {
                ChainId::Base => 1u8,
                ChainId::Ethereum => 2u8,
                ChainId::Arbitrum => 3u8,
                ChainId::Polygon => 4u8,
            },
    {
        match self {
            ChainId::Base => 1,
            ChainId::Ethereum => 2,
            ChainId::Arbitrum => 3,
            ChainId::Polygon => 4,
        }
    }
}

/// The anchor type of the worker request functions.
pub struct Pallet;

impl Pallet {
    /// Makes a pending request for a threat analysis. Returns the request
    /// and the id of the next.
    pub fn request_threat_analysis(
        who: u64,
        tx_data: TransactionData,
        request_id: u64,
        timestamp: u64,
    ) -> (made: (ThreatAnalysisRequest, u64))
        requires
            request_id < u64::MAX,
        ensures
            made.0 == (ThreatAnalysisRequest {
                requester: who,
                tx_data,
                timestamp,
                status: RequestStatus::Pending,
            }),
            made.1 == request_id + 1,
    {
        (
            ThreatAnalysisRequest { requester: who, tx_data, timestamp, status: RequestStatus::Pending },
            request_id + 1,
        )
    }

    /// Takes in the thresholds of a user, which must rise strictly from low
    /// over medium to high.
    pub fn configure_neural_params(
        low_threshold: u8,
        medium_threshold: u8,
        high_threshold: u8,
        enabled_chains: Vec<ChainId>,
    ) -> (result: Result<NeuralConfig, Error>)
        ensures
            result is Ok <==> low_threshold < medium_threshold < high_threshold,
            match result {
                Ok(config) => {
                    &&& config.low_threshold == low_threshold
                    &&& config.medium_threshold == medium_threshold
                    &&& config.high_threshold == high_threshold
                    &&& config.enabled_chains@ == enabled_chains@
                },
                Err(e) => e == Error::InvalidThresholds,
            },
    {
        if !(low_threshold < medium_threshold) {
            return Err(Error::InvalidThresholds);
        }
        if !(medium_threshold < high_threshold) {
            return Err(Error::InvalidThresholds);
        }
        Ok(NeuralConfig { low_threshold, medium_threshold, high_threshold, enabled_chains })
    }

    /// Makes a pending request for an energy optimisation. Returns the
    /// request and the id of the next.
    pub fn request_energy_optimization(
        who: u64,
        pending_transactions: u32,
        urgency_level: UrgencyLevel,
        request_id: u64,
        timestamp: u64,
    ) -> (made: (EnergyOptimizationRequest, u64))
        requires
            request_id < u64::MAX,
        ensures
            made.0 == (EnergyOptimizationRequest {
                requester: who,
                pending_transactions,
                urgency_level,
                timestamp,
                status: RequestStatus::Pending,
            }),
            made.1 == request_id + 1,
    {
        (
            EnergyOptimizationRequest {
                requester: who,
                pending_transactions,
                urgency_level,
                timestamp,
                status: RequestStatus::Pending,
            },
            request_id + 1,
        )
    }

    /// Makes a pending request to decode a transaction. Returns the request
    /// and the id of the next.
    pub fn request_quantum_eyes_decode(who: u64, tx_hash: H256, request_id: u64, timestamp: u64) -> (made:
        (QuantumEyesRequest, u64))
        requires
            request_id < u64::MAX,
        ensures
            made.0 == (QuantumEyesRequest {
                requester: who,
                tx_hash,
                timestamp,
                status: RequestStatus::Pending,
            }),
            made.1 == request_id + 1,
    {
        (
            QuantumEyesRequest { requester: who, tx_hash, timestamp, status: RequestStatus::Pending },
            request_id + 1,
        )
    }

    /// Takes in the result of a threat analysis from a worker. The request,
    /// if there is one, is completed. Returns the request to store and the
    /// threat level to report.
    pub fn submit_threat_analysis_result(
        authorized: bool,
        request: Option<ThreatAnalysisRequest>,
        result: &ThreatAnalysisResult,
    ) -> (outcome: Result<(Option<ThreatAnalysisRequest>, u8), Error>)
        ensures
            outcome == if authorized {
                Ok::<(Option<ThreatAnalysisRequest>, u8), Error>(
                    (
                        match request {
                            Some(r) => Some(
                                (ThreatAnalysisRequest { status: RequestStatus::Completed, ..r }),
                            ),
                            None => None,
                        },
                        result.threat_probability,
                    ),
                )
            } else {
                Err::<(Option<ThreatAnalysisRequest>, u8), Error>(Error::Unauthorized)
            },
    {
        if !authorized {
            return Err(Error::Unauthorized);
        }
        let stored = match request {
            Some(mut r) => {
                r.status = RequestStatus::Completed;
                Some(r)
            },
            None => None,
        };
        Ok((stored, result.threat_probability))
    }

    /// Takes in a threat prediction from a worker. Returns the threat level
    /// to report.
    pub fn submit_threat_prediction(authorized: bool, threat_data: &ThreatData) -> (outcome: Result<
        u8,
        Error,
    >)
        ensures
            outcome == if authorized {
                Ok::<u8, Error>(threat_data.threat_probability)
            } else {
                Err::<u8, Error>(Error::Unauthorized)
            },
    {
        if !authorized {
            return Err(Error::Unauthorized);
        }
        Ok(threat_data.threat_probability)
    }

    /// Takes in the state of the neural analyser from a worker. Returns the
    /// accuracy to report.
    pub fn update_neural_state(authorized: bool, neural_state: &NeuralState) -> (outcome: Result<
        u8,
        Error,
    >)
        ensures
            outcome == if authorized {
                Ok::<u8, Error>(neural_state.accuracy)
            } else {
                Err::<u8, Error>(Error::Unauthorized)
            },
    {
        if !authorized {
            return Err(Error::Unauthorized);
        }
        Ok(neural_state.accuracy)
    }

    /// Takes in grid measurements from a worker. Returns the demand to
    /// report.
    pub fn submit_grid_metrics(authorized: bool, energy_data: &EnergyData) -> (outcome: Result<
        u8,
        Error,
    >)
        ensures
            outcome == if authorized {
                Ok::<u8, Error>(energy_data.grid_demand)
            } else {
                Err::<u8, Error>(Error::Unauthorized)
            },
    {
        if !authorized {
            return Err(Error::Unauthorized);
        }
        Ok(energy_data.grid_demand)
    }

    /// Takes in the result of an energy optimisation from a worker. The
    /// request, if there is one, is completed. Returns the request to store.
    pub fn submit_energy_optimization_result(
        authorized: bool,
        request: Option<EnergyOptimizationRequest>,
    ) -> (outcome: Result<Option<EnergyOptimizationRequest>, Error>)
        ensures
            outcome == if authorized {
                Ok::<Option<EnergyOptimizationRequest>, Error>(
                    match request {
                        Some(r) => Some(
                            (EnergyOptimizationRequest { status: RequestStatus::Completed, ..r }),
                        ),
                        None => None,
                    },
                )
            } else {
                Err::<Option<EnergyOptimizationRequest>, Error>(Error::Unauthorized)
            },
    {
        if !authorized {
            return Err(Error::Unauthorized);
        }
        Ok(
            match request {
                Some(mut r) => {
                    r.status = RequestStatus::Completed;
                    Some(r)
                },
                None => None,
            },
        )
    }

    /// Takes in what the quantum eyes saw, from a worker. The request, if
    /// there is one, is completed. Returns the request to store and the
    /// colour to report.
    pub fn submit_quantum_eyes(
        authorized: bool,
        request: Option<QuantumEyesRequest>,
        photonic_vision: &PhotonicVision,
    ) -> (outcome: Result<(Option<QuantumEyesRequest>, LightColor), Error>)
        ensures
            outcome == if authorized {
                Ok::<(Option<QuantumEyesRequest>, LightColor), Error>(
                    (
                        match request {
                            Some(r) => Some(
                                (QuantumEyesRequest { status: RequestStatus::Completed, ..r }),
                            ),
                            None => None,
                        },
                        photonic_vision.color,
                    ),
                )
            } else {
                Err::<(Option<QuantumEyesRequest>, LightColor), Error>(Error::Unauthorized)
            },
    {
        if !authorized {
            return Err(Error::Unauthorized);
        }
        let stored = match request {
            Some(mut r) => {
                r.status = RequestStatus::Completed;
                Some(r)
            },
            None => None,
        };
        Ok((stored, photonic_vision.color))
    }

    /// Says whether a worker is authorised, given what is recorded of it: a
    /// worker without a record is not.
    pub fn is_authorized_worker(recorded: Option<bool>) -> (authorized: bool)
        ensures
            authorized == (recorded == Some(true)),
    {
        match recorded {
            Some(flag) => flag,
            None => false,
        }
    }
}

} // verus!
