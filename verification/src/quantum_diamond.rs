//! Spin states of nitrogen-vacancy centres in diamond: how light sets them,
//! how gates change them, and the phonons of the lattice.

use vstd::prelude::*;

verus! {

/// Spin state of a centre.
#[derive(Clone, Copy, Debug, PartialEq, Eq, Structural)]
pub enum NVSpinState {
    /// ms = 0, bright.
    SpinZero,
    /// ms = +1, dim.
    SpinPlusOne,
    /// ms = -1, dim.
    SpinMinusOne,
    /// An equal superposition.
    Superposition,
    /// Entangled with another centre.
    Entangled,
}

/// Mode of a phonon.
#[derive(Clone, Copy, Debug, PartialEq, Eq, Structural)]
pub enum PhononMode {
    /// Longitudinal acoustic.
    LA,
    /// Transverse acoustic.
    TA,
    /// Longitudinal optical.
    LO,
    /// Transverse optical.
    TO,
}

/// A phonon of the diamond lattice.
#[derive(Clone, Copy, Debug, PartialEq, Eq, Structural)]
pub struct DiamondPhonon {
    /// Frequency in Hz.
    pub frequency: u64,
    /// Mode of the phonon.
    pub mode: PhononMode,
    /// Energy in meV.
    pub energy: u32,
    /// Coherence time in nanoseconds.
    pub coherence_time: u64,
}

/// Kind of a quantum operation.
#[derive(Clone, Copy, Debug, PartialEq, Eq, Structural)]
pub enum QuantumOpType {
    /// Set the centre to spin zero.
    Initialize,
    /// Hadamard gate.
    Hadamard,
    /// Bit flip.
    PauliX,
    /// Phase flip.
    PauliZ,
    /// Controlled not.
    CNOT,
    /// Measurement.
    Measure,
    /// Read the fluorescence.
    ReadFluorescence,
}

/// An operation on one centre.
#[derive(Clone, Copy, Debug, PartialEq, Eq, Structural)]
pub struct QuantumOperation {
    /// Kind of the operation.
    pub op_type: QuantumOpType,
    /// The centre that it acts on.
    pub nv_center_id: u64,
    /// Wavelength of the light in nanometres.
    pub wavelength: u16,
    /// Microwave frequency in Hz.
    pub microwave_freq: u64,
    /// Duration in nanoseconds.
    pub duration: u64,
    /// The state that is expected afterwards.
    pub expected_state: NVSpinState,
}

/// State of the whole diamond computer.
#[derive(Clone, Copy, Debug, PartialEq, Eq, Structural)]
pub struct LivingDiamondState {
    pub active_nv_centers: u64,
    pub avg_coherence_time: u64,
    pub temperature: u16,
    pub magnetic_field: u16,
    pub acoustic_shielding: bool,
    pub btc_timestamp: u64,
    pub photonic_heartbeat: u16,
}

/// Why an operation was turned down.
#[derive(Clone, Copy, Debug, PartialEq, Eq, Structural)]
pub enum Error {
    /// No centre with that id.
    NVCenterNotFound,
    /// Decoherence occurred.
    QuantumDecoherence,
    /// The wavelength cannot control a centre.
    InvalidWavelength,
    /// Acoustic shielding failed.
    AcousticShieldingFailed,
}

/// The spin state that light of a wavelength sets: green gives spin zero,
/// red plus one, blue minus one, anything else a superposition.
pub open spec fn state_of_wavelength(wavelength_nm: u16) -> NVSpinState {
    if 500 <= wavelength_nm <= 540 {
        NVSpinState::SpinZero
    } else if 640 <= wavelength_nm <= 760 {
        NVSpinState::SpinPlusOne
    } else if 380 <= wavelength_nm <= 450 {
        NVSpinState::SpinMinusOne
    } else {
        NVSpinState::Superposition
    }
}

/// The state after a gate.
pub open spec fn gate_result(state: NVSpinState, gate: QuantumOpType) -> NVSpinState {
    match gate {
        QuantumOpType::Initialize => NVSpinState::SpinZero,
        QuantumOpType::Hadamard => NVSpinState::Superposition,
        QuantumOpType::PauliX => match state {
            NVSpinState::SpinZero => NVSpinState::SpinPlusOne,
            NVSpinState::SpinPlusOne => NVSpinState::SpinZero,
            _ => state,
        },
        QuantumOpType::PauliZ => state,
        QuantumOpType::CNOT => NVSpinState::Entangled,
        QuantumOpType::Measure => if state == NVSpinState::Superposition {
            NVSpinState::SpinZero
        } else {
            state
        },
        QuantumOpType::ReadFluorescence => state,
    }
}

/// Coherence time of a phonon in nanoseconds: the higher the frequency, the
/// shorter.
pub open spec fn coherence_time(frequency: u64) -> u64 {
    if frequency > 1_000_000_000 {
        1_000
    } else if frequency > 100_000_000 {
        10_000
    } else {
        100_000
    }
}

/// The phonon of a frequency and a mode. Its energy is the frequency in MHz,
/// cut to 32 bits.
pub open spec fn phonon(frequency: u64, mode: PhononMode) -> DiamondPhonon {
    DiamondPhonon {
        frequency,
        mode,
        energy: ((frequency / 1_000_000) % 0x1_0000_0000) as u32,
        coherence_time: coherence_time(frequency),
    }
}

impl NVSpinState {
    /// The spin state that light of a wavelength sets.
    pub fn from_wavelength(wavelength_nm: u16) -> (state: Self)
        ensures
            state == state_of_wavelength(wavelength_nm),
    {
        if 500 <= wavelength_nm && wavelength_nm <= 540 {
            Self::SpinZero
        } else if 640 <= wavelength_nm && wavelength_nm <= 760 {
            Self::SpinPlusOne
        } else if 380 <= wavelength_nm && wavelength_nm <= 450 {
            Self::SpinMinusOne
        } else {
            Self::Superposition
        }
    }

    /// Fluorescence of a state, 0 to 1000.
    pub open spec fn intensity(self) -> u16 {
        match self {
            Self::SpinZero => 1000,
            Self::SpinPlusOne => 300,
            Self::SpinMinusOne => 300,
            Self::Superposition => 650,
            Self::Entangled => 800,
        }
    }

    /// Fluorescence of a state, 0 to 1000.
    pub fn fluorescence_intensity(&self) -> (intensity: u16)
        ensures
            intensity == self.intensity(),
            intensity <= 1000,
    {
        match self {
            Self::SpinZero => 1000,
            Self::SpinPlusOne => 300,
            Self::SpinMinusOne => 300,
            Self::Superposition => 650,
            Self::Entangled => 800,
        }
    }
}

/// The anchor type of the diamond functions.
pub struct Pallet;

impl Pallet {
    /// Sets a centre with a pulse of light.
    pub fn photonic_initialize(wavelength_nm: u16) -> (state: NVSpinState)
        ensures
            state == state_of_wavelength(wavelength_nm),
    {
        NVSpinState::from_wavelength(wavelength_nm)
    }

    /// Applies an operation to the state of its centre. `current_state` is
    /// `None` where the centre is unknown, and the operation is then turned
    /// down.
    pub fn execute_quantum_operation(
        current_state: Option<NVSpinState>,
        operation: &QuantumOperation,
    ) -> (result: Result<NVSpinState, Error>)
        ensures
            result == match current_state {
                Some(state) => Ok::<NVSpinState, Error>(gate_result(state, operation.op_type)),
                None => Err::<NVSpinState, Error>(Error::NVCenterNotFound),
            },
    {
        match current_state {
            Some(state) => Ok(Self::apply_quantum_gate(state, operation.op_type)),
            None => Err(Error::NVCenterNotFound),
        }
    }

    /// Makes the phonon of a frequency and a mode.
    pub fn generate_phonon(frequency: u64, mode: PhononMode) -> (made: DiamondPhonon)
        ensures
            made == phonon(frequency, mode),
    {
        DiamondPhonon {
            frequency,
            mode,
            energy: ((frequency / 1_000_000) % 0x1_0000_0000) as u32,
            coherence_time: Self::calculate_coherence_time(frequency),
        }
    }

    /// The average coherence that a heartbeat reports, in nanoseconds.
    pub fn diamond_heartbeat(photonic_pulses: u16, active_nv: u64) -> (coherence: u64)
        ensures
            coherence == 50_000,
    {
        Self::calculate_avg_coherence()
    }

    /// Entangles two centres: both are left in the entangled state.
    pub fn create_entanglement() -> (states: (NVSpinState, NVSpinState))
        ensures
            states == (NVSpinState::Entangled, NVSpinState::Entangled),
    {
        (NVSpinState::Entangled, NVSpinState::Entangled)
    }

    /// The state after a gate.
    pub fn apply_quantum_gate(state: NVSpinState, gate: QuantumOpType) -> (after: NVSpinState)
        ensures
            after == gate_result(state, gate),
    {
        match gate {
            QuantumOpType::Initialize => NVSpinState::SpinZero,
            QuantumOpType::Hadamard => NVSpinState::Superposition,
            QuantumOpType::PauliX => match state {
                NVSpinState::SpinZero => NVSpinState::SpinPlusOne,
                NVSpinState::SpinPlusOne => NVSpinState::SpinZero,
                _ => state,
            },
            QuantumOpType::PauliZ => state,
            QuantumOpType::CNOT => NVSpinState::Entangled,
            QuantumOpType::Measure => {
                if state == NVSpinState::Superposition {
                    NVSpinState::SpinZero
                } else {
                    state
                }
            },
            QuantumOpType::ReadFluorescence => state,
        }
    }

    /// Coherence time of a phonon in nanoseconds.
    pub fn calculate_coherence_time(frequency: u64) -> (time: u64)
        ensures
            time == coherence_time(frequency),
    {
        if frequency > 1_000_000_000 {
            1_000
        } else if frequency > 100_000_000 {
            10_000
        } else {
            100_000
        }
    }

    /// Average coherence over all centres, in nanoseconds.
    pub fn calculate_avg_coherence() -> (coherence: u64)
        ensures
            coherence == 50_000,
    {
        50_000
    }
}

} // verus!
