//! Three-wave acoustic shielding: how a configuration is made from a
//! strength and a time, and how measurements adjust it.

use vstd::prelude::*;

verus! {

/// Largest amplitude that an adjustment leaves on a wave.
pub const MAX_AMPLITUDE: u16 = 1000;

/// Number of measurements kept for one account.
pub const HISTORY_LIMIT: usize = 100;

/// One acoustic wave.
#[derive(Clone, Copy, Debug, PartialEq, Eq, Structural)]
pub struct AcousticWave {
    /// Frequency in Hz.
    pub frequency: u64,
    /// Amplitude, 0 to 1000.
    pub amplitude: u16,
    /// Phase offset in degrees.
    pub phase: u16,
}

/// The three waves of a shield and its strength.
#[derive(Clone, Copy, Debug, PartialEq, Eq, Structural)]
pub struct ShieldingConfig {
    /// Error detection wave, 1 GHz.
    pub wave_1ghz: AcousticWave,
    /// Phase correction wave, 500 MHz.
    pub wave_500mhz: AcousticWave,
    /// Noise cancellation wave, 100 MHz.
    pub wave_100mhz: AcousticWave,
    /// Strength, 0 to 100.
    pub strength: u8,
}

/// One measurement of a quantum state.
#[derive(Clone, Copy, Debug, PartialEq, Eq, Structural)]
pub struct QuantumMetrics {
    /// Decoherence rate; lower is better.
    pub decoherence_rate: u32,
    /// Phase stability; higher is better.
    pub phase_stability: u32,
    /// Efficiency of error correction.
    pub error_efficiency: u32,
    /// Time of the measurement, in seconds.
    pub timestamp: u64,
}

/// Why a shielding request was turned down.
#[derive(Clone, Copy, Debug, PartialEq, Eq, Structural)]
pub enum Error {
    /// Invalid wave parameters.
    InvalidWaveParameters,
    /// No shielding configuration is stored.
    ShieldingConfigNotFound,
    /// Insufficient permissions.
    InsufficientPermissions,
    /// The quantum state is unstable.
    QuantumStateUnstable,
    /// The interference could not be calculated.
    InterferenceCalculationFailed,
}

/// The configuration for a strength at a time in seconds: amplitudes of ten,
/// eight and six times the strength, phases of one, two and three times the
/// timestamp modulo 360.
pub open spec fn shielding_config(strength: u8, timestamp: u64) -> ShieldingConfig {
    ShieldingConfig {
        wave_1ghz: AcousticWave {
            frequency: 1_000_000_000,
            amplitude: (strength * 10) as u16,
            phase: (timestamp % 360) as u16,
        },
        wave_500mhz: AcousticWave {
            frequency: 500_000_000,
            amplitude: ((strength * 10) * 8 / 10) as u16,
            phase: ((timestamp * 2) % 360) as u16,
        },
        wave_100mhz: AcousticWave {
            frequency: 100_000_000,
            amplitude: ((strength * 10) * 6 / 10) as u16,
            phase: ((timestamp * 3) % 360) as u16,
        },
        strength,
    }
}

/// Percentage by which a decoherence rate changes the amplitudes: 120 above
/// 1000, 80 below 100, 100 otherwise.
pub open spec fn adjustment_factor(decoherence_rate: u32) -> int {
    if decoherence_rate > 1000 {
        120
    } else if decoherence_rate < 100 {
        80
    } else {
        100
    }
}

/// An amplitude after adjustment: scaled by the factor, cut to 16 bits,
/// and held at [`MAX_AMPLITUDE`].
pub open spec fn adjusted_amplitude(amplitude: u16, factor: int) -> int {
    let scaled = (amplitude * factor / 100) % 65536;
    if scaled > MAX_AMPLITUDE {
        MAX_AMPLITUDE as int
    } else {
        scaled
    }
}

/// A wave with its amplitude adjusted.
pub open spec fn adjusted_wave(wave: AcousticWave, factor: int) -> AcousticWave {
    AcousticWave { amplitude: adjusted_amplitude(wave.amplitude, factor) as u16, ..wave }
}

/// A configuration after a measurement.
pub open spec fn adjusted_config(config: ShieldingConfig, metrics: QuantumMetrics) -> ShieldingConfig {
    let factor = adjustment_factor(metrics.decoherence_rate);
    ShieldingConfig {
        wave_1ghz: adjusted_wave(config.wave_1ghz, factor),
        wave_500mhz: adjusted_wave(config.wave_500mhz, factor),
        wave_100mhz: adjusted_wave(config.wave_100mhz, factor),
        strength: config.strength,
    }
}

impl ShieldingConfig {
    /// A shield is well formed when its strength does not pass 100 and no
    /// amplitude passes [`MAX_AMPLITUDE`].
    pub open spec fn wf(&self) -> bool {
        &&& self.strength <= 100
        &&& self.wave_1ghz.amplitude <= MAX_AMPLITUDE
        &&& self.wave_500mhz.amplitude <= MAX_AMPLITUDE
        &&& self.wave_100mhz.amplitude <= MAX_AMPLITUDE
    }
}

/// Adjusts one amplitude by a factor in percent.
fn adjust_amplitude(amplitude: u16, factor: u32) -> (adjusted: u16)
    requires
        factor <= 120,
    ensures
        adjusted == adjusted_amplitude(amplitude, factor as int),
        adjusted <= MAX_AMPLITUDE,
{
    assert(amplitude * factor <= 65535 * 120) by (nonlinear_arith)
        requires
            amplitude <= 65535,
            factor <= 120,
    ;
    let scaled: u32 = (amplitude as u32 * factor / 100) % 65536;
    if scaled > MAX_AMPLITUDE as u32 {
        MAX_AMPLITUDE
    } else {
        scaled as u16
    }
}

/// The anchor type of the shielding functions.
pub struct Pallet;

impl Pallet {
    /// Makes the configuration for `strength` at `timestamp`, in seconds.
    pub fn generate_shielding_config(strength: u8, timestamp: u64) -> (result: Result<
        ShieldingConfig,
        Error,
    >)
        requires
            timestamp * 3 <= u64::MAX,
        ensures
            result == Ok::<ShieldingConfig, Error>(shielding_config(strength, timestamp)),
    {
        let base_amplitude: u16 = (strength as u16) * 10;

        let wave_1ghz = AcousticWave {
            frequency: 1_000_000_000,
            amplitude: base_amplitude,
            phase: (timestamp % 360) as u16,
        };
        let wave_500mhz = AcousticWave {
            frequency: 500_000_000,
            amplitude: base_amplitude * 8 / 10,
            phase: ((timestamp * 2) % 360) as u16,
        };
        let wave_100mhz = AcousticWave {
            frequency: 100_000_000,
            amplitude: base_amplitude * 6 / 10,
            phase: ((timestamp * 3) % 360) as u16,
        };

        Ok(ShieldingConfig { wave_1ghz, wave_500mhz, wave_100mhz, strength })
    }

    /// Activates shielding at `now_millis`, a time in milliseconds: a
    /// strength above 100 is turned down, any other gives the configuration
    /// for the second in which the time falls.
    pub fn activate_shielding(strength: u8, now_millis: u64) -> (result: Result<
        ShieldingConfig,
        Error,
    >)
        ensures
            result == if strength <= 100 {
                Ok::<ShieldingConfig, Error>(shielding_config(strength, now_millis / 1000))
            } else {
                Err::<ShieldingConfig, Error>(Error::InvalidWaveParameters)
            },
            result is Ok ==> result->Ok_0.wf(),
    {
        if strength > 100 {
            return Err(Error::InvalidWaveParameters);
        }
        let timestamp: u64 = now_millis / 1000;
        Self::generate_shielding_config(strength, timestamp)
    }

    /// Adjusts the three amplitudes of `config` to a measurement.
    pub fn adjust_shielding(config: &mut ShieldingConfig, metrics: &QuantumMetrics) -> (result:
        Result<(), Error>)
        ensures
            result is Ok,
            *final(config) == adjusted_config(*old(config), *metrics),
            final(config).wave_1ghz.amplitude <= MAX_AMPLITUDE,
            final(config).wave_500mhz.amplitude <= MAX_AMPLITUDE,
            final(config).wave_100mhz.amplitude <= MAX_AMPLITUDE,
            old(config).wf() ==> final(config).wf(),
    {
        let adjustment_factor: u32 = if metrics.decoherence_rate > 1000 {
            120
        } else if metrics.decoherence_rate < 100 {
            80
        } else {
            100
        };
        config.wave_1ghz.amplitude = adjust_amplitude(config.wave_1ghz.amplitude, adjustment_factor);
        config.wave_500mhz.amplitude = adjust_amplitude(
            config.wave_500mhz.amplitude,
            adjustment_factor,
        );
        config.wave_100mhz.amplitude = adjust_amplitude(
            config.wave_100mhz.amplitude,
            adjustment_factor,
        );
        Ok(())
    }

    /// Records a measurement taken at `now_millis`: adds it to `history`
    /// while the history holds fewer than [`HISTORY_LIMIT`] entries, and
    /// adjusts the configuration if there is one. Returns the global
    /// effectiveness.
    pub fn record_quantum_metrics(
        history: &mut Vec<QuantumMetrics>,
        config: &mut Option<ShieldingConfig>,
        decoherence_rate: u32,
        phase_stability: u32,
        error_efficiency: u32,
        now_millis: u64,
    ) -> (effectiveness: u32)
        ensures
            effectiveness == 750,
            final(history)@ == if old(history)@.len() < HISTORY_LIMIT {
                old(history)@.push(
                    (QuantumMetrics {
                        decoherence_rate,
                        phase_stability,
                        error_efficiency,
                        timestamp: now_millis / 1000,
                    }),
                )
            } else {
                old(history)@
            },
            *final(config) == match *old(config) {
                Some(before) => Some(
                    adjusted_config(
                        before,
                        (QuantumMetrics {
                            decoherence_rate,
                            phase_stability,
                            error_efficiency,
                            timestamp: now_millis / 1000,
                        }),
                    ),
                ),
                None => None,
            },
    {
        let metrics = QuantumMetrics {
            decoherence_rate,
            phase_stability,
            error_efficiency,
            timestamp: now_millis / 1000,
        };
        if history.len() < HISTORY_LIMIT {
            history.push(metrics);
        }
        match *config {
            Some(mut current) => {
                let _ = Self::adjust_shielding(&mut current, &metrics);
                *config = Some(current);
            },
            None => {},
        }
        Self::calculate_global_effectiveness()
    }

    /// The effectiveness of all shields together, in thousandths.
    pub fn calculate_global_effectiveness() -> (effectiveness: u32)
        ensures
            effectiveness == 750,
    {
        750
    }
}

} // verus!
