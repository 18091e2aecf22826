//! Bitcoin timestamps as a time reference: the acoustic wave that belongs
//! to a timestamp, and bits written as light.

use crate::hash::H256;
use vstd::arithmetic::power2::pow2;
use vstd::prelude::*;

verus! {

/// The header of a Bitcoin block.
#[derive(Clone, Copy, Debug, PartialEq, Eq)]
pub struct BitcoinBlockHeader {
    /// Hash of the block.
    pub block_hash: H256,
    /// Unix timestamp of the block.
    pub timestamp: u64,
    /// Height of the block.
    pub height: u64,
    /// Difficulty target.
    pub bits: u32,
}

/// A colour of light that stands for a bit or for a frequency band.
#[derive(Clone, Copy, Debug, PartialEq, Eq, Structural)]
pub enum PhotonicState {
    /// Red light, the bit 0.
    Red,
    /// Blue light, the bit 1.
    Blue,
    Orange,
    Yellow,
    Green,
    Indigo,
    Violet,
}

/// An acoustic wave tuned to a Bitcoin timestamp.
#[derive(Clone, Copy, Debug, PartialEq, Eq, Structural)]
pub struct TemporalAcousticWave {
    /// The timestamp that the wave was derived from.
    pub btc_timestamp: u64,
    /// Frequency in Hz.
    pub frequency: u64,
    /// Amplitude, 100 to 1099.
    pub amplitude: u16,
    /// Phase offset in degrees.
    pub phase: u16,
    /// Colour of the frequency band.
    pub photonic_color: PhotonicState,
}

/// Why a bridge request was turned down.
#[derive(Clone, Copy, Debug, PartialEq, Eq, Structural)]
pub enum Error {
    /// The connection to Bitcoin failed.
    BitcoinRPCFailed,
    /// Invalid timestamp.
    InvalidTimestamp,
    /// The conversion to light failed.
    PhotonicConversionFailed,
}

/// The colour of a bit: red for 0, blue for anything else.
pub open spec fn bit_state(bit: u8) -> PhotonicState {
    if bit == 0 {
        PhotonicState::Red
    } else {
        PhotonicState::Blue
    }
}

/// The colour of a frequency band.
pub open spec fn band_color(frequency: u64) -> PhotonicState {
    if frequency < 300_000_000 {
        PhotonicState::Red
    } else if frequency < 500_000_000 {
        PhotonicState::Yellow
    } else if frequency < 700_000_000 {
        PhotonicState::Green
    } else {
        PhotonicState::Blue
    }
}

/// The wave of a timestamp: a frequency between 100 MHz and 1 GHz, an
/// amplitude between 100 and 1099, and a phase below 360 degrees.
pub open spec fn acoustic_wave(timestamp: u64) -> TemporalAcousticWave {
    TemporalAcousticWave {
        btc_timestamp: timestamp,
        frequency: (100_000_000 + timestamp % 900_000_000) as u64,
        amplitude: (timestamp % 1000 + 100) as u16,
        phase: (timestamp % 360) as u16,
        photonic_color: band_color((100_000_000 + timestamp % 900_000_000) as u64),
    }
}

/// The light sequence of a byte string: eight colours for each byte, lowest
/// bit first.
pub open spec fn photonic_sequence(data: Seq<u8>) -> Seq<PhotonicState> {
    Seq::new(
        8 * data.len(),
        |j: int| bit_state(((data[j / 8] as nat / pow2((j % 8) as nat)) % 2) as u8),
    )
}

/// The colour on which a sequence agrees: its first, and green for an empty
/// sequence.
pub open spec fn consensus_color(sequence: Seq<PhotonicState>) -> PhotonicState {
    if sequence.len() > 0 {
        sequence[0]
    } else {
        PhotonicState::Green
    }
}

impl PhotonicState {
    /// The colour of a bit: red for 0, blue for anything else.
    pub fn from_bit(bit: u8) -> (state: Self)
        ensures
            state == bit_state(bit),
    {
        if bit == 0 {
            Self::Red
        } else {
            Self::Blue
        }
    }

    /// The wavelength of a colour in nanometres.
    pub open spec fn wavelength_nm(self) -> u16 {
        match self {
            Self::Red => 700,
            Self::Orange => 620,
            Self::Yellow => 580,
            Self::Green => 530,
            Self::Blue => 470,
            Self::Indigo => 450,
            Self::Violet => 400,
        }
    }

    /// The wavelength of a colour in nanometres.
    pub fn wavelength(&self) -> (nm: u16)
        ensures
            nm == self.wavelength_nm(),
    {
        match self {
            Self::Red => 700,
            Self::Orange => 620,
            Self::Yellow => 580,
            Self::Green => 530,
            Self::Blue => 470,
            Self::Indigo => 450,
            Self::Violet => 400,
        }
    }
}

/// The anchor type of the bridge functions.
pub struct Pallet;

impl Pallet {
    /// Derives the acoustic wave of a timestamp.
    pub fn generate_acoustic_wave(timestamp: u64) -> (wave: TemporalAcousticWave)
        ensures
            wave == acoustic_wave(timestamp),
            100_000_000 <= wave.frequency < 1_000_000_000,
            100 <= wave.amplitude < 1100,
            wave.phase < 360,
    {
        let frequency: u64 = 100_000_000 + (timestamp % 900_000_000);
        let amplitude: u16 = ((timestamp % 1000) as u16).saturating_add(100);
        let phase: u16 = (timestamp % 360) as u16;
        let photonic_color = if frequency < 300_000_000 {
            PhotonicState::Red
        } else if frequency < 500_000_000 {
            PhotonicState::Yellow
        } else if frequency < 700_000_000 {
            PhotonicState::Green
        } else {
            PhotonicState::Blue
        };
        TemporalAcousticWave { btc_timestamp: timestamp, frequency, amplitude, phase, photonic_color }
    }

    /// Takes in a Bitcoin block: returns its header and the acoustic wave of
    /// its timestamp.
    pub fn sync_bitcoin_timestamp(block_hash: H256, timestamp: u64, height: u64, bits: u32) -> (synced:
        (BitcoinBlockHeader, TemporalAcousticWave))
        ensures
            synced.0.block_hash == block_hash,
            synced.0.timestamp == timestamp,
            synced.0.height == height,
            synced.0.bits == bits,
            synced.1 == acoustic_wave(timestamp),
    {
        let header = BitcoinBlockHeader { block_hash, timestamp, height, bits };
        let acoustic = Self::generate_acoustic_wave(timestamp);
        (header, acoustic)
    }

    /// Writes each bit of `binary_data` as a colour, the lowest bit of each
    /// byte first.
    pub fn convert_to_photonic(binary_data: &[u8]) -> (photonic: Vec<PhotonicState>)
        requires
            8 * binary_data@.len() <= usize::MAX,
        ensures
            photonic@ == photonic_sequence(binary_data@),
            photonic@.len() == 8 * binary_data@.len(),
    {
        let mut photonic: Vec<PhotonicState> = Vec::new();
        let mut i: usize = 0;
        while i < binary_data.len()
            invariant
                i <= binary_data@.len(),
                photonic@ == photonic_sequence(binary_data@).take(8 * i),
            decreases binary_data@.len() - i,
        {
            let byte: u8 = binary_data[i];
            let mut bit_pos: u8 = 0;
            while bit_pos < 8
                invariant
                    bit_pos <= 8,
                    i < binary_data@.len(),
                    byte == binary_data@[i as int],
                    photonic@ == photonic_sequence(binary_data@).take(8 * i + bit_pos),
                decreases 8 - bit_pos,
            {
                let shifted: u8 = byte >> bit_pos;
                let bit: u8 = shifted & 1;
                proof {
                    vstd::bits::lemma_u8_shr_is_div(byte, bit_pos);
                    assert((shifted & 1) == shifted % 2) by (bit_vector);
                    let j = 8 * i + bit_pos;
                    assert(j / 8 == i);
                    assert(j % 8 == bit_pos);
                }
                photonic.push(PhotonicState::from_bit(bit));
                assert(photonic@ =~= photonic_sequence(binary_data@).take(8 * i + bit_pos + 1));
                bit_pos += 1;
            }
            i += 1;
        }
        assert(photonic@ =~= photonic_sequence(binary_data@));
        photonic
    }

    /// The colour on which a light sequence agrees: its first colour, and
    /// green for an empty sequence.
    pub fn photonic_consensus(photonic_sequence: &[PhotonicState]) -> (color: PhotonicState)
        ensures
            color == consensus_color(photonic_sequence@),
    {
        if photonic_sequence.len() > 0 {
            photonic_sequence[0]
        } else {
            PhotonicState::Green
        }
    }
}

} // verus!
