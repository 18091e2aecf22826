//! The consensus scorer: five bounded sub-scores of a block's metadata,
//! their normalised product, and the accept decision.
//!
//! All values are integers that stand for thousandths.

use crate::ldd::{clamp, sat_mul, sin_milli, sine_milli, LddComponents, FULL_TURN, SCALE};
use vstd::prelude::*;

verus! {

/// Length of one block period, in the unit of block times.
pub const TARGET_PERIOD: u64 = 6000;

/// Energy barrier of the entropy term.
pub const ACTIVATION_ENERGY: u64 = 25;

/// Boltzmann constant of the entropy term.
pub const BOLTZMANN: u64 = 1;

/// The scale of a product of five factors over the scale of one.
pub const PRODUCT_SCALE: u128 = 1_000_000_000_000;

/// The parameters of the scorer.
#[derive(Clone, Copy, Debug, PartialEq, Eq, Structural)]
pub struct ConsensusParams {
    /// Sharpness of the resistance to reorganisation: how fast stability
    /// falls with finality depth.
    pub beta: u32,
    /// Radius of gossip coupling: the distance at which coupling has halved.
    pub lambda: u32,
    /// Throughput scale: diffusion per unit of network temperature, in
    /// thousandths.
    pub mobility: u32,
    /// The lowest score with which a block is accepted.
    pub consensus_threshold: u16,
}

/// The parameters that [`compute_score`] and [`validate_block`] use.
pub open spec fn standard_params() -> ConsensusParams {
    ConsensusParams { beta: 10, lambda: 100, mobility: 1500, consensus_threshold: 500 }
}

/// Stability: one million over one plus `beta` times the finality depth,
/// held between 0 and 1000.
pub open spec fn stability_score(beta: u32, finality_depth: u32) -> int {
    clamp(1_000_000int / (1 + beta * finality_depth), 0, 1000)
}

/// Phase of a validator at a block time, in thousandths of a radian: the
/// position of the block time in its period, as a part of a full turn, plus
/// one degree for each unit of `validator_id` modulo 360.
pub open spec fn phase_angle(block_time: u64, validator_id: u64) -> int {
    ((block_time % TARGET_PERIOD) * FULL_TURN) / (TARGET_PERIOD as int) + ((validator_id % 360)
        * FULL_TURN) / 360
}

/// Resonance: 0.55 plus 0.45 times the sine of the phase, held between 100
/// and 1000.
pub open spec fn resonance_score(block_time: u64, validator_id: u64) -> int {
    clamp((550_000 + 450 * sine_milli(phase_angle(block_time, validator_id))) / 1000, 100, 1000)
}

/// Entropy: `k T / (k T + E)`, the rational approximation `1 / (1 + x)` of
/// `exp(-x)` at `x = E / (k T)`, held between 0 and 1000.
pub open spec fn entropy_score(network_temperature: u32) -> int {
    clamp(
        (1000 * (BOLTZMANN * network_temperature)) / (BOLTZMANN * network_temperature
            + ACTIVATION_ENERGY),
        0,
        1000,
    )
}

/// Coupling: `lambda / (lambda + d)`, the rational approximation of
/// `exp(-d / lambda)`, at the distance `d = block_time mod 100`, held between
/// 500 and 1000. With no radius and no distance the coupling is full.
pub open spec fn coupling_score(lambda: u32, block_time: u64) -> int {
    let distance = block_time % 100;
    if lambda + distance == 0 {
        1000
    } else {
        clamp((1000 * lambda) / (lambda + distance), 500, 1000)
    }
}

/// Diffusion: `mobility` times the network temperature, over 1000, held
/// between 100 and 1000.
pub open spec fn diffusion_score(mobility: u32, network_temperature: u32) -> int {
    clamp((mobility * network_temperature) / 1000, 100, 1000)
}

/// The five sub-scores of a block.
pub open spec fn consensus_components(
    params: ConsensusParams,
    block_time: u64,
    validator_id: u64,
    finality_depth: u32,
    network_temperature: u32,
) -> LddComponents {
    LddComponents {
        stability: stability_score(params.beta, finality_depth) as u32,
        resonance: resonance_score(block_time, validator_id) as u32,
        entropy: entropy_score(network_temperature) as u32,
        coupling: coupling_score(params.lambda, block_time) as u32,
        diffusion: diffusion_score(params.mobility, network_temperature) as u32,
    }
}

/// The score of a block: the product of its five sub-scores, brought back
/// to thousandths and held between 0 and 1000.
pub open spec fn consensus_score(
    params: ConsensusParams,
    block_time: u64,
    validator_id: u64,
    finality_depth: u32,
    network_temperature: u32,
) -> int {
    clamp(
        consensus_components(
            params,
            block_time,
            validator_id,
            finality_depth,
            network_temperature,
        ).psi_value() as int / (PRODUCT_SCALE as int),
        0,
        1000,
    )
}

/// The network temperature that [`validate_block`] derives from a block
/// time.
pub open spec fn derived_temperature(block_time: u64) -> u32 {
    (block_time % 1000) as u32
}

/// The score of every block, under every choice of parameters, lies between
/// 0 and 1000.
pub proof fn lemma_score_in_range(
    params: ConsensusParams,
    block_time: u64,
    validator_id: u64,
    finality_depth: u32,
    network_temperature: u32,
)
    ensures
        0 <= consensus_score(params, block_time, validator_id, finality_depth, network_temperature)
            <= 1000,
{
}

/// Each sub-score lies in its own range.
pub proof fn lemma_sub_scores_in_range(
    params: ConsensusParams,
    block_time: u64,
    validator_id: u64,
    finality_depth: u32,
    network_temperature: u32,
)
    ensures
        0 <= stability_score(params.beta, finality_depth) <= 1000,
        100 <= resonance_score(block_time, validator_id) <= 1000,
        0 <= entropy_score(network_temperature) <= 1000,
        500 <= coupling_score(params.lambda, block_time) <= 1000,
        100 <= diffusion_score(params.mobility, network_temperature) <= 1000,
{
}

/// Stability never rises with finality depth.
pub proof fn lemma_stability_falls_with_depth(beta: u32, shallow: u32, deep: u32)
    requires
        shallow <= deep,
    ensures
        stability_score(beta, deep) <= stability_score(beta, shallow),
{
    let near = 1 + beta * shallow;
    let far = 1 + beta * deep;
    assert(0 < near <= far) by (nonlinear_arith)
        requires
            near == 1 + beta * shallow,
            far == 1 + beta * deep,
            0 <= beta,
            0 <= shallow <= deep,
    ;
    vstd::arithmetic::div_mod::lemma_div_is_ordered_by_denominator(1_000_000, near, far);
}

/// A block is accepted exactly when its score, at the temperature derived
/// from its time, reaches the threshold: whatever `validate_block_with`
/// returns for a block agrees with what `compute_score_with` returns for it.
pub proof fn lemma_accepted_iff_score_reaches_threshold(
    params: ConsensusParams,
    block_time: u64,
    validator_id: u64,
    finality_depth: u32,
    score: u16,
    accepted: bool,
)
    requires
        score == consensus_score(
            params,
            block_time,
            validator_id,
            finality_depth,
            derived_temperature(block_time),
        ),
        accepted == (consensus_score(
            params,
            block_time,
            validator_id,
            finality_depth,
            derived_temperature(block_time),
        ) >= params.consensus_threshold),
    ensures
        accepted == (score >= params.consensus_threshold),
{
}

/// Brings `value` into the range from `low` to `high`.
fn clamp_to(value: u128, low: u32, high: u32) -> (held: u32)
    requires
        low <= high,
    ensures
        held == clamp(value as int, low as int, high as int),
{
    if value < low as u128 {
        low
    } else if value > high as u128 {
        high
    } else {
        value as u32
    }
}

/// Stability of a block at a finality depth.
pub fn stability(beta: u32, finality_depth: u32) -> (score: u32)
    ensures
        score == stability_score(beta, finality_depth),
        score <= 1000,
{
    let weight: u128 = sat_mul(beta as u128, finality_depth as u128);
    assert(beta * finality_depth <= 0xffff_ffff * 0xffff_ffff) by (nonlinear_arith)
        requires
            beta <= 0xffff_ffff,
            finality_depth <= 0xffff_ffff,
    ;
    clamp_to(1_000_000 / (1 + weight), 0, 1000)
}

/// Resonance of a validator at a block time.
pub fn resonance(block_time: u64, validator_id: u64) -> (score: u32)
    ensures
        score == resonance_score(block_time, validator_id),
        100 <= score <= 1000,
{
    let time_angle: u64 = ((block_time % TARGET_PERIOD) * FULL_TURN) / TARGET_PERIOD;
    let offset: u64 = ((validator_id % 360) * FULL_TURN) / 360;
    let wave: i64 = sin_milli(time_angle + offset);
    let level: i64 = (550_000 + 450 * wave) / 1000;
    clamp_to(level as u128, 100, 1000)
}

/// Entropy of the network at a temperature.
pub fn entropy(network_temperature: u32) -> (score: u32)
    ensures
        score == entropy_score(network_temperature),
        score <= 1000,
{
    let thermal: u128 = sat_mul(BOLTZMANN as u128, network_temperature as u128);
    assert(BOLTZMANN * network_temperature == network_temperature);
    clamp_to(sat_mul(1000, thermal) / (thermal + ACTIVATION_ENERGY as u128), 0, 1000)
}

/// Coupling of a block at its distance.
pub fn coupling(lambda: u32, block_time: u64) -> (score: u32)
    ensures
        score == coupling_score(lambda, block_time),
        500 <= score <= 1000,
{
    let distance: u128 = (block_time % 100) as u128;
    let reach: u128 = lambda as u128 + distance;
    if reach == 0 {
        1000
    } else {
        clamp_to(sat_mul(1000, lambda as u128) / reach, 500, 1000)
    }
}

/// Diffusion of the network at a temperature.
pub fn diffusion(mobility: u32, network_temperature: u32) -> (score: u32)
    ensures
        score == diffusion_score(mobility, network_temperature),
        100 <= score <= 1000,
{
    assert(mobility * network_temperature <= 0xffff_ffff * 0xffff_ffff) by (nonlinear_arith)
        requires
            mobility <= 0xffff_ffff,
            network_temperature <= 0xffff_ffff,
    ;
    clamp_to(sat_mul(mobility as u128, network_temperature as u128) / 1000, 100, 1000)
}

impl Default for ConsensusParams {
    fn default() -> (params: Self)
        ensures
            params == standard_params(),
    {
        ConsensusParams { beta: 10, lambda: 100, mobility: 1500, consensus_threshold: 500 }
    }
}

/// Scores a block under the given parameters.
pub fn compute_score_with(
    params: &ConsensusParams,
    block_time: u64,
    validator_id: u64,
    finality_depth: u32,
    network_temperature: u32,
) -> (score: u16)
    ensures
        score == consensus_score(
            *params,
            block_time,
            validator_id,
            finality_depth,
            network_temperature,
        ),
        score <= 1000,
{
    let factors = LddComponents {
        stability: stability(params.beta, finality_depth),
        resonance: resonance(block_time, validator_id),
        entropy: entropy(network_temperature),
        coupling: coupling(params.lambda, block_time),
        diffusion: diffusion(params.mobility, network_temperature),
    };
    let psi: u128 = factors.psi();
    clamp_to(psi / PRODUCT_SCALE, 0, 1000) as u16
}

/// Scores a block under the standard parameters. The score lies between 0
/// and 1000 for every input.
pub fn compute_score(
    block_time: u64,
    validator_id: u64,
    finality_depth: u32,
    network_temperature: u32,
) -> (score: u16)
    ensures
        score == consensus_score(
            standard_params(),
            block_time,
            validator_id,
            finality_depth,
            network_temperature,
        ),
        score <= 1000,
{
    let params = ConsensusParams::default();
    compute_score_with(&params, block_time, validator_id, finality_depth, network_temperature)
}

/// Accepts a block exactly when its score, at the network temperature
/// `block_time mod 1000`, reaches the threshold of the parameters.
pub fn validate_block_with(
    params: &ConsensusParams,
    block_time: u64,
    validator_id: u64,
    finality_depth: u32,
) -> (accepted: bool)
    ensures
        accepted == (consensus_score(
            *params,
            block_time,
            validator_id,
            finality_depth,
            derived_temperature(block_time),
        ) >= params.consensus_threshold),
{
    let network_temperature: u32 = (block_time % 1000) as u32;
    let score = compute_score_with(
        params,
        block_time,
        validator_id,
        finality_depth,
        network_temperature,
    );
    score >= params.consensus_threshold
}

/// Accepts a block exactly when its score under the standard parameters,
/// at the network temperature `block_time mod 1000`, is at least 500.
pub fn validate_block(block_time: u64, validator_id: u64, finality_depth: u32) -> (accepted: bool)
    ensures
        accepted == (consensus_score(
            standard_params(),
            block_time,
            validator_id,
            finality_depth,
            derived_temperature(block_time),
        ) >= 500),
{
    let params = ConsensusParams::default();
    validate_block_with(&params, block_time, validator_id, finality_depth)
}

} // verus!
