//! Adaptive bitrate control: a feedback controller that turns samples of
//! round-trip time and packet loss into video quality and bitrate targets.
//!
//! Everything is kept in whole numbers: round-trip times in milliseconds,
//! loss rates in parts per million, factors in thousandths.
use vstd::prelude::*;
use crate::clock::{millis_u64, unix_millis, whole_millis};
use std::collections::VecDeque;
use std::time::Duration;

verus! {

/// One million: a loss rate of 100 %, in parts per million.
pub const FULL_LOSS_PPM: u32 = 1000000;

/// The round-trip time assumed while no sample has come in, in milliseconds.
pub const DEFAULT_RTT_MS: u64 = 50;

/// The tunable thresholds and factors of the controller.
#[derive(Debug, Clone, Copy)]
pub struct AdaptiveBitrateConfig {
    /// Lowest bitrate, in kbps.
    pub min_bitrate: u32,
    /// Highest bitrate, in kbps.
    pub max_bitrate: u32,
    /// Lowest image quality.
    pub min_quality: u8,
    /// Highest image quality.
    pub max_quality: u8,
    /// An average round-trip time above this many milliseconds is poor.
    pub high_rtt_threshold_ms: u64,
    /// An average round-trip time below this many milliseconds is excellent.
    pub low_rtt_threshold_ms: u64,
    /// An average loss rate above this many parts per million is poor.
    pub high_packet_loss_threshold_ppm: u32,
    /// What quality and bitrate are multiplied by under poor conditions, in
    /// thousandths: 850 takes 15 % off.
    pub degradation_factor_permille: u32,
    /// What quality and bitrate are multiplied by under excellent
    /// conditions, in thousandths: 1050 adds 5 %.
    pub improvement_factor_permille: u32,
    /// How many samples each history window holds.
    pub history_size: usize,
    /// The least time that must have passed since the measurement before
    /// for a sample to adjust anything, in milliseconds.
    pub adjustment_interval_ms: u64,
}

/// Counters and averages kept for observation.
#[derive(Debug, Clone, Copy, PartialEq, Eq, Structural)]
pub struct AdaptiveBitrateStats {
    pub total_adjustments: u64,
    pub quality_reductions: u64,
    pub quality_increases: u64,
    /// Average round-trip time of the window, in milliseconds.
    pub average_rtt_ms: u64,
    /// Average loss rate of the window, in parts per million.
    pub average_packet_loss_ppm: u32,
}

/// What the controller holds, as mathematics.
pub struct BitrateState {
    pub bitrate: u32,
    pub quality: u8,
    pub rtts: Seq<u64>,
    pub losses: Seq<u64>,
    pub last_measurement_ms: u64,
    pub stats: AdaptiveBitrateStats,
}

impl AdaptiveBitrateConfig {
    /// Bounds are ordered, degradation does not raise and improvement does
    /// not lower.
    pub open spec fn valid(&self) -> bool {
        &&& self.min_bitrate <= self.max_bitrate
        &&& self.min_quality <= self.max_quality
        &&& self.degradation_factor_permille <= 1000
        &&& self.improvement_factor_permille >= 1000
    }

    /// Whether the configuration is valid.
    pub fn is_valid(&self) -> (r: bool)
        ensures
            r == self.valid(),
    {
        self.min_bitrate <= self.max_bitrate && self.min_quality <= self.max_quality
            && self.degradation_factor_permille <= 1000 && self.improvement_factor_permille
            >= 1000
    }

    /// The quality a controller starts from: midway between the bounds.
    pub open spec fn initial_quality(&self) -> u8 {
        ((self.min_quality + self.max_quality) / 2) as u8
    }

    /// The bitrate a controller starts from: midway between the bounds.
    pub open spec fn initial_bitrate(&self) -> u32 {
        ((self.min_bitrate + self.max_bitrate) / 2) as u32
    }

    /// The state of a controller made or reset at `now_ms`.
    pub open spec fn initial_state(&self, last_measurement_ms: u64) -> BitrateState {
        BitrateState {
            bitrate: self.initial_bitrate(),
            quality: self.initial_quality(),
            rtts: Seq::empty(),
            losses: Seq::empty(),
            last_measurement_ms,
            stats: zero_stats(),
        }
    }
}

impl AdaptiveBitrateConfig {
    /// The default configuration: 500 to 8000 kbps, quality 40 to 95, a
    /// round-trip time poor above 150 ms and excellent below 50 ms, loss poor
    /// above 5 %, 15 % off per reduction, 5 % more per increase, windows of
    /// ten samples, two seconds between measurement and adjustment.
    pub open spec fn default_config() -> AdaptiveBitrateConfig {
        AdaptiveBitrateConfig {
            min_bitrate: 500,
            max_bitrate: 8000,
            min_quality: 40,
            max_quality: 95,
            high_rtt_threshold_ms: 150,
            low_rtt_threshold_ms: 50,
            high_packet_loss_threshold_ppm: 50000,
            degradation_factor_permille: 850,
            improvement_factor_permille: 1050,
            history_size: 10,
            adjustment_interval_ms: 2000,
        }
    }
}

impl Default for AdaptiveBitrateConfig {
    fn default() -> (config: Self)
        ensures
            config == AdaptiveBitrateConfig::default_config(),
    {
        AdaptiveBitrateConfig {
            min_bitrate: 500,
            max_bitrate: 8000,
            min_quality: 40,
            max_quality: 95,
            high_rtt_threshold_ms: 150,
            low_rtt_threshold_ms: 50,
            high_packet_loss_threshold_ppm: 50000,
            degradation_factor_permille: 850,
            improvement_factor_permille: 1050,
            history_size: 10,
            adjustment_interval_ms: 2000,
        }
    }
}

/// The statistics of a controller that has seen nothing yet.
pub open spec fn zero_stats() -> AdaptiveBitrateStats {
    AdaptiveBitrateStats {
        total_adjustments: 0,
        quality_reductions: 0,
        quality_increases: 0,
        average_rtt_ms: 0,
        average_packet_loss_ppm: 0,
    }
}

impl Default for AdaptiveBitrateStats {
    fn default() -> (stats: Self)
        ensures
            stats == zero_stats(),
    {
        AdaptiveBitrateStats {
            total_adjustments: 0,
            quality_reductions: 0,
            quality_increases: 0,
            average_rtt_ms: 0,
            average_packet_loss_ppm: 0,
        }
    }
}

/// The sum of the samples.
pub open spec fn total(samples: Seq<u64>) -> nat
    decreases samples.len(),
{
    if samples.len() == 0 {
        0
    } else {
        total(samples.drop_last()) + samples.last() as nat
    }
}

/// The average of the samples, rounded down; `default` where there is none.
pub open spec fn mean(samples: Seq<u64>, default: u64) -> nat {
    if samples.len() == 0 {
        default as nat
    } else {
        total(samples) / samples.len()
    }
}

/// A window after `sample` came in: the sample goes last, and the oldest one
/// leaves once more than `capacity` are held.
pub open spec fn pushed(window: Seq<u64>, sample: u64, capacity: nat) -> Seq<u64> {
    let grown = window.push(sample);
    if grown.len() > capacity {
        grown.drop_first()
    } else {
        grown
    }
}

/// `value` multiplied by `factor` thousandths, rounded down.
pub open spec fn scaled(value: nat, factor: nat) -> nat {
    value * factor / 1000
}

/// `x`, or `limit` where `x` is larger.
pub open spec fn at_most(x: nat, limit: nat) -> nat {
    if x > limit {
        limit
    } else {
        x
    }
}

/// `x`, or `limit` where `x` is smaller.
pub open spec fn at_least(x: nat, limit: nat) -> nat {
    if x < limit {
        limit
    } else {
        x
    }
}

/// `count` plus one, stopping at the largest `u64`.
pub open spec fn bumped(count: u64) -> u64 {
    if count == u64::MAX {
        count
    } else {
        (count + 1) as u64
    }
}

/// Conditions are poor: the average round-trip time or the average loss is
/// above its high threshold.
pub open spec fn should_reduce(state: BitrateState, config: AdaptiveBitrateConfig) -> bool {
    mean(state.rtts, DEFAULT_RTT_MS) > config.high_rtt_threshold_ms || mean(state.losses, 0)
        > config.high_packet_loss_threshold_ppm
}

/// Conditions are excellent: the average round-trip time is below the low
/// threshold and the average loss below half the high threshold.
pub open spec fn should_improve(state: BitrateState, config: AdaptiveBitrateConfig) -> bool {
    mean(state.rtts, DEFAULT_RTT_MS) < config.low_rtt_threshold_ms && 2 * mean(state.losses, 0)
        < config.high_packet_loss_threshold_ppm
}

/// The state after a reduction: quality and bitrate are scaled down, not
/// below their minimums, and the reduction is counted.
pub open spec fn reduced(state: BitrateState, config: AdaptiveBitrateConfig) -> BitrateState {
    BitrateState {
        bitrate: at_least(
            at_most(
                scaled(state.bitrate as nat, config.degradation_factor_permille as nat),
                u32::MAX as nat,
            ),
            config.min_bitrate as nat,
        ) as u32,
        quality: at_least(
            at_most(
                scaled(state.quality as nat, config.degradation_factor_permille as nat),
                u8::MAX as nat,
            ),
            config.min_quality as nat,
        ) as u8,
        stats: AdaptiveBitrateStats {
            quality_reductions: bumped(state.stats.quality_reductions),
            total_adjustments: bumped(state.stats.total_adjustments),
            ..state.stats
        },
        ..state
    }
}

/// The state after an increase: quality and bitrate are scaled up, not above
/// their maximums; the increase is counted unless it changed neither.
pub open spec fn increased(state: BitrateState, config: AdaptiveBitrateConfig) -> BitrateState {
    let bitrate = at_most(
        at_most(
            scaled(state.bitrate as nat, config.improvement_factor_permille as nat),
            u32::MAX as nat,
        ),
        config.max_bitrate as nat,
    ) as u32;
    let quality = at_most(
        at_most(
            scaled(state.quality as nat, config.improvement_factor_permille as nat),
            u8::MAX as nat,
        ),
        config.max_quality as nat,
    ) as u8;
    if quality == state.quality && bitrate == state.bitrate {
        state
    } else {
        BitrateState {
            bitrate,
            quality,
            stats: AdaptiveBitrateStats {
                quality_increases: bumped(state.stats.quality_increases),
                total_adjustments: bumped(state.stats.total_adjustments),
                ..state.stats
            },
            ..state
        }
    }
}

/// The time between the last measurement and `now_ms`; none where the clock
/// went back.
pub open spec fn elapsed_ms(state: BitrateState, now_ms: u64) -> nat {
    if now_ms >= state.last_measurement_ms {
        (now_ms - state.last_measurement_ms) as nat
    } else {
        0
    }
}

/// The adjustment step at `now_ms`: nothing before the adjustment interval
/// has passed since the last measurement; then a reduction under poor
/// conditions, else an increase under excellent ones.
pub open spec fn adjusted(state: BitrateState, config: AdaptiveBitrateConfig, now_ms: u64)
    -> BitrateState {
    if elapsed_ms(state, now_ms) < config.adjustment_interval_ms {
        state
    } else if should_reduce(state, config) {
        reduced(state, config)
    } else if should_improve(state, config) {
        increased(state, config)
    } else {
        state
    }
}

/// The state with `now_ms` as the time of the last measurement.
pub open spec fn stamped(state: BitrateState, now_ms: u64) -> BitrateState {
    BitrateState { last_measurement_ms: now_ms, ..state }
}

/// The state with the round-trip sample in its window and the average
/// renewed.
pub open spec fn with_rtt(state: BitrateState, config: AdaptiveBitrateConfig, rtt_ms: u64)
    -> BitrateState {
    let rtts = pushed(state.rtts, rtt_ms, config.history_size as nat);
    BitrateState {
        rtts,
        stats: AdaptiveBitrateStats {
            average_rtt_ms: mean(rtts, DEFAULT_RTT_MS) as u64,
            ..state.stats
        },
        ..state
    }
}

/// The state with the loss sample, counted as one million where it is more,
/// in its window and the average renewed.
pub open spec fn with_loss(state: BitrateState, config: AdaptiveBitrateConfig, loss_ppm: u32)
    -> BitrateState {
    let sample = at_most(loss_ppm as nat, FULL_LOSS_PPM as nat) as u64;
    let losses = pushed(state.losses, sample, config.history_size as nat);
    BitrateState {
        losses,
        stats: AdaptiveBitrateStats {
            average_packet_loss_ppm: mean(losses, 0) as u32,
            ..state.stats
        },
        ..state
    }
}

/// The state after a round-trip sample of `rtt_ms` taken at `now_ms`: the
/// sample enters the window, the adjustment step runs against the time of
/// the measurement before, and `now_ms` becomes the time of the last
/// measurement.
pub open spec fn after_rtt(
    state: BitrateState,
    config: AdaptiveBitrateConfig,
    rtt_ms: u64,
    now_ms: u64,
) -> BitrateState {
    stamped(adjusted(with_rtt(state, config, rtt_ms), config, now_ms), now_ms)
}

/// The state after a loss sample of `loss_ppm` parts per million seen at
/// `now_ms`: the sample enters the window, the adjustment step runs against
/// the time of the measurement before, and `now_ms` becomes the time of the
/// last measurement.
pub open spec fn after_loss(
    state: BitrateState,
    config: AdaptiveBitrateConfig,
    loss_ppm: u32,
    now_ms: u64,
) -> BitrateState {
    stamped(adjusted(with_loss(state, config, loss_ppm), config, now_ms), now_ms)
}

/// Quality and bitrate lie within the configured bounds, and no loss sample
/// is above one million.
pub open spec fn bounded(state: BitrateState, config: AdaptiveBitrateConfig) -> bool {
    &&& config.min_quality <= state.quality <= config.max_quality
    &&& config.min_bitrate <= state.bitrate <= config.max_bitrate
    &&& forall|i: int| 0 <= i < state.losses.len() ==> #[trigger] state.losses[i] <= FULL_LOSS_PPM
}

/// No sample of the window is above `bound`.
pub open spec fn all_at_most(samples: Seq<u64>, bound: u64) -> bool {
    forall|i: int| 0 <= i < samples.len() ==> #[trigger] samples[i] <= bound
}

/// Every sample of the window is above `bound`.
pub open spec fn all_above(samples: Seq<u64>, bound: u64) -> bool {
    forall|i: int| 0 <= i < samples.len() ==> #[trigger] samples[i] > bound
}

/// The sum of samples that are all at most `bound` is at most their number
/// times `bound`.
pub proof fn lemma_total_at_most(samples: Seq<u64>, bound: u64)
    requires
        all_at_most(samples, bound),
    ensures
        total(samples) <= samples.len() * bound,
    decreases samples.len(),
{
    if samples.len() > 0 {
        let front = samples.drop_last();
        assert forall|i: int| 0 <= i < front.len() implies #[trigger] front[i] <= bound by {
            assert(front[i] == samples[i]);
        }
        lemma_total_at_most(front, bound);
        assert(samples.len() * bound == front.len() * bound + bound) by (nonlinear_arith)
            requires
                samples.len() == front.len() + 1,
        ;
    }
}

/// The sum of samples that are all at least `bound` is at least their number
/// times `bound`.
pub proof fn lemma_total_at_least(samples: Seq<u64>, bound: u64)
    requires
        forall|i: int| 0 <= i < samples.len() ==> #[trigger] samples[i] >= bound,
    ensures
        total(samples) >= samples.len() * bound,
    decreases samples.len(),
{
    if samples.len() > 0 {
        let front = samples.drop_last();
        assert forall|i: int| 0 <= i < front.len() implies #[trigger] front[i] >= bound by {
            assert(front[i] == samples[i]);
        }
        lemma_total_at_least(front, bound);
        assert(samples.len() * bound == front.len() * bound + bound) by (nonlinear_arith)
            requires
                samples.len() == front.len() + 1,
        ;
    }
}

/// The average of samples that are all at most `bound` is at most `bound`.
pub proof fn lemma_mean_at_most(samples: Seq<u64>, default: u64, bound: u64)
    requires
        all_at_most(samples, bound),
        default <= bound,
    ensures
        mean(samples, default) <= bound,
{
    if samples.len() > 0 {
        lemma_total_at_most(samples, bound);
        let n = samples.len();
        let t = total(samples);
        assert(t / n <= bound) by (nonlinear_arith)
            requires
                n > 0,
                t <= n * bound,
        ;
    }
}

/// The average of one or more samples that are all above `bound` is above
/// `bound`.
pub proof fn lemma_mean_above(samples: Seq<u64>, default: u64, bound: u64)
    requires
        samples.len() > 0,
        all_above(samples, bound),
    ensures
        mean(samples, default) > bound,
{
    assert forall|i: int| 0 <= i < samples.len() implies #[trigger] samples[i] >= (bound
        + 1) as u64 by {
        assert(samples[i] > bound);
    }
    lemma_total_at_least(samples, (bound + 1) as u64);
    let n = samples.len();
    let t = total(samples);
    assert(t / n >= bound + 1) by (nonlinear_arith)
        requires
            n > 0,
            t >= n * (bound + 1),
    ;
}

/// A window that took a sample in holds at most `capacity` samples if it
/// held no more before, and the new sample is its last where any is kept.
pub proof fn lemma_pushed(window: Seq<u64>, sample: u64, capacity: nat)
    ensures
        window.len() <= capacity ==> pushed(window, sample, capacity).len() <= capacity,
        pushed(window, sample, capacity).len() <= window.len() + 1,
        forall|i: int|
            0 <= i < pushed(window, sample, capacity).len() ==> #[trigger] pushed(
                window,
                sample,
                capacity,
            )[i] == sample || window.contains(pushed(window, sample, capacity)[i]),
{
    let grown = window.push(sample);
    let after = pushed(window, sample, capacity);
    assert forall|i: int| 0 <= i < after.len() implies #[trigger] after[i] == sample
        || window.contains(after[i]) by {
        let j = if grown.len() > capacity {
            i + 1
        } else {
            i
        };
        assert(after[i] == grown[j]);
        if j < window.len() {
            assert(window[j] == grown[j]);
        }
    }
}


/// Scaling by at most a thousand thousandths does not raise a value.
pub proof fn lemma_scaled_down(value: nat, factor: nat)
    requires
        factor <= 1000,
    ensures
        scaled(value, factor) <= value,
{
    assert(value * factor / 1000 <= value) by (nonlinear_arith)
        requires
            factor <= 1000,
    ;
}

/// Scaling by at least a thousand thousandths does not lower a value.
pub proof fn lemma_scaled_up(value: nat, factor: nat)
    requires
        factor >= 1000,
    ensures
        scaled(value, factor) >= value,
{
    assert(value * factor / 1000 >= value) by (nonlinear_arith)
        requires
            factor >= 1000,
    ;
}

/// A reduction keeps quality and bitrate within their bounds and raises
/// neither.
pub proof fn lemma_reduced_bounded(state: BitrateState, config: AdaptiveBitrateConfig)
    requires
        config.valid(),
        bounded(state, config),
    ensures
        bounded(reduced(state, config), config),
        reduced(state, config).quality <= state.quality,
        reduced(state, config).bitrate <= state.bitrate,
{
    lemma_scaled_down(state.bitrate as nat, config.degradation_factor_permille as nat);
    lemma_scaled_down(state.quality as nat, config.degradation_factor_permille as nat);
}

/// An increase keeps quality and bitrate within their bounds and lowers
/// neither.
pub proof fn lemma_increased_bounded(state: BitrateState, config: AdaptiveBitrateConfig)
    requires
        config.valid(),
        bounded(state, config),
    ensures
        bounded(increased(state, config), config),
        increased(state, config).quality >= state.quality,
        increased(state, config).bitrate >= state.bitrate,
{
    lemma_scaled_up(state.bitrate as nat, config.improvement_factor_permille as nat);
    lemma_scaled_up(state.quality as nat, config.improvement_factor_permille as nat);
}

/// Whatever round-trip sample comes in, and whenever, quality and bitrate
/// stay within their configured bounds.
pub proof fn lemma_rtt_keeps_bounds(
    state: BitrateState,
    config: AdaptiveBitrateConfig,
    rtt_ms: u64,
    now_ms: u64,
)
    requires
        config.valid(),
        bounded(state, config),
    ensures
        bounded(after_rtt(state, config, rtt_ms, now_ms), config),
{
    let rtts = pushed(state.rtts, rtt_ms, config.history_size as nat);
    let recorded = with_rtt(state, config, rtt_ms);
    assert(bounded(recorded, config));
    lemma_reduced_bounded(recorded, config);
    lemma_increased_bounded(recorded, config);
}

/// Whatever loss sample comes in, and whenever, quality and bitrate stay
/// within their configured bounds.
pub proof fn lemma_loss_keeps_bounds(
    state: BitrateState,
    config: AdaptiveBitrateConfig,
    loss_ppm: u32,
    now_ms: u64,
)
    requires
        config.valid(),
        bounded(state, config),
    ensures
        bounded(after_loss(state, config, loss_ppm, now_ms), config),
{
    let sample = at_most(loss_ppm as nat, FULL_LOSS_PPM as nat) as u64;
    let losses = pushed(state.losses, sample, config.history_size as nat);
    lemma_pushed(state.losses, sample, config.history_size as nat);
    assert forall|i: int| 0 <= i < losses.len() implies #[trigger] losses[i] <= FULL_LOSS_PPM by {
        if losses[i] != sample {
            let j = choose|j: int| 0 <= j < state.losses.len() && state.losses[j] == losses[i];
            assert(state.losses[j] <= FULL_LOSS_PPM);
        }
    }
    let recorded = with_loss(state, config, loss_ppm);
    assert(bounded(recorded, config));
    lemma_reduced_bounded(recorded, config);
    lemma_increased_bounded(recorded, config);
}

/// While every round-trip time of the window, the new sample among them, is
/// above the high threshold, a round-trip sample raises neither quality nor
/// bitrate.
pub proof fn lemma_high_rtt_never_raises(
    state: BitrateState,
    config: AdaptiveBitrateConfig,
    rtt_ms: u64,
    now_ms: u64,
)
    requires
        config.valid(),
        bounded(state, config),
        config.history_size > 0,
        all_above(state.rtts, config.high_rtt_threshold_ms),
        rtt_ms > config.high_rtt_threshold_ms,
    ensures
        after_rtt(state, config, rtt_ms, now_ms).quality <= state.quality,
        after_rtt(state, config, rtt_ms, now_ms).bitrate <= state.bitrate,
        all_above(after_rtt(state, config, rtt_ms, now_ms).rtts, config.high_rtt_threshold_ms),
{
    let rtts = pushed(state.rtts, rtt_ms, config.history_size as nat);
    lemma_pushed(state.rtts, rtt_ms, config.history_size as nat);
    assert forall|i: int| 0 <= i < rtts.len() implies #[trigger] rtts[i]
        > config.high_rtt_threshold_ms by {
        if rtts[i] != rtt_ms {
            let j = choose|j: int| 0 <= j < state.rtts.len() && state.rtts[j] == rtts[i];
            assert(state.rtts[j] > config.high_rtt_threshold_ms);
        }
    }
    let recorded = with_rtt(state, config, rtt_ms);
    assert(rtts.len() > 0) by {
        let grown = state.rtts.push(rtt_ms);
        if grown.len() > config.history_size {
            assert(grown.len() >= 2);
        }
    }
    lemma_mean_above(rtts, DEFAULT_RTT_MS, config.high_rtt_threshold_ms);
    assert(should_reduce(recorded, config));
    lemma_reduced_bounded(recorded, config);
}

/// While conditions are not poor, no sample lowers quality or bitrate: a
/// round-trip sample whose window average is at most the high threshold,
/// with the loss average at most its own, raises or keeps both.
pub proof fn lemma_calm_rtt_never_lowers(
    state: BitrateState,
    config: AdaptiveBitrateConfig,
    rtt_ms: u64,
    now_ms: u64,
)
    requires
        config.valid(),
        bounded(state, config),
        mean(pushed(state.rtts, rtt_ms, config.history_size as nat), DEFAULT_RTT_MS)
            <= config.high_rtt_threshold_ms,
        mean(state.losses, 0) <= config.high_packet_loss_threshold_ppm,
    ensures
        after_rtt(state, config, rtt_ms, now_ms).quality >= state.quality,
        after_rtt(state, config, rtt_ms, now_ms).bitrate >= state.bitrate,
{
    let rtts = pushed(state.rtts, rtt_ms, config.history_size as nat);
    let recorded = with_rtt(state, config, rtt_ms);
    assert(!should_reduce(recorded, config));
    lemma_increased_bounded(recorded, config);
}

/// While conditions are not poor, a loss sample lowers neither quality nor
/// bitrate: one whose window average is at most the high threshold, with the
/// round-trip average at most its own.
pub proof fn lemma_calm_loss_never_lowers(
    state: BitrateState,
    config: AdaptiveBitrateConfig,
    loss_ppm: u32,
    now_ms: u64,
)
    requires
        config.valid(),
        bounded(state, config),
        mean(state.rtts, DEFAULT_RTT_MS) <= config.high_rtt_threshold_ms,
        mean(
            pushed(
                state.losses,
                at_most(loss_ppm as nat, FULL_LOSS_PPM as nat) as u64,
                config.history_size as nat,
            ),
            0,
        ) <= config.high_packet_loss_threshold_ppm,
    ensures
        after_loss(state, config, loss_ppm, now_ms).quality >= state.quality,
        after_loss(state, config, loss_ppm, now_ms).bitrate >= state.bitrate,
{
    let sample = at_most(loss_ppm as nat, FULL_LOSS_PPM as nat) as u64;
    let losses = pushed(state.losses, sample, config.history_size as nat);
    lemma_pushed(state.losses, sample, config.history_size as nat);
    assert forall|i: int| 0 <= i < losses.len() implies #[trigger] losses[i] <= FULL_LOSS_PPM by {
        if losses[i] != sample {
            let j = choose|j: int| 0 <= j < state.losses.len() && state.losses[j] == losses[i];
            assert(state.losses[j] <= FULL_LOSS_PPM);
        }
    }
    let recorded = with_loss(state, config, loss_ppm);
    assert(bounded(recorded, config));
    assert(!should_reduce(recorded, config));
    lemma_increased_bounded(recorded, config);
}

/// A sample of network quality: a round-trip time in milliseconds or a loss
/// rate in parts per million, with the time at which it came in.
pub enum Sample {
    Rtt { rtt_ms: u64, now_ms: u64 },
    Loss { loss_ppm: u32, now_ms: u64 },
}

/// The time at which the sample came in.
pub open spec fn taken_at(sample: Sample) -> u64 {
    match sample {
        Sample::Rtt { now_ms, .. } => now_ms,
        Sample::Loss { now_ms, .. } => now_ms,
    }
}

/// The state after the sample came in.
pub open spec fn after_sample(state: BitrateState, config: AdaptiveBitrateConfig, sample: Sample)
    -> BitrateState {
    match sample {
        Sample::Rtt { rtt_ms, now_ms } => after_rtt(state, config, rtt_ms, now_ms),
        Sample::Loss { loss_ppm, now_ms } => after_loss(state, config, loss_ppm, now_ms),
    }
}

/// The state after the samples came in, one after the other.
pub open spec fn after_samples(
    state: BitrateState,
    config: AdaptiveBitrateConfig,
    samples: Seq<Sample>,
) -> BitrateState
    decreases samples.len(),
{
    if samples.len() == 0 {
        state
    } else {
        after_sample(after_samples(state, config, samples.drop_last()), config, samples.last())
    }
}

/// Quality, bitrate and the three counters of adjustments are the same in
/// both states.
pub open spec fn same_targets(a: BitrateState, b: BitrateState) -> bool {
    &&& a.quality == b.quality
    &&& a.bitrate == b.bitrate
    &&& a.stats.total_adjustments == b.stats.total_adjustments
    &&& a.stats.quality_reductions == b.stats.quality_reductions
    &&& a.stats.quality_increases == b.stats.quality_increases
}

/// A sample that comes in before the adjustment interval has passed since
/// the measurement before adjusts nothing: only its window and average
/// change, and the time of the last measurement.
pub proof fn lemma_too_soon_adjusts_nothing(
    state: BitrateState,
    config: AdaptiveBitrateConfig,
    sample: Sample,
)
    requires
        elapsed_ms(state, taken_at(sample)) < config.adjustment_interval_ms,
    ensures
        same_targets(after_sample(state, config, sample), state),
        after_sample(state, config, sample).last_measurement_ms == taken_at(sample),
{
}

/// Adjustments are rate-limited: of two samples that come in less than the
/// adjustment interval apart, the second adjusts nothing, whatever the first
/// did and whatever the conditions are.
pub proof fn lemma_adjustments_rate_limited(
    state: BitrateState,
    config: AdaptiveBitrateConfig,
    first: Sample,
    second: Sample,
)
    requires
        taken_at(first) <= taken_at(second) < taken_at(first) + config.adjustment_interval_ms,
    ensures
        same_targets(
            after_sample(after_sample(state, config, first), config, second),
            after_sample(state, config, first),
        ),
{
    let between = after_sample(state, config, first);
    assert(between.last_measurement_ms == taken_at(first));
    lemma_too_soon_adjusts_nothing(between, config, second);
}

/// `value` scaled down by the degradation factor, not below `floor`.
pub open spec fn degraded(value: nat, config: AdaptiveBitrateConfig, floor: nat) -> nat {
    at_least(scaled(value, config.degradation_factor_permille as nat), floor)
}

/// A round-trip sample that comes in once the adjustment interval has
/// passed since the measurement before, and brings the average of its window
/// above the high threshold, scales quality and bitrate by the degradation
/// factor, not below their minimums, and counts one reduction.
pub proof fn lemma_poor_rtt_reduces(
    state: BitrateState,
    config: AdaptiveBitrateConfig,
    rtt_ms: u64,
    now_ms: u64,
)
    requires
        config.valid(),
        bounded(state, config),
        elapsed_ms(state, now_ms) >= config.adjustment_interval_ms,
        mean(pushed(state.rtts, rtt_ms, config.history_size as nat), DEFAULT_RTT_MS)
            > config.high_rtt_threshold_ms,
    ensures
        after_rtt(state, config, rtt_ms, now_ms).quality == degraded(
            state.quality as nat,
            config,
            config.min_quality as nat,
        ),
        after_rtt(state, config, rtt_ms, now_ms).bitrate == degraded(
            state.bitrate as nat,
            config,
            config.min_bitrate as nat,
        ),
        after_rtt(state, config, rtt_ms, now_ms).stats.quality_reductions == bumped(
            state.stats.quality_reductions,
        ),
        after_rtt(state, config, rtt_ms, now_ms).stats.total_adjustments == bumped(
            state.stats.total_adjustments,
        ),
        after_rtt(state, config, rtt_ms, now_ms).stats.quality_increases
            == state.stats.quality_increases,
{
    let recorded = with_rtt(state, config, rtt_ms);
    assert(should_reduce(recorded, config));
    lemma_scaled_down(state.quality as nat, config.degradation_factor_permille as nat);
    lemma_scaled_down(state.bitrate as nat, config.degradation_factor_permille as nat);
}

/// A loss sample that comes in once the adjustment interval has passed
/// since the measurement before, and brings the average of its window above
/// the high threshold, scales quality and bitrate by the degradation factor,
/// not below their minimums, and counts one reduction.
pub proof fn lemma_poor_loss_reduces(
    state: BitrateState,
    config: AdaptiveBitrateConfig,
    loss_ppm: u32,
    now_ms: u64,
)
    requires
        config.valid(),
        bounded(state, config),
        elapsed_ms(state, now_ms) >= config.adjustment_interval_ms,
        mean(
            pushed(
                state.losses,
                at_most(loss_ppm as nat, FULL_LOSS_PPM as nat) as u64,
                config.history_size as nat,
            ),
            0,
        ) > config.high_packet_loss_threshold_ppm,
    ensures
        after_loss(state, config, loss_ppm, now_ms).quality == degraded(
            state.quality as nat,
            config,
            config.min_quality as nat,
        ),
        after_loss(state, config, loss_ppm, now_ms).bitrate == degraded(
            state.bitrate as nat,
            config,
            config.min_bitrate as nat,
        ),
        after_loss(state, config, loss_ppm, now_ms).stats.quality_reductions == bumped(
            state.stats.quality_reductions,
        ),
        after_loss(state, config, loss_ppm, now_ms).stats.total_adjustments == bumped(
            state.stats.total_adjustments,
        ),
        after_loss(state, config, loss_ppm, now_ms).stats.quality_increases
            == state.stats.quality_increases,
{
    let recorded = with_loss(state, config, loss_ppm);
    assert(should_reduce(recorded, config));
    lemma_scaled_down(state.quality as nat, config.degradation_factor_permille as nat);
    lemma_scaled_down(state.bitrate as nat, config.degradation_factor_permille as nat);
}

/// However many samples come in, however extreme and whenever, quality and
/// bitrate never leave their configured bounds.
pub proof fn lemma_samples_keep_bounds(
    state: BitrateState,
    config: AdaptiveBitrateConfig,
    samples: Seq<Sample>,
)
    requires
        config.valid(),
        bounded(state, config),
    ensures
        bounded(after_samples(state, config, samples), config),
    decreases samples.len(),
{
    if samples.len() > 0 {
        lemma_samples_keep_bounds(state, config, samples.drop_last());
        let before = after_samples(state, config, samples.drop_last());
        match samples.last() {
            Sample::Rtt { rtt_ms, now_ms } => lemma_rtt_keeps_bounds(before, config, rtt_ms, now_ms),
            Sample::Loss { loss_ppm, now_ms } => lemma_loss_keeps_bounds(
                before,
                config,
                loss_ppm,
                now_ms,
            ),
        }
    }
}

/// Every sample is a round-trip time above `threshold_ms`.
pub open spec fn all_slow(samples: Seq<Sample>, threshold_ms: u64) -> bool {
    forall|i: int| 0 <= i < samples.len() ==> slow(#[trigger] samples[i], threshold_ms)
}

/// The sample is a round-trip time above `threshold_ms`.
pub open spec fn slow(sample: Sample, threshold_ms: u64) -> bool {
    sample matches Sample::Rtt { rtt_ms, .. } && rtt_ms > threshold_ms
}

/// After any number of round-trip samples above the high threshold, taken
/// in by a controller whose window held none below it, quality and bitrate
/// are at most what they were, whatever time passed between the samples.
pub proof fn lemma_sustained_high_rtt(
    state: BitrateState,
    config: AdaptiveBitrateConfig,
    samples: Seq<Sample>,
)
    requires
        config.valid(),
        bounded(state, config),
        config.history_size > 0,
        all_above(state.rtts, config.high_rtt_threshold_ms),
        all_slow(samples, config.high_rtt_threshold_ms),
    ensures
        after_samples(state, config, samples).quality <= state.quality,
        after_samples(state, config, samples).bitrate <= state.bitrate,
        all_above(after_samples(state, config, samples).rtts, config.high_rtt_threshold_ms),
    decreases samples.len(),
{
    if samples.len() > 0 {
        let front = samples.drop_last();
        assert forall|i: int| 0 <= i < front.len() implies slow(
            #[trigger] front[i],
            config.high_rtt_threshold_ms,
        ) by {
            assert(front[i] == samples[i]);
        }
        lemma_sustained_high_rtt(state, config, front);
        lemma_samples_keep_bounds(state, config, front);
        let before = after_samples(state, config, front);
        let last = samples[samples.len() - 1];
        assert(slow(last, config.high_rtt_threshold_ms));
        match last {
            Sample::Rtt { rtt_ms, now_ms } => {
                lemma_high_rtt_never_raises(before, config, rtt_ms, now_ms);
            },
            Sample::Loss { .. } => {},
        }
    }
}

/// Samples that come in after a first one leave what they would leave on
/// the state that the first one left.
pub proof fn lemma_first_sample(
    state: BitrateState,
    config: AdaptiveBitrateConfig,
    first: Sample,
    rest: Seq<Sample>,
)
    ensures
        after_samples(state, config, seq![first] + rest) == after_samples(
            after_sample(state, config, first),
            config,
            rest,
        ),
    decreases rest.len(),
{
    let all = seq![first] + rest;
    if rest.len() == 0 {
        assert(all.drop_last() =~= Seq::<Sample>::empty());
        assert(all.last() == first);
        assert(after_samples(state, config, all.drop_last()) == state);
    } else {
        assert(all.drop_last() =~= seq![first] + rest.drop_last());
        assert(all.last() == rest.last());
        lemma_first_sample(state, config, first, rest.drop_last());
    }
}

/// Sustained high latency lowers the targets: after one or more round-trip
/// samples above the high threshold, the first of which comes in once the
/// adjustment interval has passed since the measurement before, taken in by
/// a controller whose window held none below it, quality and bitrate are at
/// most what one reduction leaves of them.
pub proof fn lemma_sustained_high_rtt_reduces(
    state: BitrateState,
    config: AdaptiveBitrateConfig,
    samples: Seq<Sample>,
)
    requires
        config.valid(),
        bounded(state, config),
        config.history_size > 0,
        all_above(state.rtts, config.high_rtt_threshold_ms),
        all_slow(samples, config.high_rtt_threshold_ms),
        samples.len() > 0,
        elapsed_ms(state, taken_at(samples[0])) >= config.adjustment_interval_ms,
    ensures
        after_samples(state, config, samples).quality <= degraded(
            state.quality as nat,
            config,
            config.min_quality as nat,
        ),
        after_samples(state, config, samples).bitrate <= degraded(
            state.bitrate as nat,
            config,
            config.min_bitrate as nat,
        ),
{
    let first = samples[0];
    let rest = samples.drop_first();
    assert(samples =~= seq![first] + rest);
    lemma_first_sample(state, config, first, rest);
    assert(slow(first, config.high_rtt_threshold_ms));
    assert forall|i: int| 0 <= i < rest.len() implies slow(
        #[trigger] rest[i],
        config.high_rtt_threshold_ms,
    ) by {
        assert(rest[i] == samples[i + 1]);
    }
    match first {
        Sample::Rtt { rtt_ms, now_ms } => {
            let rtts = pushed(state.rtts, rtt_ms, config.history_size as nat);
            lemma_high_rtt_never_raises(state, config, rtt_ms, now_ms);
            assert(rtts.len() > 0) by {
                let grown = state.rtts.push(rtt_ms);
                if grown.len() > config.history_size {
                    assert(grown.len() >= 2);
                }
            }
            lemma_mean_above(rtts, DEFAULT_RTT_MS, config.high_rtt_threshold_ms);
            lemma_poor_rtt_reduces(state, config, rtt_ms, now_ms);
            lemma_rtt_keeps_bounds(state, config, rtt_ms, now_ms);
            let second = after_rtt(state, config, rtt_ms, now_ms);
            lemma_sustained_high_rtt(second, config, rest);
        },
        Sample::Loss { .. } => {},
    }
}

/// Every sample is calm: a round-trip time of at most `rtt_ms`, or a loss
/// rate of at most `loss_ppm`.
pub open spec fn all_calm(samples: Seq<Sample>, rtt_ms: u64, loss_ppm: u32) -> bool {
    forall|i: int|
        0 <= i < samples.len() ==> match #[trigger] samples[i] {
            Sample::Rtt { rtt_ms: sample, .. } => sample <= rtt_ms,
            Sample::Loss { loss_ppm: sample, .. } => sample <= loss_ppm,
        }
}

/// After any number of calm samples, round-trip times of at most the high
/// threshold and loss rates of at most theirs, taken in by a controller
/// whose windows held none above them, quality and bitrate are at least what
/// they were, whatever time passed between the samples. The round-trip time
/// assumed while there is no sample must not be above the high threshold.
pub proof fn lemma_sustained_calm(
    state: BitrateState,
    config: AdaptiveBitrateConfig,
    samples: Seq<Sample>,
)
    requires
        config.valid(),
        bounded(state, config),
        DEFAULT_RTT_MS <= config.high_rtt_threshold_ms,
        config.high_packet_loss_threshold_ppm <= FULL_LOSS_PPM,
        all_at_most(state.rtts, config.high_rtt_threshold_ms),
        all_at_most(state.losses, config.high_packet_loss_threshold_ppm as u64),
        all_calm(samples, config.high_rtt_threshold_ms, config.high_packet_loss_threshold_ppm),
    ensures
        after_samples(state, config, samples).quality >= state.quality,
        after_samples(state, config, samples).bitrate >= state.bitrate,
        all_at_most(after_samples(state, config, samples).rtts, config.high_rtt_threshold_ms),
        all_at_most(
            after_samples(state, config, samples).losses,
            config.high_packet_loss_threshold_ppm as u64,
        ),
    decreases samples.len(),
{
    if samples.len() > 0 {
        let front = samples.drop_last();
        assert forall|i: int| 0 <= i < front.len() implies match #[trigger] front[i] {
            Sample::Rtt { rtt_ms: sample, .. } => sample <= config.high_rtt_threshold_ms,
            Sample::Loss { loss_ppm: sample, .. } => sample
                <= config.high_packet_loss_threshold_ppm,
        } by {
            assert(front[i] == samples[i]);
        }
        lemma_sustained_calm(state, config, front);
        lemma_samples_keep_bounds(state, config, front);
        let before = after_samples(state, config, front);
        let last = samples[samples.len() - 1];
        let rtt_bound = config.high_rtt_threshold_ms;
        let loss_bound = config.high_packet_loss_threshold_ppm as u64;
        lemma_mean_at_most(before.rtts, DEFAULT_RTT_MS, rtt_bound);
        lemma_mean_at_most(before.losses, 0, loss_bound);
        match last {
            Sample::Rtt { rtt_ms, now_ms } => {
                let rtts = pushed(before.rtts, rtt_ms, config.history_size as nat);
                lemma_pushed(before.rtts, rtt_ms, config.history_size as nat);
                assert forall|i: int| 0 <= i < rtts.len() implies #[trigger] rtts[i]
                    <= rtt_bound by {
                    if rtts[i] != rtt_ms {
                        let j = choose|j: int| 0 <= j < before.rtts.len() && before.rtts[j] == rtts[i];
                        assert(before.rtts[j] <= rtt_bound);
                    }
                }
                lemma_mean_at_most(rtts, DEFAULT_RTT_MS, rtt_bound);
                lemma_calm_rtt_never_lowers(before, config, rtt_ms, now_ms);
            },
            Sample::Loss { loss_ppm, now_ms } => {
                let sample = at_most(loss_ppm as nat, FULL_LOSS_PPM as nat) as u64;
                let losses = pushed(before.losses, sample, config.history_size as nat);
                lemma_pushed(before.losses, sample, config.history_size as nat);
                assert forall|i: int| 0 <= i < losses.len() implies #[trigger] losses[i]
                    <= loss_bound by {
                    if losses[i] != sample {
                        let j = choose|j: int|
                            0 <= j < before.losses.len() && before.losses[j] == losses[i];
                        assert(before.losses[j] <= loss_bound);
                    }
                }
                lemma_mean_at_most(losses, 0, loss_bound);
                lemma_calm_loss_never_lowers(before, config, loss_ppm, now_ms);
            },
        }
    }
}

/// The controller: current targets, the two history windows, the time of the
/// last measurement, the configuration and the statistics.
pub struct AdaptiveBitrateController {
    current_bitrate: u32,
    current_quality: u8,
    rtt_history: VecDeque<u64>,
    packet_loss_history: VecDeque<u64>,
    last_measurement_ms: u64,
    config: AdaptiveBitrateConfig,
    stats: AdaptiveBitrateStats,
}

impl View for AdaptiveBitrateController {
    type V = BitrateState;

    closed spec fn view(&self) -> BitrateState {
        BitrateState {
            bitrate: self.current_bitrate,
            quality: self.current_quality,
            rtts: self.rtt_history@,
            losses: self.packet_loss_history@,
            last_measurement_ms: self.last_measurement_ms,
            stats: self.stats,
        }
    }
}

fn sum_of(samples: &VecDeque<u64>) -> (sum: u128)
    ensures
        sum == total(samples@),
        sum <= samples.len() * u64::MAX,
{
    let mut sum: u128 = 0;
    let mut i: usize = 0;
    while i < samples.len()
        invariant
            i <= samples.len(),
            sum == total(samples@.take(i as int)),
            sum <= i * u64::MAX,
        decreases samples.len() - i,
    {
        assert(samples@.take(i + 1).drop_last() =~= samples@.take(i as int));
        assert((i + 1) * u64::MAX == i * u64::MAX + u64::MAX) by (nonlinear_arith);
        assert(i * u64::MAX <= usize::MAX * u64::MAX) by (nonlinear_arith)
            requires
                i <= usize::MAX,
        ;
        sum = sum + samples[i] as u128;
        i += 1;
    }
    assert(samples@.take(samples.len() as int) =~= samples@);
    sum
}

fn mean_of(samples: &VecDeque<u64>, default: u64) -> (m: u64)
    ensures
        m == mean(samples@, default),
{
    if samples.len() == 0 {
        return default;
    }
    let sum = sum_of(samples);
    proof {
        assert(all_at_most(samples@, u64::MAX));
        lemma_mean_at_most(samples@, default, u64::MAX);
    }
    (sum / samples.len() as u128) as u64
}

fn push_sample(window: &mut VecDeque<u64>, sample: u64, capacity: usize)
    ensures
        final(window)@ == pushed(old(window)@, sample, capacity as nat),
{
    window.push_back(sample);
    if window.len() > capacity {
        let _ = window.pop_front();
        assert(window@ =~= old(window)@.push(sample).drop_first());
    }
}

fn scale(value: u32, factor: u32) -> (r: u64)
    ensures
        r == scaled(value as nat, factor as nat),
{
    assert(value * factor <= u32::MAX * u32::MAX) by (nonlinear_arith)
        requires
            value <= u32::MAX,
            factor <= u32::MAX,
    ;
    (value as u64 * factor as u64) / 1000
}

fn bump(count: u64) -> (r: u64)
    ensures
        r == bumped(count),
{
    if count == u64::MAX {
        count
    } else {
        count + 1
    }
}

impl AdaptiveBitrateController {
    /// The configuration the controller was made with.
    pub closed spec fn config(&self) -> AdaptiveBitrateConfig {
        self.config
    }

    /// The configuration is valid, and quality and bitrate lie within its
    /// bounds.
    pub open spec fn wf(&self) -> bool {
        self.config().valid() && bounded(self@, self.config())
    }

    /// A controller with the default configuration, whose clock starts now.
    pub fn new() -> (controller: Self)
        ensures
            controller.wf(),
            controller.config() == AdaptiveBitrateConfig::default_config(),
            exists|now_ms: u64| controller@ == controller.config().initial_state(now_ms),
    {
        Self::with_config(AdaptiveBitrateConfig::default())
    }

    /// A controller with the configuration `config`, whose clock starts now:
    /// quality and bitrate start midway between their bounds.
    pub fn with_config(config: AdaptiveBitrateConfig) -> (controller: Self)
        requires
            config.valid(),
        ensures
            controller.wf(),
            controller.config() == config,
            exists|now_ms: u64| controller@ == config.initial_state(now_ms),
    {
        let now_ms = unix_millis();
        let controller = Self::with_config_at(config, now_ms);
        assert(controller@ == config.initial_state(now_ms));
        controller
    }

    /// A controller with the configuration `config`, made at `now_ms`.
    pub fn with_config_at(config: AdaptiveBitrateConfig, now_ms: u64) -> (controller: Self)
        requires
            config.valid(),
        ensures
            controller.wf(),
            controller.config() == config,
            controller@ == config.initial_state(now_ms),
    {
        let initial_quality: u8 = ((config.min_quality as u16 + config.max_quality as u16)
            / 2) as u8;
        let initial_bitrate: u32 = ((config.min_bitrate as u64 + config.max_bitrate as u64)
            / 2) as u32;
        AdaptiveBitrateController {
            current_bitrate: initial_bitrate,
            current_quality: initial_quality,
            rtt_history: VecDeque::new(),
            packet_loss_history: VecDeque::new(),
            last_measurement_ms: now_ms,
            config,
            stats: AdaptiveBitrateStats::default(),
        }
    }

    /// The current image quality.
    pub fn get_quality(&self) -> (quality: u8)
        ensures
            quality == self@.quality,
    {
        self.current_quality
    }

    /// The current bitrate, in kbps.
    pub fn get_bitrate(&self) -> (bitrate: u32)
        ensures
            bitrate == self@.bitrate,
    {
        self.current_bitrate
    }

    /// The statistics.
    pub fn get_stats(&self) -> (stats: &AdaptiveBitrateStats)
        ensures
            *stats == self@.stats,
    {
        &self.stats
    }

    /// Takes a round-trip sample in, measured now: the outcome is that of
    /// `update_rtt_at` for the whole milliseconds of `rtt` and some time.
    pub fn update_rtt(&mut self, rtt: Duration)
        requires
            old(self).wf(),
        ensures
            final(self).wf(),
            final(self).config() == old(self).config(),
            exists|now_ms: u64|
                final(self)@ == after_rtt(old(self)@, old(self).config(), millis_u64(rtt), now_ms),
    {
        let now_ms = unix_millis();
        self.update_rtt_at(whole_millis(&rtt), now_ms);
        assert(self@ == after_rtt(old(self)@, old(self).config(), millis_u64(rtt), now_ms));
    }

    /// Takes in a round-trip sample of `rtt_ms` milliseconds measured at
    /// `now_ms`: the sample enters the window, the average is renewed, the
    /// adjustment step runs where the adjustment interval has passed since
    /// the measurement before, and the measurement time is renewed.
    pub fn update_rtt_at(&mut self, rtt_ms: u64, now_ms: u64)
        requires
            old(self).wf(),
        ensures
            final(self).wf(),
            final(self).config() == old(self).config(),
            final(self)@ == after_rtt(old(self)@, old(self).config(), rtt_ms, now_ms),
    {
        proof {
            lemma_rtt_keeps_bounds(self@, self.config, rtt_ms, now_ms);
        }
        push_sample(&mut self.rtt_history, rtt_ms, self.config.history_size);
        self.stats.average_rtt_ms = self.average_rtt();
        self.maybe_adjust(now_ms);
        self.last_measurement_ms = now_ms;
    }

    /// Takes a loss sample in, seen now: the outcome is that of
    /// `update_packet_loss_at` for some time.
    pub fn update_packet_loss(&mut self, loss_ppm: u32)
        requires
            old(self).wf(),
        ensures
            final(self).wf(),
            final(self).config() == old(self).config(),
            exists|now_ms: u64|
                final(self)@ == after_loss(old(self)@, old(self).config(), loss_ppm, now_ms),
    {
        let now_ms = unix_millis();
        self.update_packet_loss_at(loss_ppm, now_ms);
        assert(self@ == after_loss(old(self)@, old(self).config(), loss_ppm, now_ms));
    }

    /// Takes in a loss sample of `loss_ppm` parts per million seen at
    /// `now_ms`: the sample, at most one million, enters the window, the
    /// average is renewed, the adjustment step runs where the adjustment
    /// interval has passed since the measurement before, and the measurement
    /// time is renewed.
    pub fn update_packet_loss_at(&mut self, loss_ppm: u32, now_ms: u64)
        requires
            old(self).wf(),
        ensures
            final(self).wf(),
            final(self).config() == old(self).config(),
            final(self)@ == after_loss(old(self)@, old(self).config(), loss_ppm, now_ms),
    {
        proof {
            lemma_loss_keeps_bounds(self@, self.config, loss_ppm, now_ms);
        }
        let sample: u64 = if loss_ppm > FULL_LOSS_PPM {
            FULL_LOSS_PPM as u64
        } else {
            loss_ppm as u64
        };
        let ghost before = self.packet_loss_history@;
        push_sample(&mut self.packet_loss_history, sample, self.config.history_size);
        proof {
            lemma_pushed(before, sample, self.config.history_size as nat);
            assert forall|i: int| 0 <= i < self.packet_loss_history@.len() implies
                #[trigger] self.packet_loss_history@[i] <= FULL_LOSS_PPM by {
                if self.packet_loss_history@[i] != sample {
                    let j = choose|j: int|
                        0 <= j < before.len() && before[j] == self.packet_loss_history@[i];
                    assert(before[j] <= FULL_LOSS_PPM);
                }
            }
            assert(all_at_most(self.packet_loss_history@, FULL_LOSS_PPM as u64));
            lemma_mean_at_most(self.packet_loss_history@, 0, FULL_LOSS_PPM as u64);
        }
        self.stats.average_packet_loss_ppm = self.average_packet_loss() as u32;
        self.maybe_adjust(now_ms);
        self.last_measurement_ms = now_ms;
    }

    fn average_rtt(&self) -> (m: u64)
        ensures
            m == mean(self@.rtts, DEFAULT_RTT_MS),
    {
        mean_of(&self.rtt_history, DEFAULT_RTT_MS)
    }

    fn average_packet_loss(&self) -> (m: u64)
        ensures
            m == mean(self@.losses, 0),
    {
        mean_of(&self.packet_loss_history, 0)
    }

    fn maybe_adjust(&mut self, now_ms: u64)
        ensures
            final(self).config() == old(self).config(),
            final(self)@ == adjusted(old(self)@, old(self).config(), now_ms),
    {
        let elapsed: u64 = if now_ms >= self.last_measurement_ms {
            now_ms - self.last_measurement_ms
        } else {
            0
        };
        if elapsed < self.config.adjustment_interval_ms {
            return ;
        }
        let avg_rtt = self.average_rtt();
        let avg_loss = self.average_packet_loss();
        let should_reduce = avg_rtt > self.config.high_rtt_threshold_ms || avg_loss
            > self.config.high_packet_loss_threshold_ppm as u64;
        let should_improve = avg_rtt < self.config.low_rtt_threshold_ms && avg_loss as u128 * 2
            < self.config.high_packet_loss_threshold_ppm as u128;
        if should_reduce {
            self.reduce_quality();
        } else if should_improve {
            self.increase_quality();
        }
    }

    fn reduce_quality(&mut self)
        ensures
            final(self).config() == old(self).config(),
            final(self)@ == reduced(old(self)@, old(self).config()),
    {
        let factor = self.config.degradation_factor_permille;
        let bitrate = scale(self.current_bitrate, factor);
        let bitrate: u32 = if bitrate > u32::MAX as u64 {
            u32::MAX
        } else {
            bitrate as u32
        };
        self.current_bitrate = if bitrate < self.config.min_bitrate {
            self.config.min_bitrate
        } else {
            bitrate
        };
        let quality = scale(self.current_quality as u32, factor);
        let quality: u8 = if quality > u8::MAX as u64 {
            u8::MAX
        } else {
            quality as u8
        };
        self.current_quality = if quality < self.config.min_quality {
            self.config.min_quality
        } else {
            quality
        };
        self.stats.quality_reductions = bump(self.stats.quality_reductions);
        self.stats.total_adjustments = bump(self.stats.total_adjustments);
    }

    fn increase_quality(&mut self)
        ensures
            final(self).config() == old(self).config(),
            final(self)@ == increased(old(self)@, old(self).config()),
    {
        let old_quality = self.current_quality;
        let old_bitrate = self.current_bitrate;
        let factor = self.config.improvement_factor_permille;
        let bitrate = scale(self.current_bitrate, factor);
        let bitrate: u32 = if bitrate > u32::MAX as u64 {
            u32::MAX
        } else {
            bitrate as u32
        };
        self.current_bitrate = if bitrate > self.config.max_bitrate {
            self.config.max_bitrate
        } else {
            bitrate
        };
        let quality = scale(self.current_quality as u32, factor);
        let quality: u8 = if quality > u8::MAX as u64 {
            u8::MAX
        } else {
            quality as u8
        };
        self.current_quality = if quality > self.config.max_quality {
            self.config.max_quality
        } else {
            quality
        };
        if self.current_quality == old_quality && self.current_bitrate == old_bitrate {
            return ;
        }
        self.stats.quality_increases = bump(self.stats.quality_increases);
        self.stats.total_adjustments = bump(self.stats.total_adjustments);
    }

    /// Back to the starting targets, with empty windows and statistics at
    /// zero; the time of the last measurement stays.
    pub fn reset(&mut self)
        requires
            old(self).config().valid(),
        ensures
            final(self).wf(),
            final(self).config() == old(self).config(),
            final(self)@ == old(self).config().initial_state(old(self)@.last_measurement_ms),
    {
        self.current_quality = ((self.config.min_quality as u16 + self.config.max_quality as u16)
            / 2) as u8;
        self.current_bitrate = ((self.config.min_bitrate as u64 + self.config.max_bitrate as u64)
            / 2) as u32;
        self.rtt_history.clear();
        self.packet_loss_history.clear();
        self.stats = AdaptiveBitrateStats::default();
    }
}

} // verus!
