//! Telemetry: counters and running totals of what the engine did, kept as
//! raw integers. Rates and averages are computed from the counters when
//! they are read, never stored.

use crate::error::{str_eq, ImageError};
use crate::quality::Ratio;
use crate::types::ImageFormat;
use std::time::Duration;
use std::time::Instant;
use vstd::prelude::*;

verus! {

/// A point in time of the monotonic clock.
#[verifier::external_type_specification]
#[verifier::external_body]
pub struct ExInstant(Instant);

/// `Instant::now` reads the clock: nothing is known of what it returns.
pub assume_specification[ Instant::now ]() -> (now: Instant);

/// `Instant::elapsed` reads the clock: nothing is known of what it returns.
pub assume_specification[ Instant::elapsed ](start: &Instant) -> (elapsed: Duration);

/// `Duration::as_micros` gives the whole microseconds of a duration. A
/// duration is opaque here, so nothing is stated of the number.
pub assume_specification[ Duration::as_micros ](duration: &Duration) -> (micros: u128);

/// The number of format pairs.
pub const PAIR_COUNT: usize = 64;

/// `a + b`, or the largest `u64` where the sum does not fit.
pub open spec fn saturating_sum(a: u64, b: u64) -> u64 {
    if a + b > u64::MAX {
        u64::MAX
    } else {
        (a + b) as u64
    }
}

/// Adds, stopping at the largest `u64`.
pub fn add_saturating(a: u64, b: u64) -> (sum: u64)
    ensures
        sum == saturating_sum(a, b),
{
    if a > u64::MAX - b {
        u64::MAX
    } else {
        a + b
    }
}

/// The whole microseconds of `duration`, or the largest `u64` where they
/// do not fit.
pub fn micros_of(duration: &Duration) -> (micros: u64) {
    saturating_micros(duration.as_micros())
}

/// `micros` as a `u64`, or the largest `u64` where it does not fit.
pub fn saturating_micros(micros: u128) -> (m: u64)
    ensures
        micros <= u64::MAX ==> m == micros,
        micros > u64::MAX ==> m == u64::MAX,
{
    if micros > u64::MAX as u128 {
        u64::MAX
    } else {
        micros as u64
    }
}

/// The slot of the pair of formats `from` and `to`.
pub open spec fn pair_slot(from: ImageFormat, to: ImageFormat) -> int {
    (from.rank() * 8 + to.rank()) as int
}

/// Different pairs have different slots.
pub proof fn lemma_pair_slot_injective(a: ImageFormat, b: ImageFormat, c: ImageFormat, d: ImageFormat)
    requires
        pair_slot(a, b) == pair_slot(c, d),
    ensures
        a == c,
        b == d,
{
}

/// What the engine has done since it was made or last reset.
#[derive(Debug, Clone)]
pub struct ConversionStatistics {
    /// Conversions attempted.
    pub total_conversions: u64,
    /// Conversions that gave an image.
    pub successful_conversions: u64,
    /// Conversions that failed.
    pub failed_conversions: u64,
    /// Time spent in conversions, in microseconds.
    pub total_processing_time_us: u64,
    /// Bytes taken in by successful conversions.
    pub total_bytes_processed: u64,
    /// Bytes given out by successful conversions.
    pub total_bytes_produced: u64,
    /// Conversions attempted for each pair of formats.
    pub pair_counts: Vec<u64>,
}

impl ConversionStatistics {
    /// The invariant of the statistics: every conversion either succeeded
    /// or failed, and there is a counter for each pair of formats, which
    /// together count every conversion at most once.
    pub open spec fn wf(&self) -> bool {
        &&& self.successful_conversions + self.failed_conversions == self.total_conversions
        &&& self.pair_counts@.len() == PAIR_COUNT
        &&& forall|i: int| 0 <= i < PAIR_COUNT ==> self.pair_counts@[i] <= self.total_conversions
    }

    /// Nothing has been recorded.
    pub open spec fn is_initial(&self) -> bool {
        &&& self.total_conversions == 0
        &&& self.successful_conversions == 0
        &&& self.failed_conversions == 0
        &&& self.total_processing_time_us == 0
        &&& self.total_bytes_processed == 0
        &&& self.total_bytes_produced == 0
        &&& self.pair_counts@.len() == PAIR_COUNT
        &&& forall|i: int| 0 <= i < PAIR_COUNT ==> self.pair_counts@[i] == 0
    }

    /// `self` is `before` with one more conversion from `from` to `to`,
    /// which took `duration_us` and, where it succeeded, turned
    /// `input_bytes` into `output_bytes`. Totals stop at the largest `u64`.
    pub open spec fn is_next(
        &self,
        before: &Self,
        from: ImageFormat,
        to: ImageFormat,
        duration_us: u64,
        input_bytes: u64,
        output_bytes: u64,
        success: bool,
    ) -> bool {
        &&& self.total_conversions == before.total_conversions + 1
        &&& self.successful_conversions == before.successful_conversions + if success {
            1int
        } else {
            0int
        }
        &&& self.failed_conversions == before.failed_conversions + if success {
            0int
        } else {
            1int
        }
        &&& self.total_processing_time_us == saturating_sum(
            before.total_processing_time_us,
            duration_us,
        )
        &&& self.total_bytes_processed == if success {
            saturating_sum(before.total_bytes_processed, input_bytes)
        } else {
            before.total_bytes_processed
        }
        &&& self.total_bytes_produced == if success {
            saturating_sum(before.total_bytes_produced, output_bytes)
        } else {
            before.total_bytes_produced
        }
        &&& self.pair_counts@ == before.pair_counts@.update(
            pair_slot(from, to),
            (before.pair_counts@[pair_slot(from, to)] + 1) as u64,
        )
    }

    /// Statistics with nothing recorded.
    pub fn new() -> (stats: Self)
        ensures
            stats.wf(),
            stats.is_initial(),
    {
        let mut pair_counts: Vec<u64> = Vec::new();
        let mut i: usize = 0;
        while i < PAIR_COUNT
            invariant
                i <= PAIR_COUNT,
                pair_counts@.len() == i,
                forall|k: int| 0 <= k < i ==> pair_counts@[k] == 0,
            decreases PAIR_COUNT - i,
        {
            pair_counts.push(0);
            i += 1;
        }
        ConversionStatistics {
            total_conversions: 0,
            successful_conversions: 0,
            failed_conversions: 0,
            total_processing_time_us: 0,
            total_bytes_processed: 0,
            total_bytes_produced: 0,
            pair_counts,
        }
    }

    /// Records one conversion. Once the number of conversions has reached
    /// the largest `u64`, nothing more is recorded.
    pub fn record(
        &mut self,
        from: ImageFormat,
        to: ImageFormat,
        duration_us: u64,
        input_bytes: u64,
        output_bytes: u64,
        success: bool,
    )
        requires
            old(self).wf(),
        ensures
            final(self).wf(),
            old(self).total_conversions < u64::MAX ==> final(self).is_next(
                old(self),
                from,
                to,
                duration_us,
                input_bytes,
                output_bytes,
                success,
            ),
            old(self).total_conversions == u64::MAX ==> *final(self) == *old(self),
    {
        if self.total_conversions == u64::MAX {
            return ;
        }
        let slot = from.index() * 8 + to.index();
        let count = self.pair_counts[slot];
        self.total_conversions = self.total_conversions + 1;
        if success {
            self.successful_conversions = self.successful_conversions + 1;
            self.total_bytes_processed = add_saturating(self.total_bytes_processed, input_bytes);
            self.total_bytes_produced = add_saturating(self.total_bytes_produced, output_bytes);
        } else {
            self.failed_conversions = self.failed_conversions + 1;
        }
        self.total_processing_time_us = add_saturating(self.total_processing_time_us, duration_us);
        self.pair_counts.set(slot, count + 1);
    }

    /// How many conversions from `from` to `to` were attempted.
    pub fn pair_count(&self, from: ImageFormat, to: ImageFormat) -> (count: u64)
        requires
            self.wf(),
        ensures
            count == self.pair_counts@[pair_slot(from, to)],
    {
        self.pair_counts[from.index() * 8 + to.index()]
    }

    /// The share of conversions that succeeded, and zero where there was
    /// none.
    pub fn success_rate(&self) -> (rate: Ratio)
        requires
            self.wf(),
        ensures
            rate.is_unit(),
            self.total_conversions > 0 ==> rate == (Ratio {
                numerator: self.successful_conversions,
                denominator: self.total_conversions,
            }),
            self.total_conversions == 0 ==> rate.is_zero(),
    {
        if self.total_conversions == 0 {
            Ratio::zero()
        } else {
            Ratio { numerator: self.successful_conversions, denominator: self.total_conversions }
        }
    }

    /// The mean time of a conversion in microseconds, rounded down, and
    /// zero where there was none.
    pub fn average_processing_time_us(&self) -> (mean: u64)
        ensures
            self.total_conversions > 0 ==> mean == self.total_processing_time_us
                / self.total_conversions,
            self.total_conversions == 0 ==> mean == 0,
    {
        if self.total_conversions == 0 {
            0
        } else {
            self.total_processing_time_us / self.total_conversions
        }
    }

    /// Bytes given out over bytes taken in, and one where nothing was
    /// taken in.
    pub fn compression_ratio(&self) -> (ratio: Ratio)
        ensures
            self.total_bytes_processed > 0 ==> ratio == (Ratio {
                numerator: self.total_bytes_produced,
                denominator: self.total_bytes_processed,
            }),
            self.total_bytes_processed == 0 ==> ratio.is_one(),
    {
        if self.total_bytes_processed == 0 {
            Ratio::one()
        } else {
            Ratio { numerator: self.total_bytes_produced, denominator: self.total_bytes_processed }
        }
    }

    /// Bytes taken in for each microsecond spent, and zero where no time
    /// was spent.
    pub fn throughput(&self) -> (rate: Ratio)
        ensures
            self.total_processing_time_us > 0 ==> rate == (Ratio {
                numerator: self.total_bytes_processed,
                denominator: self.total_processing_time_us,
            }),
            self.total_processing_time_us == 0 ==> rate.is_zero(),
    {
        if self.total_processing_time_us == 0 {
            Ratio::zero()
        } else {
            Ratio {
                numerator: self.total_bytes_processed,
                denominator: self.total_processing_time_us,
            }
        }
    }
}


/// What a monitor watches and how much it keeps.
#[derive(Debug, Clone, Copy)]
pub struct MonitorConfig {
    pub enable_detailed_monitoring: bool,
    /// How many snapshots the history keeps.
    pub max_history_entries: usize,
    pub sampling_interval_ms: u64,
    pub monitor_memory: bool,
    pub monitor_cpu: bool,
}

impl Default for MonitorConfig {
    fn default() -> (config: Self)
        ensures
            config.enable_detailed_monitoring,
            config.max_history_entries == 1000,
            config.sampling_interval_ms == 100,
            config.monitor_memory,
            config.monitor_cpu,
    {
        MonitorConfig {
            enable_detailed_monitoring: true,
            max_history_entries: 1000,
            sampling_interval_ms: 100,
            monitor_memory: true,
            monitor_cpu: true,
        }
    }
}

/// Time spent, in microseconds.
#[derive(Debug, Clone, Copy, PartialEq, Eq, Structural)]
pub struct TimingMetrics {
    pub total_time_us: u64,
    pub decode_time_us: u64,
    pub encode_time_us: u64,
    pub processing_time_us: u64,
}

/// Memory used.
#[derive(Debug, Clone, Copy, PartialEq, Eq, Structural)]
pub struct MemoryMetrics {
    /// The high-water mark.
    pub peak_memory_bytes: u64,
    pub allocations_count: u32,
    pub deallocations_count: u32,
}

/// Work done.
#[derive(Debug, Clone, Copy, PartialEq, Eq, Structural)]
pub struct ThroughputMetrics {
    pub images_processed: u64,
    pub bytes_processed: u64,
    pub pixels_processed: u64,
}

/// How the work was run.
#[derive(Debug, Clone, Copy, PartialEq, Eq, Structural)]
pub struct SystemMetrics {
    pub threads_used: usize,
    pub simd_utilized: bool,
}

/// The raw counters of a monitor.
#[derive(Debug, Clone, Copy, PartialEq, Eq, Structural)]
pub struct PerformanceMetrics {
    pub timing: TimingMetrics,
    pub memory: MemoryMetrics,
    pub throughput: ThroughputMetrics,
    pub system: SystemMetrics,
}

impl PerformanceMetrics {
    /// The counters of a monitor that has seen nothing: all zero, on one
    /// thread.
    pub open spec fn initial() -> PerformanceMetrics {
        PerformanceMetrics {
            timing: TimingMetrics {
                total_time_us: 0,
                decode_time_us: 0,
                encode_time_us: 0,
                processing_time_us: 0,
            },
            memory: MemoryMetrics { peak_memory_bytes: 0, allocations_count: 0, deallocations_count: 0 },
            throughput: ThroughputMetrics { images_processed: 0, bytes_processed: 0, pixels_processed: 0 },
            system: SystemMetrics { threads_used: 1, simd_utilized: false },
        }
    }

    /// The counters of a monitor that has seen nothing.
    pub fn new() -> (metrics: Self)
        ensures
            metrics == Self::initial(),
    {
        PerformanceMetrics {
            timing: TimingMetrics {
                total_time_us: 0,
                decode_time_us: 0,
                encode_time_us: 0,
                processing_time_us: 0,
            },
            memory: MemoryMetrics { peak_memory_bytes: 0, allocations_count: 0, deallocations_count: 0 },
            throughput: ThroughputMetrics { images_processed: 0, bytes_processed: 0, pixels_processed: 0 },
            system: SystemMetrics { threads_used: 1, simd_utilized: false },
        }
    }

    /// Images for each microsecond of `elapsed_us`, and zero where no time
    /// has passed.
    pub fn images_per_microsecond(&self, elapsed_us: u64) -> (rate: Ratio)
        ensures
            elapsed_us > 0 ==> rate == (Ratio {
                numerator: self.throughput.images_processed,
                denominator: elapsed_us,
            }),
            elapsed_us == 0 ==> rate.is_zero(),
    {
        if elapsed_us == 0 {
            Ratio::zero()
        } else {
            Ratio { numerator: self.throughput.images_processed, denominator: elapsed_us }
        }
    }
}

/// The counters of a monitor at one moment.
#[derive(Debug, Clone)]
pub struct PerformanceSnapshot {
    /// Microseconds since the monitor was made or last reset.
    pub elapsed_us: u64,
    pub metrics: PerformanceMetrics,
    /// The operation that had just ended.
    pub operation: String,
}

/// Memory used by one operation.
#[derive(Debug, Clone, Copy, PartialEq, Eq, Structural)]
pub struct MemoryStats {
    pub peak_usage: u64,
    pub average_usage: u64,
    pub allocation_count: u32,
}

/// What is known of one named operation.
#[derive(Debug, Clone)]
pub struct OperationStats {
    pub operation_name: String,
    /// How often the operation ran.
    pub execution_count: u32,
    /// How often it failed.
    pub error_count: u32,
    /// The time it took in all, in microseconds.
    pub total_time_us: u64,
    pub memory_stats: MemoryStats,
}

impl OperationStats {
    /// The mean time of one run in microseconds, rounded down, and zero
    /// where the operation never ran.
    pub fn average_time_us(&self) -> (mean: u64)
        ensures
            self.execution_count > 0 ==> mean == self.total_time_us / (self.execution_count as u64),
            self.execution_count == 0 ==> mean == 0,
    {
        if self.execution_count == 0 {
            0
        } else {
            self.total_time_us / (self.execution_count as u64)
        }
    }
}

/// What a recommendation is about.
#[derive(Debug, Clone, Copy, PartialEq, Eq, Structural)]
pub enum RecommendationType {
    MemoryOptimization,
    AlgorithmOptimization,
    Parallelization,
    SimdOptimization,
    CacheOptimization,
}

/// A measurement under way.
pub struct MeasurementHandle {
    start_time: Instant,
    operation: String,
    completed: bool,
}

impl MeasurementHandle {
    /// The name of the operation being measured.
    pub closed spec fn spec_operation(&self) -> Seq<char> {
        self.operation@
    }

    /// Starts measuring the operation `operation`.
    pub fn new(operation: String) -> (handle: Self)
        ensures
            handle.spec_operation() == operation@,
    {
        MeasurementHandle { start_time: Instant::now(), operation, completed: false }
    }

    /// The name of the operation being measured.
    pub fn operation(&self) -> (name: &str)
        ensures
            name@ == self.spec_operation(),
    {
        self.operation.as_str()
    }

    /// The time since the measurement started.
    pub fn elapsed(&self) -> Duration {
        self.start_time.elapsed()
    }

    /// Ends the measurement and gives the time it took.
    pub fn complete(self) -> Duration {
        self.start_time.elapsed()
    }
}

/// The index of the first entry named `name`, or the number of entries
/// where there is none.
pub open spec fn operation_slot(entries: Seq<OperationStats>, name: Seq<char>) -> int
    decreases entries.len(),
{
    if entries.len() == 0 {
        0
    } else if entries[0].operation_name@ == name {
        0
    } else {
        1 + operation_slot(entries.subrange(1, entries.len() as int), name)
    }
}

/// The slot of a name lies within the entries or just past them, no entry
/// before it has the name, and the entry at it has.
pub proof fn lemma_operation_slot(entries: Seq<OperationStats>, name: Seq<char>)
    ensures
        0 <= operation_slot(entries, name) <= entries.len(),
        forall|k: int|
            0 <= k < operation_slot(entries, name) ==> (#[trigger] entries[k]).operation_name@
                != name,
        operation_slot(entries, name) < entries.len() ==> entries[operation_slot(
            entries,
            name,
        )].operation_name@ == name,
    decreases entries.len(),
{
    if entries.len() > 0 && entries[0].operation_name@ != name {
        let rest = entries.subrange(1, entries.len() as int);
        lemma_operation_slot(rest, name);
        assert forall|k: int| 0 <= k < operation_slot(entries, name) implies (
        #[trigger] entries[k]).operation_name@ != name by {
            if k > 0 {
                assert(entries[k] == rest[k - 1]);
            }
        }
        if operation_slot(rest, name) < rest.len() {
            assert(rest[operation_slot(rest, name)] == entries[operation_slot(rest, name) + 1]);
        }
    }
}

/// The first position with the name is the slot of the name.
proof fn lemma_operation_slot_found(entries: Seq<OperationStats>, name: Seq<char>, n: int)
    requires
        0 <= n <= entries.len(),
        forall|k: int| 0 <= k < n ==> (#[trigger] entries[k]).operation_name@ != name,
        n < entries.len() ==> entries[n].operation_name@ == name,
    ensures
        operation_slot(entries, name) == n,
    decreases n,
{
    if n > 0 {
        let rest = entries.subrange(1, entries.len() as int);
        assert(entries[0].operation_name@ != name);
        assert forall|k: int| 0 <= k < n - 1 implies (#[trigger] rest[k]).operation_name@
            != name by {
            assert(rest[k] == entries[k + 1]);
        }
        lemma_operation_slot_found(rest, name, n - 1);
    }
}

/// `a + 1`, or the largest `u32` where that does not fit.
pub open spec fn saturating_next(a: u32) -> u32 {
    if a == u32::MAX {
        a
    } else {
        (a + 1) as u32
    }
}

/// `after` is `before` with one more run of `duration_us`, failed or not.
pub open spec fn is_bumped(
    after: OperationStats,
    before: OperationStats,
    duration_us: u64,
    success: bool,
) -> bool {
    &&& after.operation_name@ == before.operation_name@
    &&& after.execution_count == saturating_next(before.execution_count)
    &&& after.error_count == if success {
        before.error_count
    } else {
        saturating_next(before.error_count)
    }
    &&& after.total_time_us == saturating_sum(before.total_time_us, duration_us)
    &&& after.memory_stats == before.memory_stats
}

/// `after` is the entry of an operation named `name` that ran once, for
/// `duration_us`.
pub open spec fn is_first_run(
    after: OperationStats,
    name: Seq<char>,
    duration_us: u64,
    success: bool,
) -> bool {
    &&& after.operation_name@ == name
    &&& after.execution_count == 1
    &&& after.error_count == if success {
        0u32
    } else {
        1u32
    }
    &&& after.total_time_us == duration_us
    &&& after.memory_stats == (MemoryStats { peak_usage: 0, average_usage: 0, allocation_count: 0 })
}

/// `after` is `before` with one more run of the operation `name`, which
/// took `duration_us`: the entry of that name is counted up, or made at
/// the end where there was none, and no other entry differs.
pub open spec fn is_result_recorded(
    after: Seq<OperationStats>,
    before: Seq<OperationStats>,
    name: Seq<char>,
    duration_us: u64,
    success: bool,
) -> bool {
    let slot = operation_slot(before, name);
    if slot < before.len() {
        &&& after.len() == before.len()
        &&& is_bumped(after[slot], before[slot], duration_us, success)
        &&& forall|k: int| 0 <= k < before.len() && k != slot ==> after[k] == before[k]
    } else {
        &&& after.len() == before.len() + 1
        &&& is_first_run(after[slot], name, duration_us, success)
        &&& forall|k: int| 0 <= k < before.len() ==> after[k] == before[k]
    }
}

/// The last `max` entries of `entries`, or all of them where there are
/// fewer.
pub open spec fn last_entries<T>(entries: Seq<T>, max: int) -> Seq<T> {
    if entries.len() <= max {
        entries
    } else if max <= 0 {
        Seq::empty()
    } else {
        entries.subrange(entries.len() - max, entries.len() as int)
    }
}

/// Collects what the engine does: totals, a bounded history of snapshots,
/// and counts for each named operation.
pub struct PerformanceMonitor {
    metrics: PerformanceMetrics,
    history: Vec<PerformanceSnapshot>,
    config: MonitorConfig,
    session_start: Instant,
    operations: Vec<OperationStats>,
}

/// The totals of a report.
#[derive(Debug, Clone, Copy, PartialEq, Eq, Structural)]
pub struct PerformanceSummary {
    /// Time measured in all, in microseconds.
    pub total_processing_time_us: u64,
    /// The time for each snapshot of the history, rounded down.
    pub average_processing_time_us: u64,
    /// The smallest running total among the snapshots of the history.
    pub fastest_processing_time_us: u64,
    /// The largest running total among the snapshots of the history.
    pub slowest_processing_time_us: u64,
    pub total_pixels_processed: u64,
}

/// A report of what a monitor has seen.
#[derive(Debug, Clone)]
pub struct PerformanceReport {
    pub summary: PerformanceSummary,
    pub operation_details: Vec<OperationStats>,
    pub recommendations: Vec<RecommendationType>,
}

/// The running total of the snapshot at `i`.
pub open spec fn snapshot_total(history: Seq<PerformanceSnapshot>, i: int) -> u64 {
    history[i].metrics.timing.total_time_us
}

/// `value` is the smallest running total in `history`, or zero where the
/// history is empty.
pub open spec fn is_fastest(history: Seq<PerformanceSnapshot>, value: u64) -> bool {
    if history.len() == 0 {
        value == 0
    } else {
        &&& forall|i: int| 0 <= i < history.len() ==> value <= #[trigger] snapshot_total(history, i)
        &&& exists|i: int| 0 <= i < history.len() && value == #[trigger] snapshot_total(history, i)
    }
}

/// `value` is the largest running total in `history`, or zero where the
/// history is empty.
pub open spec fn is_slowest(history: Seq<PerformanceSnapshot>, value: u64) -> bool {
    if history.len() == 0 {
        value == 0
    } else {
        &&& forall|i: int| 0 <= i < history.len() ==> value >= #[trigger] snapshot_total(history, i)
        &&& exists|i: int| 0 <= i < history.len() && value == #[trigger] snapshot_total(history, i)
    }
}

impl PerformanceMonitor {
    /// The raw counters.
    pub closed spec fn metrics(&self) -> PerformanceMetrics {
        self.metrics
    }

    /// The snapshots kept, oldest first.
    pub closed spec fn history(&self) -> Seq<PerformanceSnapshot> {
        self.history@
    }

    /// What is known of each named operation, in the order in which the
    /// names were first seen.
    pub closed spec fn operations(&self) -> Seq<OperationStats> {
        self.operations@
    }

    /// How many snapshots the history keeps.
    pub closed spec fn capacity(&self) -> usize {
        self.config.max_history_entries
    }

    /// `self` is `before` after one measurement of the operation
    /// `operation`, which took `duration_us` and ended `elapsed_us` into
    /// the session: the time is added to the total, stopping at the
    /// largest `u64`, and a snapshot of the counters joins the history,
    /// which keeps its newest snapshots up to its capacity.
    pub open spec fn is_measured(
        &self,
        before: &Self,
        operation: String,
        duration_us: u64,
        elapsed_us: u64,
    ) -> bool {
        &&& self.metrics() == (PerformanceMetrics {
            timing: TimingMetrics {
                total_time_us: saturating_sum(before.metrics().timing.total_time_us, duration_us),
                ..before.metrics().timing
            },
            ..before.metrics()
        })
        &&& self.history() == last_entries(
            before.history().push(
                PerformanceSnapshot { elapsed_us, metrics: self.metrics(), operation },
            ),
            before.capacity() as int,
        )
    }

    /// A monitor that has seen nothing.
    pub fn new(config: MonitorConfig) -> (monitor: Self)
        ensures
            monitor.metrics() == PerformanceMetrics::initial(),
            monitor.history().len() == 0,
            monitor.operations().len() == 0,
            monitor.capacity() == config.max_history_entries,
    {
        PerformanceMonitor {
            metrics: PerformanceMetrics::new(),
            history: Vec::new(),
            config,
            session_start: Instant::now(),
            operations: Vec::new(),
        }
    }

    /// Starts measuring the operation `operation`.
    pub fn start_measurement(&mut self, operation: &str) -> (handle: MeasurementHandle)
        ensures
            handle.spec_operation() == operation@,
            final(self).metrics() == old(self).metrics(),
            final(self).history() == old(self).history(),
            final(self).operations() == old(self).operations(),
            final(self).capacity() == old(self).capacity(),
    {
        MeasurementHandle::new(operation.to_owned())
    }

    /// Ends a measurement: the time it took is added to the total and a
    /// snapshot goes into the history, which keeps the newest snapshots up
    /// to its capacity. Gives the time the operation took.
    pub fn end_measurement(&mut self, handle: MeasurementHandle) -> (r: Result<Duration, ImageError>)
        ensures
            r is Ok,
            final(self).capacity() == old(self).capacity(),
            final(self).operations() == old(self).operations(),
            exists|operation: String, duration_us: u64, elapsed_us: u64|
                operation@ == handle.spec_operation() && #[trigger] final(self).is_measured(
                    old(self),
                    operation,
                    duration_us,
                    elapsed_us,
                ),
    {
        let operation = handle.operation().to_owned();
        let duration = handle.complete();
        let micros = micros_of(&duration);
        let elapsed = micros_of(&self.session_start.elapsed());
        let ghost name = operation;
        self.record_measurement(operation, micros, elapsed);
        assert(final(self).is_measured(old(self), name, micros, elapsed));
        Ok(duration)
    }

    /// Adds a measured time of `duration_us` to the total and puts a
    /// snapshot, taken `elapsed_us` into the session, into the history,
    /// which keeps the newest snapshots up to its capacity.
    pub fn record_measurement(&mut self, operation: String, duration_us: u64, elapsed_us: u64)
        ensures
            final(self).capacity() == old(self).capacity(),
            final(self).operations() == old(self).operations(),
            final(self).is_measured(old(self), operation, duration_us, elapsed_us),
    {
        self.metrics.timing.total_time_us = add_saturating(
            self.metrics.timing.total_time_us,
            duration_us,
        );
        let snapshot = PerformanceSnapshot { elapsed_us, metrics: self.metrics, operation };
        self.history.push(snapshot);
        let ghost full = self.history@;
        let ghost metrics = self.metrics;
        let length = self.history.len();
        assert(full.len() == length);
        let max = self.config.max_history_entries;
        let mut removed: usize = 0;
        assert(full.subrange(0, full.len() as int) =~= full);
        while self.history.len() > max
            invariant
                self.config.max_history_entries == max,
                self.metrics == metrics,
                full.len() <= usize::MAX,
                removed + self.history@.len() == full.len(),
                self.history@ == full.subrange(removed as int, full.len() as int),
                removed > 0 ==> self.history@.len() >= max,
                self.operations == old(self).operations,
            decreases self.history@.len(),
        {
            self.history.remove(0);
            removed += 1;
            assert(self.history@ =~= full.subrange(removed as int, full.len() as int));
        }
        proof {
            assert(self.history@ =~= last_entries(full, max as int));
        }
    }

    /// Records one run of the operation `operation`, which took
    /// `duration_us` and succeeded or not: the entry of that name is
    /// counted up, and made where there was none. No other entry changes.
    pub fn record_result(&mut self, operation: &str, duration_us: u64, success: bool)
        ensures
            final(self).capacity() == old(self).capacity(),
            final(self).metrics() == old(self).metrics(),
            final(self).history() == old(self).history(),
            is_result_recorded(
                final(self).operations(),
                old(self).operations(),
                operation@,
                duration_us,
                success,
            ),
    {
        let ghost before = self.operations@;
        let mut i: usize = 0;
        let mut found = false;
        while i < self.operations.len() && !found
            invariant
                i <= self.operations@.len(),
                self.operations@ == before,
                forall|k: int| 0 <= k < i ==> (#[trigger] before[k]).operation_name@ != operation@,
                found ==> i < before.len() && before[i as int].operation_name@ == operation@,
            decreases self.operations@.len() - i + (if found {
                0int
            } else {
                1int
            }),
        {
            if str_eq(self.operations[i].operation_name.as_str(), operation) {
                found = true;
            } else {
                i += 1;
            }
        }
        proof {
            lemma_operation_slot_found(before, operation@, i as int);
        }
        if found {
            let entry = &self.operations[i];
            let execution_count = if entry.execution_count == u32::MAX {
                u32::MAX
            } else {
                entry.execution_count + 1
            };
            let error_count = if success || entry.error_count == u32::MAX {
                entry.error_count
            } else {
                entry.error_count + 1
            };
            let bumped = OperationStats {
                operation_name: operation.to_owned(),
                execution_count,
                error_count,
                total_time_us: add_saturating(entry.total_time_us, duration_us),
                memory_stats: entry.memory_stats,
            };
            self.operations.set(i, bumped);
        } else {
            let fresh = OperationStats {
                operation_name: operation.to_owned(),
                execution_count: 1,
                error_count: if success {
                    0
                } else {
                    1
                },
                total_time_us: duration_us,
                memory_stats: MemoryStats { peak_usage: 0, average_usage: 0, allocation_count: 0 },
            };
            self.operations.push(fresh);
        }
    }

    /// Raises the memory high-water mark to `bytes` where it was lower.
    pub fn record_memory_usage(&mut self, bytes: u64)
        ensures
            final(self).capacity() == old(self).capacity(),
            final(self).history() == old(self).history(),
            final(self).operations() == old(self).operations(),
            final(self).metrics() == (PerformanceMetrics {
                memory: MemoryMetrics {
                    peak_memory_bytes: if bytes > old(self).metrics().memory.peak_memory_bytes {
                        bytes
                    } else {
                        old(self).metrics().memory.peak_memory_bytes
                    },
                    ..old(self).metrics().memory
                },
                ..old(self).metrics()
            }),
    {
        if bytes > self.metrics.memory.peak_memory_bytes {
            self.metrics.memory.peak_memory_bytes = bytes;
        }
    }

    /// Counts one image of `count` pixels, at four bytes each. The
    /// counters stop at the largest `u64`.
    pub fn record_pixels_processed(&mut self, count: u64)
        ensures
            final(self).capacity() == old(self).capacity(),
            final(self).history() == old(self).history(),
            final(self).operations() == old(self).operations(),
            final(self).metrics() == (PerformanceMetrics {
                throughput: ThroughputMetrics {
                    images_processed: saturating_sum(
                        old(self).metrics().throughput.images_processed,
                        1,
                    ),
                    bytes_processed: saturating_sum(
                        old(self).metrics().throughput.bytes_processed,
                        if count * 4 > u64::MAX {
                            u64::MAX
                        } else {
                            (count * 4) as u64
                        },
                    ),
                    pixels_processed: saturating_sum(
                        old(self).metrics().throughput.pixels_processed,
                        count,
                    ),
                },
                ..old(self).metrics()
            }),
    {
        let bytes: u64 = if count > u64::MAX / 4 {
            u64::MAX
        } else {
            count * 4
        };
        self.metrics.throughput.images_processed = add_saturating(
            self.metrics.throughput.images_processed,
            1,
        );
        self.metrics.throughput.bytes_processed = add_saturating(
            self.metrics.throughput.bytes_processed,
            bytes,
        );
        self.metrics.throughput.pixels_processed = add_saturating(
            self.metrics.throughput.pixels_processed,
            count,
        );
    }

    /// The raw counters.
    pub fn get_current_metrics(&self) -> (metrics: PerformanceMetrics)
        ensures
            metrics == self.metrics(),
    {
        self.metrics
    }

    /// The snapshots kept, oldest first.
    pub fn get_history(&self) -> (history: &[PerformanceSnapshot])
        ensures
            history@ == self.history(),
    {
        self.history.as_slice()
    }

    /// What is known of each named operation.
    pub fn get_operation_stats(&self) -> (operations: &[OperationStats])
        ensures
            operations@ == self.operations(),
    {
        self.operations.as_slice()
    }

    /// Forgets everything: the counters return to zero, the history and
    /// the operations are emptied, and the session starts anew.
    pub fn reset(&mut self)
        ensures
            final(self).capacity() == old(self).capacity(),
            final(self).metrics() == PerformanceMetrics::initial(),
            final(self).history().len() == 0,
            final(self).operations().len() == 0,
    {
        self.metrics = PerformanceMetrics::new();
        self.history.clear();
        self.operations.clear();
        self.session_start = Instant::now();
    }

    /// The totals of what the monitor has seen.
    pub fn generate_report(&self) -> (report: PerformanceReport)
        ensures
            report.summary.total_processing_time_us == self.metrics().timing.total_time_us,
            report.summary.average_processing_time_us == if self.history().len() == 0 {
                0
            } else {
                self.metrics().timing.total_time_us as int / self.history().len() as int
            },
            is_fastest(self.history(), report.summary.fastest_processing_time_us),
            is_slowest(self.history(), report.summary.slowest_processing_time_us),
            report.summary.total_pixels_processed == self.metrics().throughput.bytes_processed / 4,
            report.operation_details@.len() == 0,
            report.recommendations@.len() == 0,
    {
        let total = self.metrics.timing.total_time_us;
        let n = self.history.len();
        let average = if n == 0 {
            0
        } else {
            total / (n as u64)
        };
        let mut fastest: u64 = 0;
        let mut slowest: u64 = 0;
        let mut i: usize = 0;
        while i < n
            invariant
                i <= n,
                n == self.history@.len(),
                i == 0 ==> fastest == 0 && slowest == 0,
                i > 0 ==> is_fastest(self.history@.subrange(0, i as int), fastest),
                i > 0 ==> is_slowest(self.history@.subrange(0, i as int), slowest),
            decreases n - i,
        {
            let t = self.history[i].metrics.timing.total_time_us;
            let ghost prefix = self.history@.subrange(0, i as int);
            let ghost next = self.history@.subrange(0, i as int + 1);
            let ghost old_fastest = fastest;
            let ghost old_slowest = slowest;
            if i == 0 || t < fastest {
                fastest = t;
            }
            if i == 0 || t > slowest {
                slowest = t;
            }
            proof {
                assert(snapshot_total(next, i as int) == t);
                assert forall|k: int| 0 <= k < i implies snapshot_total(next, k) == snapshot_total(
                    prefix,
                    k,
                ) by {}
                if i > 0 {
                    let wf = choose|k: int|
                        0 <= k < prefix.len() && old_fastest == #[trigger] snapshot_total(prefix, k);
                    let ws = choose|k: int|
                        0 <= k < prefix.len() && old_slowest == #[trigger] snapshot_total(prefix, k);
                    assert(snapshot_total(next, wf) == old_fastest);
                    assert(snapshot_total(next, ws) == old_slowest);
                }
                assert(is_fastest(next, fastest));
                assert(is_slowest(next, slowest));
            }
            i += 1;
        }
        proof {
            assert(self.history@.subrange(0, n as int) =~= self.history@);
        }
        PerformanceReport {
            summary: PerformanceSummary {
                total_processing_time_us: total,
                average_processing_time_us: average,
                fastest_processing_time_us: fastest,
                slowest_processing_time_us: slowest,
                total_pixels_processed: self.metrics.throughput.bytes_processed / 4,
            },
            operation_details: Vec::new(),
            recommendations: Vec::new(),
        }
    }
}

} // verus!
