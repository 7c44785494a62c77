//! The high-level metric groups: garbage collection, runtime, class loading and compilation.

use vstd::prelude::*;
use vstd::string::*;

use crate::error::JvmMonitorError;
use crate::metrics::BuiltinLongMetric;
use crate::monitor::{JvmMonitor, MonitorHealth, MonitorView, RefreshState};

verus! {

/// An exact quotient of a counter and a unit.
#[derive(Debug, Clone, Copy, PartialEq, Eq, Structural)]
pub struct Ratio {
    /// What is divided.
    pub numerator: i64,
    /// What it is divided by, never zero.
    pub denominator: u64,
}

impl Default for Ratio {
    fn default() -> (ratio: Ratio)
        ensures
            ratio == Ratio::zero(),
    {
        Ratio { numerator: 0, denominator: 1 }
    }
}

impl Ratio {
    /// Zero.
    pub open spec fn zero() -> Ratio {
        Ratio { numerator: 0, denominator: 1 }
    }

    /// A number of bytes in kilobytes.
    pub open spec fn kilobytes(bytes: i64) -> Ratio {
        Ratio { numerator: bytes, denominator: BYTES_PER_KILOBYTE }
    }

    /// One counter as a share of another, or zero where the other is not positive.
    pub open spec fn share(part: i64, whole: i64) -> Ratio {
        if whole > 0 {
            Ratio { numerator: part, denominator: whole as u64 }
        } else {
            Ratio::zero()
        }
    }

    /// One counter as a proportion of another, which is held between zero and one, or zero where
    /// the other is not positive.
    pub open spec fn proportion(part: i64, whole: i64) -> Ratio {
        if part < 0 {
            Ratio::share(0, whole)
        } else if part > whole {
            Ratio::share(whole, whole)
        } else {
            Ratio::share(part, whole)
        }
    }
}

/// Bytes in a kilobyte.
pub const BYTES_PER_KILOBYTE: u64 = 1024;

/// A sum that stops at the smallest and the largest 64-bit number.
pub open spec fn saturating_sum(first: i64, second: i64) -> i64 {
    if first + second > i64::MAX {
        i64::MAX
    } else if first + second < i64::MIN {
        i64::MIN
    } else {
        (first + second) as i64
    }
}

/// A counter that cannot be negative.
pub open spec fn count(value: i64) -> u64 {
    if value < 0 {
        0
    } else {
        value as u64
    }
}

/// Adds two counters, stopping at the smallest and the largest 64-bit number.
pub fn saturating_add(first: i64, second: i64) -> (sum: i64)
    ensures
        sum == saturating_sum(first, second),
{
    let sum: i128 = first as i128 + second as i128;
    if sum > i64::MAX as i128 {
        i64::MAX
    } else if sum < i64::MIN as i128 {
        i64::MIN
    } else {
        sum as i64
    }
}

/// Reads a counter that cannot be negative.
pub fn to_count(value: i64) -> (counted: u64)
    ensures
        counted == count(value),
{
    if value < 0 {
        0
    } else {
        value as u64
    }
}

/// Converts bytes to kilobytes.
pub fn to_kb(bytes: i64) -> (kilobytes: Ratio)
    ensures
        kilobytes == Ratio::kilobytes(bytes),
{
    Ratio { numerator: bytes, denominator: BYTES_PER_KILOBYTE }
}

/// Divides one counter by another. Returns zero where the other is not positive.
pub fn to_share(part: i64, whole: i64) -> (share: Ratio)
    ensures
        share == Ratio::share(part, whole),
{
    if whole > 0 {
        Ratio { numerator: part, denominator: whole as u64 }
    } else {
        Ratio { numerator: 0, denominator: 1 }
    }
}

/// Divides one counter by another and holds the result between zero and one. Returns zero where
/// the other is not positive.
pub fn to_proportion(part: i64, whole: i64) -> (proportion: Ratio)
    ensures
        proportion == Ratio::proportion(part, whole),
{
    if part < 0 {
        to_share(0, whole)
    } else if part > whole {
        to_share(whole, whole)
    } else {
        to_share(part, whole)
    }
}

/// Class loading statistics.
#[derive(Debug, Clone, Copy, Default)]
pub struct ClassStats {
    /// Number of classes loaded.
    pub loaded: i64,
    /// Total size of classes loaded (KB).
    pub bytes: Ratio,
    /// Number of classes unloaded.
    pub unloaded: i64,
    /// Total size of classes unloaded (KB).
    pub unloaded_bytes: Ratio,
    /// Time spent in class loading (seconds).
    pub time: Ratio,
}

/// Allocation-free numeric JIT compiler statistics.
#[derive(Debug, Clone, Copy, Default)]
pub struct CompilerNumericStats {
    /// Total number of compilations performed.
    pub compiled: i64,
    /// Total number of failed compilations.
    pub failed: i64,
    /// Total number of invalidated compilations.
    pub invalid: i64,
    /// Total time spent in compilation (seconds).
    pub time: Ratio,
}

/// JIT compiler statistics, including owned diagnostic strings.
#[derive(Debug, Clone, Default)]
pub struct CompilerStats {
    /// Total number of compilations performed.
    pub compiled: i64,
    /// Total number of failed compilations.
    pub failed: i64,
    /// Total number of invalidated compilations.
    pub invalid: i64,
    /// Total time spent in compilation (seconds).
    pub time: Ratio,
    /// Type of the last failed compilation.
    pub failed_type: String,
    /// Name of the last failed method.
    pub failed_method: String,
}

/// Allocation-free values for one raw HotSpot GC collector slot.
///
/// Interpret `ordinal` using the collector names of the compatibility report. For example, slot 2
/// is absent on JDK 8, is a G1 concurrent-cycle pause counter on modern JDKs, and is a major-pause
/// counter with generational ZGC.
#[derive(Debug, Clone, Copy, PartialEq, Eq, Structural, Default)]
#[non_exhaustive]
pub struct GcCollectorNumericStats {
    /// HotSpot collector ordinal (0, 1, or 2).
    pub ordinal: u8,
    /// Invocation counter, or `None` when the slot is not published.
    pub invocations: Option<u64>,
    /// Accumulated counter time in seconds, or `None` when unavailable.
    pub time_s: Option<Ratio>,
}

/// Allocation-free numeric garbage collection statistics.
#[derive(Debug, Clone, Copy, Default)]
pub struct GcNumericStats {
    /// Historical generation-0 space-1 capacity (KB).
    pub s0c: Ratio,
    /// Historical generation-0 space-2 capacity (KB).
    pub s1c: Ratio,
    /// Survivor space 0 used (KB).
    pub s0u: Ratio,
    /// Survivor space 1 used (KB).
    pub s1u: Ratio,
    /// Historical generation-0 space-0 capacity (KB).
    pub ec: Ratio,
    /// Historical generation-0 space-0 used (KB).
    pub eu: Ratio,
    /// Generation-1 space-0 capacity (KB); this is the whole heap on non-generational
    /// ZGC/Shenandoah.
    pub oc: Ratio,
    /// Generation-1 space-0 used (KB); this is the whole heap on non-generational
    /// ZGC/Shenandoah.
    pub ou: Ratio,
    /// Metaspace capacity (KB).
    pub mc: Ratio,
    /// Metaspace used (KB).
    pub mu: Ratio,
    /// Compressed class space capacity (KB).
    pub ccsc: Ratio,
    /// Compressed class space used (KB).
    pub ccsu: Ratio,
    /// Collector slot 0 invocations (the historical jstat `YGC` column).
    pub ygc: u64,
    /// Collector slot 0 accumulated time (the historical `YGCT` column).
    pub ygct: Ratio,
    /// Collector slot 1 invocations (the historical jstat `FGC` column).
    pub fgc: u64,
    /// Collector slot 1 accumulated time (the historical `FGCT` column).
    pub fgct: Ratio,
    /// Collector slot 2 invocations (the JDK 11+ jstat `CGC` column).
    pub cgc: u64,
    /// Collector slot 2 accumulated time (the JDK 11+ `CGCT` column).
    pub cgct: Ratio,
    /// Total garbage collection time (seconds).
    pub gct: Ratio,
}

/// Garbage collection statistics, including owned cause strings.
#[derive(Debug, Clone, Default)]
pub struct GcStats {
    /// Historical generation-0 space-1 capacity (KB).
    pub s0c: Ratio,
    /// Historical generation-0 space-2 capacity (KB).
    pub s1c: Ratio,
    /// Survivor space 0 used (KB).
    pub s0u: Ratio,
    /// Survivor space 1 used (KB).
    pub s1u: Ratio,
    /// Historical generation-0 space-0 capacity (KB).
    pub ec: Ratio,
    /// Historical generation-0 space-0 used (KB).
    pub eu: Ratio,
    /// Generation-1 space-0 capacity (KB); this is the whole heap on non-generational
    /// ZGC/Shenandoah.
    pub oc: Ratio,
    /// Generation-1 space-0 used (KB); this is the whole heap on non-generational
    /// ZGC/Shenandoah.
    pub ou: Ratio,
    /// Metaspace capacity (KB).
    pub mc: Ratio,
    /// Metaspace used (KB).
    pub mu: Ratio,
    /// Compressed class space capacity (KB).
    pub ccsc: Ratio,
    /// Compressed class space used (KB).
    pub ccsu: Ratio,
    /// Collector slot 0 invocations (the historical jstat `YGC` column).
    pub ygc: u64,
    /// Collector slot 0 accumulated time (the historical `YGCT` column).
    pub ygct: Ratio,
    /// Collector slot 1 invocations (the historical jstat `FGC` column).
    pub fgc: u64,
    /// Collector slot 1 accumulated time (the historical `FGCT` column).
    pub fgct: Ratio,
    /// Collector slot 2 invocations (the JDK 11+ jstat `CGC` column).
    pub cgc: u64,
    /// Collector slot 2 accumulated time (the JDK 11+ `CGCT` column).
    pub cgct: Ratio,
    /// Total garbage collection time (seconds).
    pub gct: Ratio,
    /// Last GC cause.
    pub lgcc: String,
    /// Current GC cause.
    pub gcc: String,
}

/// JVM Runtime, Threads, and Safepoint statistics.
#[derive(Debug, Clone, Copy, Default)]
pub struct RuntimeStats {
    /// Number of live threads.
    pub threads_live: i64,
    /// Number of daemon threads.
    pub threads_daemon: i64,
    /// Peak number of threads.
    pub threads_peak: i64,
    /// Code Cache memory used (KB), or 0 when the JVM has no exact PerfData key.
    pub code_cache_used: Ratio,
    /// Code Cache capacity (KB), or 0 when unavailable.
    pub code_cache_capacity: Ratio,
    /// Code Cache utilization ratio (0.0 to 1.0).
    pub code_cache_utilization: Ratio,
    /// Total number of safepoints reached.
    pub safepoints: i64,
    /// Total time spent in safepoints (seconds).
    pub safepoint_time_s: Ratio,
    /// Total time spent running the application (seconds).
    pub app_time_s: Ratio,
    /// Percentage of time spent in safepoints (0.0 to 1.0).
    pub safepoint_overhead: Ratio,
}

/// A checked, coherent-at-the-sampling-boundary collection of the library's high-level metric
/// groups.
///
/// Individual JVM counters are still updated independently by HotSpot, so this is not a
/// transactional snapshot of all target values.
#[derive(Debug, Clone)]
pub struct JvmStatsSnapshot {
    /// Target and perfdata structure health observed before reading values.
    pub health: MonitorHealth,
    /// Garbage collection statistics.
    pub gc: GcStats,
    /// Runtime, thread, code-cache, and safepoint statistics.
    pub runtime: RuntimeStats,
    /// Class loading statistics.
    pub classes: ClassStats,
    /// JIT compiler statistics.
    pub compiler: CompilerStats,
}

impl MonitorView {
    /// A number of ticks in seconds, or zero where the timer's frequency is not known.
    pub open spec fn seconds(self, ticks: i64) -> Ratio {
        if self.timer_frequency_hz > 0 {
            Ratio { numerator: ticks, denominator: self.timer_frequency_hz as u64 }
        } else {
            Ratio::zero()
        }
    }

    /// The sum of a counter and its counterpart for classes from the shared archive.
    pub open spec fn with_shared(self, own: BuiltinLongMetric, shared: BuiltinLongMetric) -> i64 {
        saturating_sum(self.builtin_or_zero(own), self.builtin_or_zero(shared))
    }

    /// Class loading statistics.
    pub open spec fn class_stats(self) -> ClassStats {
        ClassStats {
            loaded: self.with_shared(
                BuiltinLongMetric::LoadedClasses,
                BuiltinLongMetric::SharedLoadedClasses,
            ),
            bytes: Ratio::kilobytes(
                self.with_shared(
                    BuiltinLongMetric::LoadedBytes,
                    BuiltinLongMetric::SharedLoadedBytes,
                ),
            ),
            unloaded: self.with_shared(
                BuiltinLongMetric::UnloadedClasses,
                BuiltinLongMetric::SharedUnloadedClasses,
            ),
            unloaded_bytes: Ratio::kilobytes(
                self.with_shared(
                    BuiltinLongMetric::UnloadedBytes,
                    BuiltinLongMetric::SharedUnloadedBytes,
                ),
            ),
            time: self.seconds(self.builtin_or_zero(BuiltinLongMetric::ClassLoadTime)),
        }
    }

    /// Numeric JIT compiler statistics.
    pub open spec fn compiler_numeric_stats(self) -> CompilerNumericStats {
        CompilerNumericStats {
            compiled: self.builtin_or_zero(BuiltinLongMetric::Compilations),
            failed: self.builtin_or_zero(BuiltinLongMetric::CompilerBailouts),
            invalid: self.builtin_or_zero(BuiltinLongMetric::CompilerInvalidations),
            time: self.seconds(self.builtin_or_zero(BuiltinLongMetric::CompilationTime)),
        }
    }

    /// The ticks that all three collectors took together.
    pub open spec fn total_gc_ticks(self) -> i64 {
        saturating_sum(
            saturating_sum(
                self.builtin_or_zero(BuiltinLongMetric::Collector0Time),
                self.builtin_or_zero(BuiltinLongMetric::Collector1Time),
            ),
            self.builtin_or_zero(BuiltinLongMetric::Collector2Time),
        )
    }

    /// Numeric garbage collection statistics.
    pub open spec fn gc_numeric_stats(self) -> GcNumericStats {
        GcNumericStats {
            s0c: Ratio::kilobytes(self.builtin_or_zero(BuiltinLongMetric::Survivor0Capacity)),
            s1c: Ratio::kilobytes(self.builtin_or_zero(BuiltinLongMetric::Survivor1Capacity)),
            s0u: Ratio::kilobytes(self.builtin_or_zero(BuiltinLongMetric::Survivor0Used)),
            s1u: Ratio::kilobytes(self.builtin_or_zero(BuiltinLongMetric::Survivor1Used)),
            ec: Ratio::kilobytes(self.builtin_or_zero(BuiltinLongMetric::EdenCapacity)),
            eu: Ratio::kilobytes(self.builtin_or_zero(BuiltinLongMetric::EdenUsed)),
            oc: Ratio::kilobytes(self.builtin_or_zero(BuiltinLongMetric::OldCapacity)),
            ou: Ratio::kilobytes(self.builtin_or_zero(BuiltinLongMetric::OldUsed)),
            mc: Ratio::kilobytes(self.builtin_or_zero(BuiltinLongMetric::MetaspaceCapacity)),
            mu: Ratio::kilobytes(self.builtin_or_zero(BuiltinLongMetric::MetaspaceUsed)),
            ccsc: Ratio::kilobytes(self.builtin_or_zero(BuiltinLongMetric::CompressedClassCapacity)),
            ccsu: Ratio::kilobytes(self.builtin_or_zero(BuiltinLongMetric::CompressedClassUsed)),
            ygc: count(self.builtin_or_zero(BuiltinLongMetric::Collector0Invocations)),
            ygct: self.seconds(self.builtin_or_zero(BuiltinLongMetric::Collector0Time)),
            fgc: count(self.builtin_or_zero(BuiltinLongMetric::Collector1Invocations)),
            fgct: self.seconds(self.builtin_or_zero(BuiltinLongMetric::Collector1Time)),
            cgc: count(self.builtin_or_zero(BuiltinLongMetric::Collector2Invocations)),
            cgct: self.seconds(self.builtin_or_zero(BuiltinLongMetric::Collector2Time)),
            gct: self.seconds(self.total_gc_ticks()),
        }
    }

    /// The slot of one collector, whose counters are the given ones.
    pub open spec fn collector_stats(
        self,
        ordinal: u8,
        invocations: BuiltinLongMetric,
        time: BuiltinLongMetric,
    ) -> GcCollectorNumericStats {
        GcCollectorNumericStats {
            ordinal,
            invocations: match self.builtin(invocations) {
                Some(value) => Some(count(value)),
                None => None,
            },
            time_s: match self.builtin(time) {
                Some(ticks) => if self.timer_frequency_hz == 0 {
                    None
                } else {
                    Some(self.seconds(ticks))
                },
                None => None,
            },
        }
    }

    /// The slots of the three collectors.
    pub open spec fn gc_collector_numeric_stats(self) -> Seq<GcCollectorNumericStats> {
        seq![
            self.collector_stats(
                0,
                BuiltinLongMetric::Collector0Invocations,
                BuiltinLongMetric::Collector0Time,
            ),
            self.collector_stats(
                1,
                BuiltinLongMetric::Collector1Invocations,
                BuiltinLongMetric::Collector1Time,
            ),
            self.collector_stats(
                2,
                BuiltinLongMetric::Collector2Invocations,
                BuiltinLongMetric::Collector2Time,
            ),
        ]
    }

    /// Runtime statistics.
    pub open spec fn runtime_stats(self) -> RuntimeStats {
        let live = self.builtin_or_zero(BuiltinLongMetric::ThreadsLive);
        let peak = self.builtin_or_zero(BuiltinLongMetric::ThreadsPeak);
        let code_cache_used = self.builtin_or_zero(BuiltinLongMetric::CodeCacheUsed);
        let code_cache_capacity = self.builtin_or_zero(BuiltinLongMetric::CodeCacheCapacity);
        let safepoint_ticks = self.builtin_or_zero(BuiltinLongMetric::SafepointTime);
        let app_ticks = self.builtin_or_zero(BuiltinLongMetric::ApplicationTime);
        RuntimeStats {
            threads_live: live,
            threads_daemon: self.builtin_or_zero(BuiltinLongMetric::ThreadsDaemon),
            threads_peak: if peak == 0 {
                live
            } else {
                peak
            },
            code_cache_used: Ratio::kilobytes(code_cache_used),
            code_cache_capacity: Ratio::kilobytes(code_cache_capacity),
            code_cache_utilization: Ratio::proportion(code_cache_used, code_cache_capacity),
            safepoints: self.builtin_or_zero(BuiltinLongMetric::Safepoints),
            safepoint_time_s: self.seconds(safepoint_ticks),
            app_time_s: self.seconds(app_ticks),
            safepoint_overhead: Ratio::proportion(
                safepoint_ticks,
                saturating_sum(safepoint_ticks, app_ticks),
            ),
        }
    }

    /// The health that was noted when the structure was last looked at.
    pub open spec fn noted_health(self) -> MonitorHealth {
        MonitorHealth {
            pid: self.target.pid,
            overflow_bytes: self.refresh_state.overflow,
            num_entries: self.refresh_state.num_entries,
            modification_timestamp: self.refresh_state.modification_timestamp,
        }
    }
}

impl CompilerStats {
    /// The numbers.
    pub open spec fn numeric(self) -> CompilerNumericStats {
        CompilerNumericStats {
            compiled: self.compiled,
            failed: self.failed,
            invalid: self.invalid,
            time: self.time,
        }
    }

    /// Whether these are the statistics of a monitor.
    pub open spec fn shows(self, monitor: MonitorView) -> bool {
        &&& self.numeric() == monitor.compiler_numeric_stats()
        &&& self.failed_type@ == monitor.display_value("sun.ci.lastFailedType"@)
        &&& self.failed_method@ == monitor.string_or_dash("sun.ci.lastFailedMethod"@)
    }
}

impl GcStats {
    /// The numbers.
    pub open spec fn numeric(self) -> GcNumericStats {
        GcNumericStats {
            s0c: self.s0c,
            s1c: self.s1c,
            s0u: self.s0u,
            s1u: self.s1u,
            ec: self.ec,
            eu: self.eu,
            oc: self.oc,
            ou: self.ou,
            mc: self.mc,
            mu: self.mu,
            ccsc: self.ccsc,
            ccsu: self.ccsu,
            ygc: self.ygc,
            ygct: self.ygct,
            fgc: self.fgc,
            fgct: self.fgct,
            cgc: self.cgc,
            cgct: self.cgct,
            gct: self.gct,
        }
    }

    /// Whether these are the statistics of a monitor.
    pub open spec fn shows(self, monitor: MonitorView) -> bool {
        &&& self.numeric() == monitor.gc_numeric_stats()
        &&& self.lgcc@ == monitor.string_or_dash("sun.gc.lastCause"@)
        &&& self.gcc@ == monitor.string_or_dash("sun.gc.cause"@)
    }
}

impl JvmStatsSnapshot {
    /// Whether this is the sample of a monitor.
    pub open spec fn shows(self, monitor: MonitorView) -> bool {
        &&& self.health == monitor.noted_health()
        &&& self.gc.shows(monitor)
        &&& self.runtime == monitor.runtime_stats()
        &&& self.classes == monitor.class_stats()
        &&& self.compiler.shows(monitor)
    }
}

impl JvmMonitor {
    /// Converts ticks to seconds. Returns zero where the timer's frequency is not known.
    pub fn to_seconds(&self, ticks: i64) -> (seconds: Ratio)
        ensures
            seconds == self@.seconds(ticks),
    {
        let timer_frequency_hz: usize = self.timer_frequency_hz();
        if timer_frequency_hz > 0 {
            Ratio { numerator: ticks, denominator: timer_frequency_hz as u64 }
        } else {
            Ratio { numerator: 0, denominator: 1 }
        }
    }

    fn read_with_shared(&self, own: BuiltinLongMetric, shared: BuiltinLongMetric) -> (sum: i64)
        ensures
            sum == self@.with_shared(own, shared),
    {
        saturating_add(self.read_known_long(own), self.read_known_long(shared))
    }

    /// Retrieves class loading statistics, equivalent to `jstat -class`.
    pub fn get_class_stats(&self) -> (stats: ClassStats)
        ensures
            stats == self@.class_stats(),
    {
        let loaded: i64 = self.read_with_shared(
            BuiltinLongMetric::LoadedClasses,
            BuiltinLongMetric::SharedLoadedClasses,
        );
        let loaded_bytes: i64 = self.read_with_shared(
            BuiltinLongMetric::LoadedBytes,
            BuiltinLongMetric::SharedLoadedBytes,
        );
        let unloaded: i64 = self.read_with_shared(
            BuiltinLongMetric::UnloadedClasses,
            BuiltinLongMetric::SharedUnloadedClasses,
        );
        let unloaded_bytes: i64 = self.read_with_shared(
            BuiltinLongMetric::UnloadedBytes,
            BuiltinLongMetric::SharedUnloadedBytes,
        );
        ClassStats {
            loaded,
            bytes: to_kb(loaded_bytes),
            unloaded,
            unloaded_bytes: to_kb(unloaded_bytes),
            time: self.to_seconds(self.read_known_long(BuiltinLongMetric::ClassLoadTime)),
        }
    }

    /// Retrieves allocation-free numeric JIT compiler statistics.
    pub fn get_compiler_numeric_stats(&self) -> (stats: CompilerNumericStats)
        ensures
            stats == self@.compiler_numeric_stats(),
    {
        CompilerNumericStats {
            compiled: self.read_known_long(BuiltinLongMetric::Compilations),
            failed: self.read_known_long(BuiltinLongMetric::CompilerBailouts),
            invalid: self.read_known_long(BuiltinLongMetric::CompilerInvalidations),
            time: self.to_seconds(self.read_known_long(BuiltinLongMetric::CompilationTime)),
        }
    }

    /// Retrieves JIT compiler statistics, equivalent to `jstat -compiler`.
    pub fn get_compiler_stats(&self) -> (stats: CompilerStats)
        ensures
            stats.shows(self@),
    {
        let numeric: CompilerNumericStats = self.get_compiler_numeric_stats();
        CompilerStats {
            compiled: numeric.compiled,
            failed: numeric.failed,
            invalid: numeric.invalid,
            time: numeric.time,
            failed_type: self.read_display_value("sun.ci.lastFailedType"),
            failed_method: self.read_string("sun.ci.lastFailedMethod"),
        }
    }

    /// Retrieves allocation-free, jstat-compatible numeric GC statistics.
    ///
    /// An unavailable JVM counter is represented as zero. Use [`JvmMonitor::read_builtin_long`] or
    /// [`JvmMonitor::get_gc_collector_numeric_stats`] when missing-versus-zero must be preserved.
    pub fn get_gc_numeric_stats(&self) -> (stats: GcNumericStats)
        ensures
            stats == self@.gc_numeric_stats(),
    {
        let ygct: i64 = self.read_known_long(BuiltinLongMetric::Collector0Time);
        let fgct: i64 = self.read_known_long(BuiltinLongMetric::Collector1Time);
        let cgct: i64 = self.read_known_long(BuiltinLongMetric::Collector2Time);
        let total_gc_ticks: i64 = saturating_add(saturating_add(ygct, fgct), cgct);
        GcNumericStats {
            s0c: to_kb(self.read_known_long(BuiltinLongMetric::Survivor0Capacity)),
            s1c: to_kb(self.read_known_long(BuiltinLongMetric::Survivor1Capacity)),
            s0u: to_kb(self.read_known_long(BuiltinLongMetric::Survivor0Used)),
            s1u: to_kb(self.read_known_long(BuiltinLongMetric::Survivor1Used)),
            ec: to_kb(self.read_known_long(BuiltinLongMetric::EdenCapacity)),
            eu: to_kb(self.read_known_long(BuiltinLongMetric::EdenUsed)),
            oc: to_kb(self.read_known_long(BuiltinLongMetric::OldCapacity)),
            ou: to_kb(self.read_known_long(BuiltinLongMetric::OldUsed)),
            mc: to_kb(self.read_known_long(BuiltinLongMetric::MetaspaceCapacity)),
            mu: to_kb(self.read_known_long(BuiltinLongMetric::MetaspaceUsed)),
            ccsc: to_kb(self.read_known_long(BuiltinLongMetric::CompressedClassCapacity)),
            ccsu: to_kb(self.read_known_long(BuiltinLongMetric::CompressedClassUsed)),
            ygc: to_count(self.read_known_long(BuiltinLongMetric::Collector0Invocations)),
            ygct: self.to_seconds(ygct),
            fgc: to_count(self.read_known_long(BuiltinLongMetric::Collector1Invocations)),
            fgct: self.to_seconds(fgct),
            cgc: to_count(self.read_known_long(BuiltinLongMetric::Collector2Invocations)),
            cgct: self.to_seconds(cgct),
            gct: self.to_seconds(total_gc_ticks),
        }
    }

    fn read_collector(
        &self,
        ordinal: u8,
        invocations: BuiltinLongMetric,
        time: BuiltinLongMetric,
    ) -> (stats: GcCollectorNumericStats)
        ensures
            stats == self@.collector_stats(ordinal, invocations, time),
    {
        GcCollectorNumericStats {
            ordinal,
            invocations: match self.read_builtin_long(invocations) {
                Some(value) => Some(to_count(value)),
                None => None,
            },
            time_s: match self.read_builtin_long(time) {
                Some(ticks) => if self.timer_frequency_hz() == 0 {
                    None
                } else {
                    Some(self.to_seconds(ticks))
                },
                None => None,
            },
        }
    }

    /// Retrieves the three HotSpot collector slots without assigning a collector-independent
    /// meaning to their ordinals.
    ///
    /// A missing slot remains `None`, while a published zero remains `Some(0)`.
    pub fn get_gc_collector_numeric_stats(&self) -> (stats: [GcCollectorNumericStats; 3])
        ensures
            stats@ == self@.gc_collector_numeric_stats(),
    {
        let stats: [GcCollectorNumericStats; 3] = [
            self.read_collector(
                0,
                BuiltinLongMetric::Collector0Invocations,
                BuiltinLongMetric::Collector0Time,
            ),
            self.read_collector(
                1,
                BuiltinLongMetric::Collector1Invocations,
                BuiltinLongMetric::Collector1Time,
            ),
            self.read_collector(
                2,
                BuiltinLongMetric::Collector2Invocations,
                BuiltinLongMetric::Collector2Time,
            ),
        ];
        assert(stats@ =~= self@.gc_collector_numeric_stats());
        stats
    }

    /// Retrieves garbage collection statistics, equivalent to `jstat -gc` or `jstat -gccause`.
    pub fn get_gc_stats(&self) -> (stats: GcStats)
        ensures
            stats.shows(self@),
    {
        let numeric: GcNumericStats = self.get_gc_numeric_stats();
        GcStats {
            s0c: numeric.s0c,
            s1c: numeric.s1c,
            s0u: numeric.s0u,
            s1u: numeric.s1u,
            ec: numeric.ec,
            eu: numeric.eu,
            oc: numeric.oc,
            ou: numeric.ou,
            mc: numeric.mc,
            mu: numeric.mu,
            ccsc: numeric.ccsc,
            ccsu: numeric.ccsu,
            ygc: numeric.ygc,
            ygct: numeric.ygct,
            fgc: numeric.fgc,
            fgct: numeric.fgct,
            cgc: numeric.cgc,
            cgct: numeric.cgct,
            gct: numeric.gct,
            lgcc: self.read_string("sun.gc.lastCause"),
            gcc: self.read_string("sun.gc.cause"),
        }
    }

    /// Retrieves various runtime statistics including threads, code cache, and safepoints.
    ///
    /// Standard OpenJDK PerfData does not expose exact current code-cache occupancy/capacity.
    /// Those fields remain zero unless a vendor publishes the explicitly compatible
    /// `sun.ci.codeCache.*` keys; use [`JvmMonitor::metric_resolution`] to test availability.
    pub fn get_runtime_stats(&self) -> (stats: RuntimeStats)
        ensures
            stats == self@.runtime_stats(),
    {
        let live: i64 = self.read_known_long(BuiltinLongMetric::ThreadsLive);
        let peak: i64 = self.read_known_long(BuiltinLongMetric::ThreadsPeak);
        let code_cache_used: i64 = self.read_known_long(BuiltinLongMetric::CodeCacheUsed);
        let code_cache_capacity: i64 = self.read_known_long(BuiltinLongMetric::CodeCacheCapacity);
        let safepoint_ticks: i64 = self.read_known_long(BuiltinLongMetric::SafepointTime);
        let app_ticks: i64 = self.read_known_long(BuiltinLongMetric::ApplicationTime);
        RuntimeStats {
            threads_live: live,
            threads_daemon: self.read_known_long(BuiltinLongMetric::ThreadsDaemon),
            threads_peak: if peak == 0 {
                live
            } else {
                peak
            },
            code_cache_used: to_kb(code_cache_used),
            code_cache_capacity: to_kb(code_cache_capacity),
            code_cache_utilization: to_proportion(code_cache_used, code_cache_capacity),
            safepoints: self.read_known_long(BuiltinLongMetric::Safepoints),
            safepoint_time_s: self.to_seconds(safepoint_ticks),
            app_time_s: self.to_seconds(app_ticks),
            safepoint_overhead: to_proportion(
                safepoint_ticks,
                saturating_add(safepoint_ticks, app_ticks),
            ),
        }
    }

    /// Reads all high-level metric groups after a refresh, whose result is handed over.
    ///
    /// Long-running collectors should prefer this fallible API over calling the `get_*` methods
    /// without a periodic health check.
    pub fn sample(&self, refreshed: Result<usize, JvmMonitorError>) -> (sample: Result<
        JvmStatsSnapshot,
        JvmMonitorError,
    >)
        ensures
            match sample {
                Ok(snapshot) => refreshed is Ok && snapshot.shows(self@),
                Err(error) => refreshed == Err::<usize, JvmMonitorError>(error),
            },
    {
        match refreshed {
            Ok(_) => {},
            Err(error) => return Err(error),
        }
        let state: RefreshState = self.refresh_state();
        Ok(
            JvmStatsSnapshot {
                health: MonitorHealth {
                    pid: self.pid(),
                    overflow_bytes: state.overflow,
                    num_entries: state.num_entries,
                    modification_timestamp: state.modification_timestamp,
                },
                gc: self.get_gc_stats(),
                runtime: self.get_runtime_stats(),
                classes: self.get_class_stats(),
                compiler: self.get_compiler_stats(),
            },
        )
    }
}

impl MonitorView {
    /// Every quotient is defined: nothing is ever divided by zero.
    pub proof fn law_quotients_are_defined(self, ticks: i64, bytes: i64, part: i64, whole: i64)
        ensures
            self.seconds(ticks).denominator > 0,
            Ratio::kilobytes(bytes).denominator > 0,
            Ratio::share(part, whole).denominator > 0,
    {
    }

    /// The utilization of the code cache and the overhead of safepoints lie between zero and one,
    /// whatever the counters say.
    pub proof fn law_proportions_stay_in_range(self)
        ensures
            ({
                let stats = self.runtime_stats();
                &&& 0 <= stats.code_cache_utilization.numerator
                    <= stats.code_cache_utilization.denominator
                &&& 0 < stats.code_cache_utilization.denominator
                &&& 0 <= stats.safepoint_overhead.numerator <= stats.safepoint_overhead.denominator
                &&& 0 < stats.safepoint_overhead.denominator
            }),
    {
    }

    /// A collector that the JVM does not publish takes no part in the total.
    pub proof fn law_missing_collector_adds_nothing(self)
        requires
            self.builtin(BuiltinLongMetric::Collector2Time) is None,
        ensures
            self.total_gc_ticks() == saturating_sum(
                self.builtin_or_zero(BuiltinLongMetric::Collector0Time),
                self.builtin_or_zero(BuiltinLongMetric::Collector1Time),
            ),
    {
    }

    /// Without a timer frequency all times read as zero, and the slots of the collectors, which
    /// tell missing from zero, have none.
    pub proof fn law_times_need_a_frequency(self, ticks: i64, ordinal: int)
        requires
            self.timer_frequency_hz == 0,
            0 <= ordinal < 3,
        ensures
            self.seconds(ticks) == Ratio::zero(),
            self.gc_collector_numeric_stats()[ordinal].time_s is None,
    {
    }
}

} // verus!
