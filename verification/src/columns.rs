//! What the columns of the metric groups stand for, key by key.

use vstd::prelude::*;

use crate::index::IndexView;
use crate::metrics::BuiltinLongMetric;
use crate::monitor::{MonitorView, ValueView};
use crate::perfdata::PerfHeader;
use crate::stats::{GcCollectorNumericStats, Ratio};
use crate::target::TargetIdentity;

verus! {

/// Whether a quotient is this one.
pub open spec fn holds(ratio: Ratio, numerator: int, denominator: int) -> bool {
    ratio.numerator == numerator && ratio.denominator == denominator
}

/// Whether a quotient is a number of ticks in seconds, or zero where the frequency is not known.
pub open spec fn holds_seconds(ratio: Ratio, ticks: int, frequency: int) -> bool {
    if frequency > 0 {
        holds(ratio, ticks, frequency)
    } else {
        holds(ratio, 0, 1)
    }
}

/// A sum of counters is exact where it is a 64-bit number, and the nearest one where it is not.
pub proof fn law_sums_saturate(first: i64, second: i64)
    ensures
        ({
            let sum = crate::stats::saturating_sum(first, second);
            let exact = first + second;
            &&& -0x8000_0000_0000_0000 <= exact <= 0x7fff_ffff_ffff_ffff ==> sum == exact
            &&& exact > 0x7fff_ffff_ffff_ffff ==> sum == 0x7fff_ffff_ffff_ffff
            &&& exact < -0x8000_0000_0000_0000 ==> sum == -0x8000_0000_0000_0000
        }),
{
}

/// A counter that cannot be negative is shown as it is, and a negative one as zero.
pub proof fn law_counts_are_not_negative(value: i64)
    ensures
        value >= 0 ==> crate::stats::count(value) == value,
        value < 0 ==> crate::stats::count(value) == 0,
{
}

impl MonitorView {
    /// Whether a monitor is well-formed and leaves no counter unbound that it could bind.
    #[verifier::opaque]
    spec fn all_bound(self) -> bool {
        self.wf() && self.fully_bound()
    }

    proof fn lemma_all_bound(self)
        requires
            self.wf(),
            self.fully_bound(),
        ensures
            self.all_bound(),
    {
        reveal(MonitorView::all_bound);
    }

    proof fn lemma_reads(self, metric: BuiltinLongMetric, key: Seq<char>)
        requires
            self.all_bound(),
            metric.candidates().len() == 1,
            metric.candidates()[0].key == key,
        ensures
            self.builtin_or_zero(metric) == self.long_or_zero(key),
    {
        reveal(MonitorView::all_bound);
        self.law_only_key(metric, key);
    }

    proof fn lemma_memory_columns(self)
        requires
            self.all_bound(),
        ensures
            ({
                let stats = self.gc_numeric_stats();
                &&& holds(
                    stats.s0c,
                    self.long_or_zero("sun.gc.generation.0.space.1.capacity"@) as int,
                    1024,
                )
                &&& holds(
                    stats.s1c,
                    self.long_or_zero("sun.gc.generation.0.space.2.capacity"@) as int,
                    1024,
                )
                &&& holds(
                    stats.s0u,
                    self.long_or_zero("sun.gc.generation.0.space.1.used"@) as int,
                    1024,
                )
                &&& holds(
                    stats.s1u,
                    self.long_or_zero("sun.gc.generation.0.space.2.used"@) as int,
                    1024,
                )
                &&& holds(
                    stats.ec,
                    self.long_or_zero("sun.gc.generation.0.space.0.capacity"@) as int,
                    1024,
                )
                &&& holds(
                    stats.eu,
                    self.long_or_zero("sun.gc.generation.0.space.0.used"@) as int,
                    1024,
                )
                &&& holds(
                    stats.oc,
                    self.long_or_zero("sun.gc.generation.1.space.0.capacity"@) as int,
                    1024,
                )
                &&& holds(
                    stats.ou,
                    self.long_or_zero("sun.gc.generation.1.space.0.used"@) as int,
                    1024,
                )
                &&& holds(stats.mc, self.long_or_zero("sun.gc.metaspace.capacity"@) as int, 1024)
                &&& holds(stats.mu, self.long_or_zero("sun.gc.metaspace.used"@) as int, 1024)
                &&& holds(
                    stats.ccsc,
                    self.long_or_zero("sun.gc.compressedclassspace.capacity"@) as int,
                    1024,
                )
                &&& holds(
                    stats.ccsu,
                    self.long_or_zero("sun.gc.compressedclassspace.used"@) as int,
                    1024,
                )
            }),
    {
        self.lemma_reads(
            BuiltinLongMetric::Survivor0Capacity,
            "sun.gc.generation.0.space.1.capacity"@,
        );
        self.lemma_reads(
            BuiltinLongMetric::Survivor1Capacity,
            "sun.gc.generation.0.space.2.capacity"@,
        );
        self.lemma_reads(BuiltinLongMetric::Survivor0Used, "sun.gc.generation.0.space.1.used"@);
        self.lemma_reads(BuiltinLongMetric::Survivor1Used, "sun.gc.generation.0.space.2.used"@);
        self.lemma_reads(BuiltinLongMetric::EdenCapacity, "sun.gc.generation.0.space.0.capacity"@);
        self.lemma_reads(BuiltinLongMetric::EdenUsed, "sun.gc.generation.0.space.0.used"@);
        self.lemma_reads(BuiltinLongMetric::OldCapacity, "sun.gc.generation.1.space.0.capacity"@);
        self.lemma_reads(BuiltinLongMetric::OldUsed, "sun.gc.generation.1.space.0.used"@);
        self.lemma_reads(BuiltinLongMetric::MetaspaceCapacity, "sun.gc.metaspace.capacity"@);
        self.lemma_reads(BuiltinLongMetric::MetaspaceUsed, "sun.gc.metaspace.used"@);
        self.lemma_reads(
            BuiltinLongMetric::CompressedClassCapacity,
            "sun.gc.compressedclassspace.capacity"@,
        );
        self.lemma_reads(
            BuiltinLongMetric::CompressedClassUsed,
            "sun.gc.compressedclassspace.used"@,
        );
    }

    /// The memory columns of the garbage collection statistics are the counters of their spaces,
    /// in units of 1024 bytes.
    pub proof fn law_memory_columns(self)
        requires
            self.wf(),
            self.fully_bound(),
        ensures
            ({
                let stats = self.gc_numeric_stats();
                &&& holds(
                    stats.s0c,
                    self.long_or_zero("sun.gc.generation.0.space.1.capacity"@) as int,
                    1024,
                )
                &&& holds(
                    stats.s1c,
                    self.long_or_zero("sun.gc.generation.0.space.2.capacity"@) as int,
                    1024,
                )
                &&& holds(
                    stats.s0u,
                    self.long_or_zero("sun.gc.generation.0.space.1.used"@) as int,
                    1024,
                )
                &&& holds(
                    stats.s1u,
                    self.long_or_zero("sun.gc.generation.0.space.2.used"@) as int,
                    1024,
                )
                &&& holds(
                    stats.ec,
                    self.long_or_zero("sun.gc.generation.0.space.0.capacity"@) as int,
                    1024,
                )
                &&& holds(
                    stats.eu,
                    self.long_or_zero("sun.gc.generation.0.space.0.used"@) as int,
                    1024,
                )
                &&& holds(
                    stats.oc,
                    self.long_or_zero("sun.gc.generation.1.space.0.capacity"@) as int,
                    1024,
                )
                &&& holds(
                    stats.ou,
                    self.long_or_zero("sun.gc.generation.1.space.0.used"@) as int,
                    1024,
                )
                &&& holds(stats.mc, self.long_or_zero("sun.gc.metaspace.capacity"@) as int, 1024)
                &&& holds(stats.mu, self.long_or_zero("sun.gc.metaspace.used"@) as int, 1024)
                &&& holds(
                    stats.ccsc,
                    self.long_or_zero("sun.gc.compressedclassspace.capacity"@) as int,
                    1024,
                )
                &&& holds(
                    stats.ccsu,
                    self.long_or_zero("sun.gc.compressedclassspace.used"@) as int,
                    1024,
                )
            }),
    {
        self.lemma_all_bound();
        self.lemma_memory_columns();
    }

    /// The collector columns agree with the slots of the collectors: count and seconds of slot 0
    /// are the first two, those of slot 1 the next, those of slot 2 the last. A slot that is not
    /// published counts as zero.
    pub proof fn law_collector_columns_agree_with_slots(self)
        ensures
            ({
                let stats = self.gc_numeric_stats();
                let slots = self.gc_collector_numeric_stats();
                &&& slots.len() == 3
                &&& slots[0].ordinal == 0 && slots[1].ordinal == 1 && slots[2].ordinal == 2
                &&& stats.ygc == slot_count(slots[0])
                &&& stats.fgc == slot_count(slots[1])
                &&& stats.cgc == slot_count(slots[2])
                &&& stats.ygct == slot_time(slots[0], self.timer_frequency_hz)
                &&& stats.fgct == slot_time(slots[1], self.timer_frequency_hz)
                &&& stats.cgct == slot_time(slots[2], self.timer_frequency_hz)
            }),
    {
    }

    /// The slot of a collector, seen through the keys of its two counters.
    proof fn lemma_collector_slot(
        self,
        ordinal: u8,
        first: BuiltinLongMetric,
        second: BuiltinLongMetric,
        invocations: Seq<char>,
        time: Seq<char>,
    )
        requires
            self.wf(),
            self.fully_bound(),
            first.candidates().len() == 1,
            first.candidates()[0].key == invocations,
            second.candidates().len() == 1,
            second.candidates()[0].key == time,
        ensures
            self.shows_collector(
                self.collector_stats(ordinal, first, second),
                invocations,
                time,
            ),
    {
        self.law_only_key(first, invocations);
        self.law_only_key(second, time);
    }

    /// The slot of a collector holds the counters of that collector: its invocations, and its time
    /// in seconds where the timer's frequency is known. What is not published is missing.
    pub proof fn law_collector_slots(self)
        requires
            self.wf(),
            self.fully_bound(),
        ensures
            self.gc_collector_numeric_stats().len() == 3,
            self.shows_collector(
                self.gc_collector_numeric_stats()[0],
                "sun.gc.collector.0.invocations"@,
                "sun.gc.collector.0.time"@,
            ),
            self.shows_collector(
                self.gc_collector_numeric_stats()[1],
                "sun.gc.collector.1.invocations"@,
                "sun.gc.collector.1.time"@,
            ),
            self.shows_collector(
                self.gc_collector_numeric_stats()[2],
                "sun.gc.collector.2.invocations"@,
                "sun.gc.collector.2.time"@,
            ),
    {
        self.lemma_collector_slot(
            0,
            BuiltinLongMetric::Collector0Invocations,
            BuiltinLongMetric::Collector0Time,
            "sun.gc.collector.0.invocations"@,
            "sun.gc.collector.0.time"@,
        );
        self.lemma_collector_slot(
            1,
            BuiltinLongMetric::Collector1Invocations,
            BuiltinLongMetric::Collector1Time,
            "sun.gc.collector.1.invocations"@,
            "sun.gc.collector.1.time"@,
        );
        self.lemma_collector_slot(
            2,
            BuiltinLongMetric::Collector2Invocations,
            BuiltinLongMetric::Collector2Time,
            "sun.gc.collector.2.invocations"@,
            "sun.gc.collector.2.time"@,
        );
    }

    /// Whether a slot shows the counters of the given keys.
    pub open spec fn shows_collector(
        self,
        slot: GcCollectorNumericStats,
        invocations: Seq<char>,
        time: Seq<char>,
    ) -> bool {
        &&& match self.metric(invocations) {
            Some(ValueView::Long(value)) => slot.invocations == Some(
                (if value < 0 {
                    0
                } else {
                    value
                }) as u64,
            ),
            _ => slot.invocations is None,
        }
        &&& match self.metric(time) {
            Some(ValueView::Long(ticks)) => if self.timer_frequency_hz > 0 {
                slot.time_s matches Some(seconds) && holds(
                    seconds,
                    ticks as int,
                    self.timer_frequency_hz as int,
                )
            } else {
                slot.time_s is None
            },
            _ => slot.time_s is None,
        }
    }

    proof fn lemma_total_collection_time(self)
        requires
            self.all_bound(),
        ensures
            ({
                let first = self.long_or_zero("sun.gc.collector.0.time"@);
                let second = self.long_or_zero("sun.gc.collector.1.time"@);
                let third = self.long_or_zero("sun.gc.collector.2.time"@);
                holds_seconds(
                    self.gc_numeric_stats().gct,
                    crate::stats::saturating_sum(
                        crate::stats::saturating_sum(first, second),
                        third,
                    ) as int,
                    self.timer_frequency_hz as int,
                )
            }),
    {
        self.lemma_reads(BuiltinLongMetric::Collector0Time, "sun.gc.collector.0.time"@);
        self.lemma_reads(BuiltinLongMetric::Collector1Time, "sun.gc.collector.1.time"@);
        self.lemma_reads(BuiltinLongMetric::Collector2Time, "sun.gc.collector.2.time"@);
    }

    /// The total time of garbage collection is the sum of the times of the three collectors, in
    /// seconds.
    pub proof fn law_total_collection_time(self)
        requires
            self.wf(),
            self.fully_bound(),
        ensures
            ({
                let first = self.long_or_zero("sun.gc.collector.0.time"@);
                let second = self.long_or_zero("sun.gc.collector.1.time"@);
                let third = self.long_or_zero("sun.gc.collector.2.time"@);
                holds_seconds(
                    self.gc_numeric_stats().gct,
                    crate::stats::saturating_sum(
                        crate::stats::saturating_sum(first, second),
                        third,
                    ) as int,
                    self.timer_frequency_hz as int,
                )
            }),
    {
        self.lemma_all_bound();
        self.lemma_total_collection_time();
    }

    /// A number of ticks in seconds is divided by the timer's frequency, and is zero where that is
    /// not known.
    pub proof fn law_seconds(self, ticks: i64)
        ensures
            holds_seconds(self.seconds(ticks), ticks as int, self.timer_frequency_hz as int),
    {
    }

    /// The counter that is shown for a counter with an alias: the first of the two keys that is
    /// known as a counter.
    pub open spec fn first_of(self, key: Seq<char>, alias: Seq<char>) -> i64 {
        if crate::bindings::is_counter(self.lookup(key)) {
            self.long_or_zero(key)
        } else {
            self.long_or_zero(alias)
        }
    }

    /// A counter with one alias, right after connecting, reads as the first of the two keys that
    /// is published as a counter.
    pub proof fn law_aliased_counter(
        monitor_id: usize,
        target: TargetIdentity,
        memory: Seq<u8>,
        header: PerfHeader,
        index: IndexView,
        metric: BuiltinLongMetric,
        key: Seq<char>,
        alias: Seq<char>,
    )
        requires
            metric.candidates().len() == 2,
            metric.candidates()[0].key == key,
            metric.candidates()[1].key == alias,
        ensures
            ({
                let monitor = MonitorView::connected(monitor_id, target, memory, header, index);
                monitor.builtin_or_zero(metric) == monitor.first_of(key, alias)
            }),
    {
        let monitor = MonitorView::connected(monitor_id, target, memory, header, index);
        MonitorView::law_counters_are_bound_when_connecting(
            monitor_id,
            target,
            memory,
            header,
            index,
            metric,
        );
        assert(monitor.lookup(key) == index.get(key) && monitor.lookup(alias) == index.get(alias));
        if crate::bindings::is_counter(index.get(key)) {
            assert(monitor.reads_as_candidate(metric, 0));
        } else if crate::bindings::is_counter(index.get(alias)) {
            assert(monitor.reads_as_candidate(metric, 1));
        } else {
            assert(monitor.lacks(metric));
        }
    }

    /// Right after connecting, the class statistics count the classes that were loaded and
    /// unloaded, those of the shared archive included, and their bytes in units of 1024.
    pub proof fn law_class_columns(
        monitor_id: usize,
        target: TargetIdentity,
        memory: Seq<u8>,
        header: PerfHeader,
        index: IndexView,
    )
        requires
            index.wf(),
            index.longs_apart(),
        ensures
            ({
                let monitor = MonitorView::connected(monitor_id, target, memory, header, index);
                let stats = monitor.class_stats();
                &&& stats.loaded == crate::stats::saturating_sum(
                    monitor.first_of("java.cls.loadedClasses"@, "sun.cls.loadedClasses"@),
                    monitor.long_or_zero("java.cls.sharedLoadedClasses"@),
                )
                &&& stats.unloaded == crate::stats::saturating_sum(
                    monitor.first_of("java.cls.unloadedClasses"@, "sun.cls.unloadedClasses"@),
                    monitor.long_or_zero("java.cls.sharedUnloadedClasses"@),
                )
                &&& holds(
                    stats.bytes,
                    crate::stats::saturating_sum(
                        monitor.long_or_zero("sun.cls.loadedBytes"@),
                        monitor.long_or_zero("sun.cls.sharedLoadedBytes"@),
                    ) as int,
                    1024,
                )
                &&& holds(
                    stats.unloaded_bytes,
                    crate::stats::saturating_sum(
                        monitor.long_or_zero("sun.cls.unloadedBytes"@),
                        monitor.long_or_zero("sun.cls.sharedUnloadedBytes"@),
                    ) as int,
                    1024,
                )
                &&& holds_seconds(
                    stats.time,
                    monitor.long_or_zero("sun.cls.time"@) as int,
                    monitor.timer_frequency_hz as int,
                )
            }),
    {
        let monitor = MonitorView::connected(monitor_id, target, memory, header, index);
        assert(monitor.all_bound()) by {
            MonitorView::lemma_connected(monitor_id, target, memory, header, index);
            MonitorView::law_connected_monitors_are_fully_bound(
                monitor_id,
                target,
                memory,
                header,
                index,
            );
            monitor.lemma_all_bound();
        }
        MonitorView::law_aliased_counter(
            monitor_id,
            target,
            memory,
            header,
            index,
            BuiltinLongMetric::LoadedClasses,
            "java.cls.loadedClasses"@,
            "sun.cls.loadedClasses"@,
        );
        MonitorView::law_aliased_counter(
            monitor_id,
            target,
            memory,
            header,
            index,
            BuiltinLongMetric::UnloadedClasses,
            "java.cls.unloadedClasses"@,
            "sun.cls.unloadedClasses"@,
        );
        monitor.lemma_reads(
            BuiltinLongMetric::SharedLoadedClasses,
            "java.cls.sharedLoadedClasses"@,
        );
        monitor.lemma_reads(
            BuiltinLongMetric::SharedUnloadedClasses,
            "java.cls.sharedUnloadedClasses"@,
        );
        monitor.lemma_reads(BuiltinLongMetric::LoadedBytes, "sun.cls.loadedBytes"@);
        monitor.lemma_reads(BuiltinLongMetric::SharedLoadedBytes, "sun.cls.sharedLoadedBytes"@);
        monitor.lemma_reads(BuiltinLongMetric::UnloadedBytes, "sun.cls.unloadedBytes"@);
        monitor.lemma_reads(BuiltinLongMetric::SharedUnloadedBytes, "sun.cls.sharedUnloadedBytes"@);
        monitor.lemma_reads(BuiltinLongMetric::ClassLoadTime, "sun.cls.time"@);
    }

    /// Right after connecting, the compiler statistics count compilations, bailouts and
    /// invalidations, and show the time of compilation in seconds.
    pub proof fn law_compiler_columns(
        monitor_id: usize,
        target: TargetIdentity,
        memory: Seq<u8>,
        header: PerfHeader,
        index: IndexView,
    )
        requires
            index.wf(),
            index.longs_apart(),
        ensures
            ({
                let monitor = MonitorView::connected(monitor_id, target, memory, header, index);
                let stats = monitor.compiler_numeric_stats();
                &&& stats.compiled == monitor.first_of(
                    "sun.ci.totalCompiles"@,
                    "sun.ci.totalCompilations"@,
                )
                &&& stats.failed == monitor.long_or_zero("sun.ci.totalBailouts"@)
                &&& stats.invalid == monitor.first_of(
                    "sun.ci.totalInvalidates"@,
                    "sun.ci.totalInvalidations"@,
                )
                &&& holds_seconds(
                    stats.time,
                    monitor.first_of("java.ci.totalTime"@, "sun.ci.totalTime"@) as int,
                    monitor.timer_frequency_hz as int,
                )
            }),
    {
        let monitor = MonitorView::connected(monitor_id, target, memory, header, index);
        assert(monitor.all_bound()) by {
            MonitorView::lemma_connected(monitor_id, target, memory, header, index);
            MonitorView::law_connected_monitors_are_fully_bound(
                monitor_id,
                target,
                memory,
                header,
                index,
            );
            monitor.lemma_all_bound();
        }
        MonitorView::law_aliased_counter(
            monitor_id,
            target,
            memory,
            header,
            index,
            BuiltinLongMetric::Compilations,
            "sun.ci.totalCompiles"@,
            "sun.ci.totalCompilations"@,
        );
        MonitorView::law_aliased_counter(
            monitor_id,
            target,
            memory,
            header,
            index,
            BuiltinLongMetric::CompilerInvalidations,
            "sun.ci.totalInvalidates"@,
            "sun.ci.totalInvalidations"@,
        );
        MonitorView::law_aliased_counter(
            monitor_id,
            target,
            memory,
            header,
            index,
            BuiltinLongMetric::CompilationTime,
            "java.ci.totalTime"@,
            "sun.ci.totalTime"@,
        );
        monitor.lemma_reads(BuiltinLongMetric::CompilerBailouts, "sun.ci.totalBailouts"@);
    }

    proof fn lemma_runtime_columns(self)
        requires
            self.all_bound(),
        ensures
            ({
                let stats = self.runtime_stats();
                let live = self.long_or_zero("java.threads.live"@);
                let used = self.long_or_zero("sun.ci.codeCache.used"@);
                let capacity = self.long_or_zero("sun.ci.codeCache.capacity"@);
                let safepoint = self.long_or_zero("sun.rt.safepointTime"@);
                let application = self.long_or_zero("sun.rt.applicationTime"@);
                let peak = self.builtin_or_zero(BuiltinLongMetric::ThreadsPeak);
                &&& stats.threads_live == live
                &&& stats.threads_daemon == self.long_or_zero("java.threads.daemon"@)
                &&& peak != 0 ==> stats.threads_peak == peak
                &&& peak == 0 ==> stats.threads_peak == live
                &&& holds(stats.code_cache_used, used as int, 1024)
                &&& holds(stats.code_cache_capacity, capacity as int, 1024)
                &&& 0 <= used <= capacity && capacity > 0 ==> holds(
                    stats.code_cache_utilization,
                    used as int,
                    capacity as int,
                )
                &&& used > capacity > 0 ==> holds(
                    stats.code_cache_utilization,
                    capacity as int,
                    capacity as int,
                )
                &&& used < 0 ==> stats.code_cache_utilization.numerator == 0
                &&& capacity <= 0 ==> holds(stats.code_cache_utilization, 0, 1)
                &&& stats.safepoints == self.long_or_zero("sun.rt.safepoints"@)
                &&& holds_seconds(
                    stats.safepoint_time_s,
                    safepoint as int,
                    self.timer_frequency_hz as int,
                )
                &&& holds_seconds(
                    stats.app_time_s,
                    application as int,
                    self.timer_frequency_hz as int,
                )
                &&& 0 <= safepoint && 0 <= application && 0 < safepoint + application <= i64::MAX
                    ==> holds(
                    stats.safepoint_overhead,
                    safepoint as int,
                    safepoint + application,
                )
                &&& 0 <= safepoint && safepoint + application > i64::MAX ==> holds(
                    stats.safepoint_overhead,
                    safepoint as int,
                    i64::MAX as int,
                )
                &&& 0 < safepoint + application < safepoint ==> holds(
                    stats.safepoint_overhead,
                    safepoint + application,
                    safepoint + application,
                )
                &&& safepoint < 0 ==> stats.safepoint_overhead.numerator == 0
                &&& safepoint + application <= 0 ==> holds(stats.safepoint_overhead, 0, 1)
            }),
    {
        self.lemma_reads(BuiltinLongMetric::ThreadsLive, "java.threads.live"@);
        self.lemma_reads(BuiltinLongMetric::ThreadsDaemon, "java.threads.daemon"@);
        self.lemma_reads(BuiltinLongMetric::CodeCacheUsed, "sun.ci.codeCache.used"@);
        self.lemma_reads(BuiltinLongMetric::CodeCacheCapacity, "sun.ci.codeCache.capacity"@);
        self.lemma_reads(BuiltinLongMetric::SafepointTime, "sun.rt.safepointTime"@);
        self.lemma_reads(BuiltinLongMetric::ApplicationTime, "sun.rt.applicationTime"@);
        self.lemma_reads(BuiltinLongMetric::Safepoints, "sun.rt.safepoints"@);
    }

    /// The runtime statistics show the threads, the safepoints, their times in seconds, the code
    /// cache in units of 1024 bytes and its share in use, and the share of time that safepoints
    /// take. A peak of zero gives way to the live threads.
    pub proof fn law_runtime_columns(self)
        requires
            self.wf(),
            self.fully_bound(),
        ensures
            ({
                let stats = self.runtime_stats();
                let live = self.long_or_zero("java.threads.live"@);
                let used = self.long_or_zero("sun.ci.codeCache.used"@);
                let capacity = self.long_or_zero("sun.ci.codeCache.capacity"@);
                let safepoint = self.long_or_zero("sun.rt.safepointTime"@);
                let application = self.long_or_zero("sun.rt.applicationTime"@);
                let peak = self.builtin_or_zero(BuiltinLongMetric::ThreadsPeak);
                &&& stats.threads_live == live
                &&& stats.threads_daemon == self.long_or_zero("java.threads.daemon"@)
                &&& peak != 0 ==> stats.threads_peak == peak
                &&& peak == 0 ==> stats.threads_peak == live
                &&& holds(stats.code_cache_used, used as int, 1024)
                &&& holds(stats.code_cache_capacity, capacity as int, 1024)
                &&& 0 <= used <= capacity && capacity > 0 ==> holds(
                    stats.code_cache_utilization,
                    used as int,
                    capacity as int,
                )
                &&& used > capacity > 0 ==> holds(
                    stats.code_cache_utilization,
                    capacity as int,
                    capacity as int,
                )
                &&& used < 0 ==> stats.code_cache_utilization.numerator == 0
                &&& capacity <= 0 ==> holds(stats.code_cache_utilization, 0, 1)
                &&& stats.safepoints == self.long_or_zero("sun.rt.safepoints"@)
                &&& holds_seconds(
                    stats.safepoint_time_s,
                    safepoint as int,
                    self.timer_frequency_hz as int,
                )
                &&& holds_seconds(
                    stats.app_time_s,
                    application as int,
                    self.timer_frequency_hz as int,
                )
                &&& 0 <= safepoint && 0 <= application && 0 < safepoint + application <= i64::MAX
                    ==> holds(
                    stats.safepoint_overhead,
                    safepoint as int,
                    safepoint + application,
                )
                &&& 0 <= safepoint && safepoint + application > i64::MAX ==> holds(
                    stats.safepoint_overhead,
                    safepoint as int,
                    i64::MAX as int,
                )
                &&& 0 < safepoint + application < safepoint ==> holds(
                    stats.safepoint_overhead,
                    safepoint + application,
                    safepoint + application,
                )
                &&& safepoint < 0 ==> stats.safepoint_overhead.numerator == 0
                &&& safepoint + application <= 0 ==> holds(stats.safepoint_overhead, 0, 1)
            }),
    {
        self.lemma_all_bound();
        self.lemma_runtime_columns();
    }

    /// Right after connecting, the peak of the threads is read under the first of its three keys
    /// that is published as a counter.
    pub proof fn law_thread_peak(
        monitor_id: usize,
        target: TargetIdentity,
        memory: Seq<u8>,
        header: PerfHeader,
        index: IndexView,
    )
        ensures
            ({
                let monitor = MonitorView::connected(monitor_id, target, memory, header, index);
                let peak = monitor.builtin_or_zero(BuiltinLongMetric::ThreadsPeak);
                let canonical = crate::bindings::is_counter(index.get("java.threads.livePeak"@));
                let alias = crate::bindings::is_counter(index.get("java.threads.peak"@));
                &&& canonical ==> peak == monitor.long_or_zero("java.threads.livePeak"@)
                &&& !canonical && alias ==> peak == monitor.long_or_zero("java.threads.peak"@)
                &&& !canonical && !alias ==> peak == monitor.long_or_zero(
                    "java.threads.peakCount"@,
                )
            }),
    {
        let metric = BuiltinLongMetric::ThreadsPeak;
        let monitor = MonitorView::connected(monitor_id, target, memory, header, index);
        MonitorView::law_counters_are_bound_when_connecting(
            monitor_id,
            target,
            memory,
            header,
            index,
            metric,
        );
        let last = index.get("java.threads.peakCount"@);
        assert(monitor.lookup("java.threads.peakCount"@) == last);
        assert(metric.candidates()[0].key == "java.threads.livePeak"@);
        assert(metric.candidates()[1].key == "java.threads.peak"@);
        assert(metric.candidates()[2].key == "java.threads.peakCount"@);
        if crate::bindings::is_counter(index.get("java.threads.livePeak"@)) {
            assert(monitor.reads_as_candidate(metric, 0));
        } else if crate::bindings::is_counter(index.get("java.threads.peak"@)) {
            assert(monitor.reads_as_candidate(metric, 1));
        } else if crate::bindings::is_counter(last) {
            assert(monitor.reads_as_candidate(metric, 2));
        } else {
            assert(monitor.lacks(metric));
        }
    }
}

/// The count of a slot, or zero where it is not published.
pub open spec fn slot_count(slot: GcCollectorNumericStats) -> u64 {
    match slot.invocations {
        Some(count) => count,
        None => 0,
    }
}

/// The time of a slot, or zero where it is not published: no ticks at the frequency, or nothing
/// where the frequency is not known.
pub open spec fn slot_time(slot: GcCollectorNumericStats, frequency: usize) -> Ratio {
    match slot.time_s {
        Some(time) => time,
        None => if frequency > 0 {
            Ratio { numerator: 0, denominator: frequency as u64 }
        } else {
            Ratio { numerator: 0, denominator: 1 }
        },
    }
}

} // verus!
