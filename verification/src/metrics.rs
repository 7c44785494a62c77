//! The logical counters that the library knows, and the keys under which JVMs publish them.

use vstd::prelude::*;

use crate::index::{IndexView, PerfIndex};
use crate::perfdata::{EntryMeta, PerfMemory};

verus! {

/// Logical 64-bit counters used by the high-level APIs.
///
/// HotSpot counter names are not a stable public JVM specification. This enum identifies the
/// metric's meaning; the best compatible key is resolved once, when it first appears.
#[derive(Debug, Clone, Copy, PartialEq, Eq, Hash, Structural)]
#[non_exhaustive]
pub enum BuiltinLongMetric {
    LoadedClasses,
    SharedLoadedClasses,
    LoadedBytes,
    SharedLoadedBytes,
    UnloadedClasses,
    SharedUnloadedClasses,
    UnloadedBytes,
    SharedUnloadedBytes,
    ClassLoadTime,
    Compilations,
    CompilerBailouts,
    CompilerInvalidations,
    CompilationTime,
    /// Historical jstat `generation.0.space.1.capacity` slot.
    Survivor0Capacity,
    /// Historical jstat `generation.0.space.2.capacity` slot.
    Survivor1Capacity,
    /// Historical jstat `generation.0.space.1.used` slot.
    Survivor0Used,
    /// Historical jstat `generation.0.space.2.used` slot.
    Survivor1Used,
    /// Historical jstat `generation.0.space.0.capacity` slot.
    EdenCapacity,
    /// Historical jstat `generation.0.space.0.used` slot.
    EdenUsed,
    /// Historical jstat generation-1 space-0 capacity slot.
    ///
    /// It is the whole heap for non-generational ZGC and Shenandoah, not an
    /// independently meaningful old generation.
    OldCapacity,
    /// Historical jstat generation-1 space-0 used slot; see `OldCapacity`.
    OldUsed,
    MetaspaceCapacity,
    MetaspaceUsed,
    CompressedClassCapacity,
    CompressedClassUsed,
    /// Legacy HotSpot PermGen committed capacity (not Metaspace).
    PermGenCapacity,
    /// Legacy HotSpot PermGen used bytes (not Metaspace).
    PermGenUsed,
    /// `sun.gc.collector.0.invocations`; the meaning is collector-specific.
    Collector0Invocations,
    /// `sun.gc.collector.0.time`; the meaning is collector-specific.
    Collector0Time,
    /// `sun.gc.collector.1.invocations`; the meaning is collector-specific.
    Collector1Invocations,
    /// `sun.gc.collector.1.time`; the meaning is collector-specific.
    Collector1Time,
    /// `sun.gc.collector.2.invocations`; optional since JDK 11.
    Collector2Invocations,
    /// `sun.gc.collector.2.time`; optional since JDK 11.
    Collector2Time,
    ThreadsLive,
    ThreadsDaemon,
    ThreadsPeak,
    CodeCacheUsed,
    CodeCacheCapacity,
    SafepointTime,
    SafepointSyncTime,
    ApplicationTime,
    Safepoints,
}

/// The number of logical counters.
pub const BUILTIN_LONG_METRIC_COUNT: usize = 42;

impl BuiltinLongMetric {
    /// All built-in logical counters in stable display order.
    pub const ALL: [BuiltinLongMetric; 42] = [
        BuiltinLongMetric::LoadedClasses,
        BuiltinLongMetric::SharedLoadedClasses,
        BuiltinLongMetric::LoadedBytes,
        BuiltinLongMetric::SharedLoadedBytes,
        BuiltinLongMetric::UnloadedClasses,
        BuiltinLongMetric::SharedUnloadedClasses,
        BuiltinLongMetric::UnloadedBytes,
        BuiltinLongMetric::SharedUnloadedBytes,
        BuiltinLongMetric::ClassLoadTime,
        BuiltinLongMetric::Compilations,
        BuiltinLongMetric::CompilerBailouts,
        BuiltinLongMetric::CompilerInvalidations,
        BuiltinLongMetric::CompilationTime,
        BuiltinLongMetric::Survivor0Capacity,
        BuiltinLongMetric::Survivor1Capacity,
        BuiltinLongMetric::Survivor0Used,
        BuiltinLongMetric::Survivor1Used,
        BuiltinLongMetric::EdenCapacity,
        BuiltinLongMetric::EdenUsed,
        BuiltinLongMetric::OldCapacity,
        BuiltinLongMetric::OldUsed,
        BuiltinLongMetric::MetaspaceCapacity,
        BuiltinLongMetric::MetaspaceUsed,
        BuiltinLongMetric::CompressedClassCapacity,
        BuiltinLongMetric::CompressedClassUsed,
        BuiltinLongMetric::PermGenCapacity,
        BuiltinLongMetric::PermGenUsed,
        BuiltinLongMetric::Collector0Invocations,
        BuiltinLongMetric::Collector0Time,
        BuiltinLongMetric::Collector1Invocations,
        BuiltinLongMetric::Collector1Time,
        BuiltinLongMetric::Collector2Invocations,
        BuiltinLongMetric::Collector2Time,
        BuiltinLongMetric::ThreadsLive,
        BuiltinLongMetric::ThreadsDaemon,
        BuiltinLongMetric::ThreadsPeak,
        BuiltinLongMetric::CodeCacheUsed,
        BuiltinLongMetric::CodeCacheCapacity,
        BuiltinLongMetric::SafepointTime,
        BuiltinLongMetric::SafepointSyncTime,
        BuiltinLongMetric::ApplicationTime,
        BuiltinLongMetric::Safepoints,
    ];

    /// The position of the counter in display order.
    pub open spec fn ordinal(self) -> int {
        match self {
            BuiltinLongMetric::LoadedClasses => 0,
            BuiltinLongMetric::SharedLoadedClasses => 1,
            BuiltinLongMetric::LoadedBytes => 2,
            BuiltinLongMetric::SharedLoadedBytes => 3,
            BuiltinLongMetric::UnloadedClasses => 4,
            BuiltinLongMetric::SharedUnloadedClasses => 5,
            BuiltinLongMetric::UnloadedBytes => 6,
            BuiltinLongMetric::SharedUnloadedBytes => 7,
            BuiltinLongMetric::ClassLoadTime => 8,
            BuiltinLongMetric::Compilations => 9,
            BuiltinLongMetric::CompilerBailouts => 10,
            BuiltinLongMetric::CompilerInvalidations => 11,
            BuiltinLongMetric::CompilationTime => 12,
            BuiltinLongMetric::Survivor0Capacity => 13,
            BuiltinLongMetric::Survivor1Capacity => 14,
            BuiltinLongMetric::Survivor0Used => 15,
            BuiltinLongMetric::Survivor1Used => 16,
            BuiltinLongMetric::EdenCapacity => 17,
            BuiltinLongMetric::EdenUsed => 18,
            BuiltinLongMetric::OldCapacity => 19,
            BuiltinLongMetric::OldUsed => 20,
            BuiltinLongMetric::MetaspaceCapacity => 21,
            BuiltinLongMetric::MetaspaceUsed => 22,
            BuiltinLongMetric::CompressedClassCapacity => 23,
            BuiltinLongMetric::CompressedClassUsed => 24,
            BuiltinLongMetric::PermGenCapacity => 25,
            BuiltinLongMetric::PermGenUsed => 26,
            BuiltinLongMetric::Collector0Invocations => 27,
            BuiltinLongMetric::Collector0Time => 28,
            BuiltinLongMetric::Collector1Invocations => 29,
            BuiltinLongMetric::Collector1Time => 30,
            BuiltinLongMetric::Collector2Invocations => 31,
            BuiltinLongMetric::Collector2Time => 32,
            BuiltinLongMetric::ThreadsLive => 33,
            BuiltinLongMetric::ThreadsDaemon => 34,
            BuiltinLongMetric::ThreadsPeak => 35,
            BuiltinLongMetric::CodeCacheUsed => 36,
            BuiltinLongMetric::CodeCacheCapacity => 37,
            BuiltinLongMetric::SafepointTime => 38,
            BuiltinLongMetric::SafepointSyncTime => 39,
            BuiltinLongMetric::ApplicationTime => 40,
            BuiltinLongMetric::Safepoints => 41,
        }
    }

    /// The position of the counter in display order.
    pub fn position(self) -> (position: usize)
        ensures
            position == self.ordinal(),
            position < BUILTIN_LONG_METRIC_COUNT,
    {
        match self {
            BuiltinLongMetric::LoadedClasses => 0,
            BuiltinLongMetric::SharedLoadedClasses => 1,
            BuiltinLongMetric::LoadedBytes => 2,
            BuiltinLongMetric::SharedLoadedBytes => 3,
            BuiltinLongMetric::UnloadedClasses => 4,
            BuiltinLongMetric::SharedUnloadedClasses => 5,
            BuiltinLongMetric::UnloadedBytes => 6,
            BuiltinLongMetric::SharedUnloadedBytes => 7,
            BuiltinLongMetric::ClassLoadTime => 8,
            BuiltinLongMetric::Compilations => 9,
            BuiltinLongMetric::CompilerBailouts => 10,
            BuiltinLongMetric::CompilerInvalidations => 11,
            BuiltinLongMetric::CompilationTime => 12,
            BuiltinLongMetric::Survivor0Capacity => 13,
            BuiltinLongMetric::Survivor1Capacity => 14,
            BuiltinLongMetric::Survivor0Used => 15,
            BuiltinLongMetric::Survivor1Used => 16,
            BuiltinLongMetric::EdenCapacity => 17,
            BuiltinLongMetric::EdenUsed => 18,
            BuiltinLongMetric::OldCapacity => 19,
            BuiltinLongMetric::OldUsed => 20,
            BuiltinLongMetric::MetaspaceCapacity => 21,
            BuiltinLongMetric::MetaspaceUsed => 22,
            BuiltinLongMetric::CompressedClassCapacity => 23,
            BuiltinLongMetric::CompressedClassUsed => 24,
            BuiltinLongMetric::PermGenCapacity => 25,
            BuiltinLongMetric::PermGenUsed => 26,
            BuiltinLongMetric::Collector0Invocations => 27,
            BuiltinLongMetric::Collector0Time => 28,
            BuiltinLongMetric::Collector1Invocations => 29,
            BuiltinLongMetric::Collector1Time => 30,
            BuiltinLongMetric::Collector2Invocations => 31,
            BuiltinLongMetric::Collector2Time => 32,
            BuiltinLongMetric::ThreadsLive => 33,
            BuiltinLongMetric::ThreadsDaemon => 34,
            BuiltinLongMetric::ThreadsPeak => 35,
            BuiltinLongMetric::CodeCacheUsed => 36,
            BuiltinLongMetric::CodeCacheCapacity => 37,
            BuiltinLongMetric::SafepointTime => 38,
            BuiltinLongMetric::SafepointSyncTime => 39,
            BuiltinLongMetric::ApplicationTime => 40,
            BuiltinLongMetric::Safepoints => 41,
        }
    }

    /// The keys that stand for the counter, the preferred one first.
    pub open spec fn candidates(self) -> Seq<CandidateView> {
        match self {
            BuiltinLongMetric::LoadedClasses => seq![
                openjdk_view("java.cls.loadedClasses"@),
                vendor_alias_view("sun.cls.loadedClasses"@),
            ],
            BuiltinLongMetric::SharedLoadedClasses => seq![openjdk_view("java.cls.sharedLoadedClasses"@)],
            BuiltinLongMetric::LoadedBytes => seq![openjdk_view("sun.cls.loadedBytes"@)],
            BuiltinLongMetric::SharedLoadedBytes => seq![openjdk_view("sun.cls.sharedLoadedBytes"@)],
            BuiltinLongMetric::UnloadedClasses => seq![
                openjdk_view("java.cls.unloadedClasses"@),
                vendor_alias_view("sun.cls.unloadedClasses"@),
            ],
            BuiltinLongMetric::SharedUnloadedClasses => seq![openjdk_view("java.cls.sharedUnloadedClasses"@)],
            BuiltinLongMetric::UnloadedBytes => seq![openjdk_view("sun.cls.unloadedBytes"@)],
            BuiltinLongMetric::SharedUnloadedBytes => seq![openjdk_view("sun.cls.sharedUnloadedBytes"@)],
            BuiltinLongMetric::ClassLoadTime => seq![openjdk_view("sun.cls.time"@)],
            BuiltinLongMetric::Compilations => seq![
                openjdk_view("sun.ci.totalCompiles"@),
                vendor_alias_view("sun.ci.totalCompilations"@),
            ],
            BuiltinLongMetric::CompilerBailouts => seq![openjdk_view("sun.ci.totalBailouts"@)],
            BuiltinLongMetric::CompilerInvalidations => seq![
                openjdk_view("sun.ci.totalInvalidates"@),
                vendor_alias_view("sun.ci.totalInvalidations"@),
            ],
            BuiltinLongMetric::CompilationTime => seq![
                openjdk_view("java.ci.totalTime"@),
                vendor_alias_view("sun.ci.totalTime"@),
            ],
            BuiltinLongMetric::Survivor0Capacity => seq![openjdk_view("sun.gc.generation.0.space.1.capacity"@)],
            BuiltinLongMetric::Survivor1Capacity => seq![openjdk_view("sun.gc.generation.0.space.2.capacity"@)],
            BuiltinLongMetric::Survivor0Used => seq![openjdk_view("sun.gc.generation.0.space.1.used"@)],
            BuiltinLongMetric::Survivor1Used => seq![openjdk_view("sun.gc.generation.0.space.2.used"@)],
            BuiltinLongMetric::EdenCapacity => seq![openjdk_view("sun.gc.generation.0.space.0.capacity"@)],
            BuiltinLongMetric::EdenUsed => seq![openjdk_view("sun.gc.generation.0.space.0.used"@)],
            BuiltinLongMetric::OldCapacity => seq![openjdk_view("sun.gc.generation.1.space.0.capacity"@)],
            BuiltinLongMetric::OldUsed => seq![openjdk_view("sun.gc.generation.1.space.0.used"@)],
            BuiltinLongMetric::MetaspaceCapacity => seq![openjdk_view("sun.gc.metaspace.capacity"@)],
            BuiltinLongMetric::MetaspaceUsed => seq![openjdk_view("sun.gc.metaspace.used"@)],
            BuiltinLongMetric::CompressedClassCapacity => seq![openjdk_view("sun.gc.compressedclassspace.capacity"@)],
            BuiltinLongMetric::CompressedClassUsed => seq![openjdk_view("sun.gc.compressedclassspace.used"@)],
            BuiltinLongMetric::PermGenCapacity => seq![legacy_hotspot_view("sun.gc.generation.2.space.0.capacity"@)],
            BuiltinLongMetric::PermGenUsed => seq![legacy_hotspot_view("sun.gc.generation.2.space.0.used"@)],
            BuiltinLongMetric::Collector0Invocations => seq![openjdk_view("sun.gc.collector.0.invocations"@)],
            BuiltinLongMetric::Collector0Time => seq![openjdk_view("sun.gc.collector.0.time"@)],
            BuiltinLongMetric::Collector1Invocations => seq![openjdk_view("sun.gc.collector.1.invocations"@)],
            BuiltinLongMetric::Collector1Time => seq![openjdk_view("sun.gc.collector.1.time"@)],
            BuiltinLongMetric::Collector2Invocations => seq![openjdk_view("sun.gc.collector.2.invocations"@)],
            BuiltinLongMetric::Collector2Time => seq![openjdk_view("sun.gc.collector.2.time"@)],
            BuiltinLongMetric::ThreadsLive => seq![openjdk_view("java.threads.live"@)],
            BuiltinLongMetric::ThreadsDaemon => seq![openjdk_view("java.threads.daemon"@)],
            BuiltinLongMetric::ThreadsPeak => seq![
                openjdk_view("java.threads.livePeak"@),
                vendor_alias_view("java.threads.peak"@),
                vendor_alias_view("java.threads.peakCount"@),
            ],
            BuiltinLongMetric::CodeCacheUsed => seq![vendor_alias_view("sun.ci.codeCache.used"@)],
            BuiltinLongMetric::CodeCacheCapacity => seq![vendor_alias_view("sun.ci.codeCache.capacity"@)],
            BuiltinLongMetric::SafepointTime => seq![openjdk_view("sun.rt.safepointTime"@)],
            BuiltinLongMetric::SafepointSyncTime => seq![openjdk_view("sun.rt.safepointSyncTime"@)],
            BuiltinLongMetric::ApplicationTime => seq![openjdk_view("sun.rt.applicationTime"@)],
            BuiltinLongMetric::Safepoints => seq![openjdk_view("sun.rt.safepoints"@)],
        }
    }
}

/// Each counter is listed once in display order, at its own position.
pub proof fn lemma_display_order()
    ensures
        forall|metric: BuiltinLongMetric|
            0 <= #[trigger] metric.ordinal() < BUILTIN_LONG_METRIC_COUNT,
        forall|metric: BuiltinLongMetric|
            BuiltinLongMetric::ALL@[#[trigger] metric.ordinal()] == metric,
        forall|i: int|
            0 <= i < BUILTIN_LONG_METRIC_COUNT ==> (#[trigger] BuiltinLongMetric::ALL@[i]).ordinal()
                == i,
{
}

/// Origin of a resolved internal HotSpot key.
#[derive(Debug, Clone, Copy, PartialEq, Eq, Structural)]
#[non_exhaustive]
pub enum MetricKeySource {
    /// Canonical OpenJDK HotSpot PerfData key in supported releases.
    OpenJdk,
    /// Semantically equivalent non-canonical/vendor-style alias.
    VendorAlias,
    /// Pre-Metaspace HotSpot layout (for example, JDK 7 PermGen).
    LegacyHotSpot,
}

/// Resolution result for one logical built-in metric.
#[derive(Debug, Clone, Copy, PartialEq, Eq)]
#[non_exhaustive]
pub struct MetricResolution {
    /// Logical counter requested by the caller.
    pub metric: BuiltinLongMetric,
    /// Actual internal key, or `None` when this JVM does not publish it.
    pub key: Option<&'static str>,
    /// Origin of `key`, or `None` when unavailable.
    pub source: Option<MetricKeySource>,
}

/// A resolution with its key as a sequence of characters.
pub struct ResolutionView {
    pub metric: BuiltinLongMetric,
    pub chosen: Option<CandidateView>,
}

impl MetricResolution {
    /// Whether this is the resolution of a metric to the chosen key, or to none.
    pub open spec fn shows(self, resolution: ResolutionView) -> bool {
        &&& self.metric == resolution.metric
        &&& match resolution.chosen {
            Some(candidate) => {
                &&& self.key is Some
                &&& self.key->0@ == candidate.key
                &&& self.source == Some(candidate.source)
            },
            None => self.key is None && self.source is None,
        }
    }

    /// Returns whether the target JVM publishes this metric.
    pub fn is_available(self) -> (available: bool)
        ensures
            available == (self.key is Some),
    {
        self.key.is_some()
    }
}

/// A key that may stand for a counter.
#[derive(Debug, Clone, Copy)]
pub struct MetricCandidate {
    /// The key.
    pub key: &'static str,
    /// Where the key comes from.
    pub source: MetricKeySource,
}

/// A key that may stand for a counter, as a sequence of characters.
pub struct CandidateView {
    pub key: Seq<char>,
    pub source: MetricKeySource,
}

impl View for MetricCandidate {
    type V = CandidateView;

    open spec fn view(&self) -> CandidateView {
        CandidateView { key: self.key@, source: self.source }
    }
}

/// A canonical key.
pub open spec fn openjdk_view(key: Seq<char>) -> CandidateView {
    CandidateView { key, source: MetricKeySource::OpenJdk }
}

/// An alias.
pub open spec fn vendor_alias_view(key: Seq<char>) -> CandidateView {
    CandidateView { key, source: MetricKeySource::VendorAlias }
}

/// A key of the pre-Metaspace layout.
pub open spec fn legacy_hotspot_view(key: Seq<char>) -> CandidateView {
    CandidateView { key, source: MetricKeySource::LegacyHotSpot }
}

/// A canonical key.
pub fn openjdk(key: &'static str) -> (candidate: MetricCandidate)
    ensures
        candidate@ == openjdk_view(key@),
{
    MetricCandidate { key, source: MetricKeySource::OpenJdk }
}

/// An alias.
pub fn vendor_alias(key: &'static str) -> (candidate: MetricCandidate)
    ensures
        candidate@ == vendor_alias_view(key@),
{
    MetricCandidate { key, source: MetricKeySource::VendorAlias }
}

/// A key of the pre-Metaspace layout.
pub fn legacy_hotspot(key: &'static str) -> (candidate: MetricCandidate)
    ensures
        candidate@ == legacy_hotspot_view(key@),
{
    MetricCandidate { key, source: MetricKeySource::LegacyHotSpot }
}

/// Checks that the display order lists each counter at its own position.
pub fn builtin_metric_order_is_complete() -> (complete: bool)
    ensures
        complete,
        forall|i: int|
            0 <= i < BUILTIN_LONG_METRIC_COUNT ==> (#[trigger] BuiltinLongMetric::ALL@[i]).ordinal()
                == i,
{
    let mut index: usize = 0;
    while index < BUILTIN_LONG_METRIC_COUNT
        invariant
            index <= BUILTIN_LONG_METRIC_COUNT,
            forall|i: int|
                0 <= i < index ==> (#[trigger] BuiltinLongMetric::ALL@[i]).ordinal() == i,
        decreases BUILTIN_LONG_METRIC_COUNT - index,
    {
        if BuiltinLongMetric::ALL[index].position() != index {
            return false;
        }
        index += 1;
    }
    true
}

/// The keys that stand for a counter, the preferred one first.
pub fn builtin_long_candidates(metric: BuiltinLongMetric) -> (candidates: Vec<MetricCandidate>)
    ensures
        candidates@.map_values(|candidate: MetricCandidate| candidate@) == metric.candidates(),
{
    let candidates: Vec<MetricCandidate> = match metric {
        BuiltinLongMetric::LoadedClasses => vec![
            openjdk("java.cls.loadedClasses"),
            vendor_alias("sun.cls.loadedClasses"),
        ],
        BuiltinLongMetric::SharedLoadedClasses => vec![openjdk("java.cls.sharedLoadedClasses")],
        BuiltinLongMetric::LoadedBytes => vec![openjdk("sun.cls.loadedBytes")],
        BuiltinLongMetric::SharedLoadedBytes => vec![openjdk("sun.cls.sharedLoadedBytes")],
        BuiltinLongMetric::UnloadedClasses => vec![
            openjdk("java.cls.unloadedClasses"),
            vendor_alias("sun.cls.unloadedClasses"),
        ],
        BuiltinLongMetric::SharedUnloadedClasses => vec![openjdk("java.cls.sharedUnloadedClasses")],
        BuiltinLongMetric::UnloadedBytes => vec![openjdk("sun.cls.unloadedBytes")],
        BuiltinLongMetric::SharedUnloadedBytes => vec![openjdk("sun.cls.sharedUnloadedBytes")],
        BuiltinLongMetric::ClassLoadTime => vec![openjdk("sun.cls.time")],
        BuiltinLongMetric::Compilations => vec![
            openjdk("sun.ci.totalCompiles"),
            vendor_alias("sun.ci.totalCompilations"),
        ],
        BuiltinLongMetric::CompilerBailouts => vec![openjdk("sun.ci.totalBailouts")],
        BuiltinLongMetric::CompilerInvalidations => vec![
            openjdk("sun.ci.totalInvalidates"),
            vendor_alias("sun.ci.totalInvalidations"),
        ],
        BuiltinLongMetric::CompilationTime => vec![
            openjdk("java.ci.totalTime"),
            vendor_alias("sun.ci.totalTime"),
        ],
        BuiltinLongMetric::Survivor0Capacity => vec![openjdk("sun.gc.generation.0.space.1.capacity")],
        BuiltinLongMetric::Survivor1Capacity => vec![openjdk("sun.gc.generation.0.space.2.capacity")],
        BuiltinLongMetric::Survivor0Used => vec![openjdk("sun.gc.generation.0.space.1.used")],
        BuiltinLongMetric::Survivor1Used => vec![openjdk("sun.gc.generation.0.space.2.used")],
        BuiltinLongMetric::EdenCapacity => vec![openjdk("sun.gc.generation.0.space.0.capacity")],
        BuiltinLongMetric::EdenUsed => vec![openjdk("sun.gc.generation.0.space.0.used")],
        BuiltinLongMetric::OldCapacity => vec![openjdk("sun.gc.generation.1.space.0.capacity")],
        BuiltinLongMetric::OldUsed => vec![openjdk("sun.gc.generation.1.space.0.used")],
        BuiltinLongMetric::MetaspaceCapacity => vec![openjdk("sun.gc.metaspace.capacity")],
        BuiltinLongMetric::MetaspaceUsed => vec![openjdk("sun.gc.metaspace.used")],
        BuiltinLongMetric::CompressedClassCapacity => vec![openjdk("sun.gc.compressedclassspace.capacity")],
        BuiltinLongMetric::CompressedClassUsed => vec![openjdk("sun.gc.compressedclassspace.used")],
        BuiltinLongMetric::PermGenCapacity => vec![legacy_hotspot("sun.gc.generation.2.space.0.capacity")],
        BuiltinLongMetric::PermGenUsed => vec![legacy_hotspot("sun.gc.generation.2.space.0.used")],
        BuiltinLongMetric::Collector0Invocations => vec![openjdk("sun.gc.collector.0.invocations")],
        BuiltinLongMetric::Collector0Time => vec![openjdk("sun.gc.collector.0.time")],
        BuiltinLongMetric::Collector1Invocations => vec![openjdk("sun.gc.collector.1.invocations")],
        BuiltinLongMetric::Collector1Time => vec![openjdk("sun.gc.collector.1.time")],
        BuiltinLongMetric::Collector2Invocations => vec![openjdk("sun.gc.collector.2.invocations")],
        BuiltinLongMetric::Collector2Time => vec![openjdk("sun.gc.collector.2.time")],
        BuiltinLongMetric::ThreadsLive => vec![openjdk("java.threads.live")],
        BuiltinLongMetric::ThreadsDaemon => vec![openjdk("java.threads.daemon")],
        BuiltinLongMetric::ThreadsPeak => vec![
            openjdk("java.threads.livePeak"),
            vendor_alias("java.threads.peak"),
            vendor_alias("java.threads.peakCount"),
        ],
        BuiltinLongMetric::CodeCacheUsed => vec![vendor_alias("sun.ci.codeCache.used")],
        BuiltinLongMetric::CodeCacheCapacity => vec![vendor_alias("sun.ci.codeCache.capacity")],
        BuiltinLongMetric::SafepointTime => vec![openjdk("sun.rt.safepointTime")],
        BuiltinLongMetric::SafepointSyncTime => vec![openjdk("sun.rt.safepointSyncTime")],
        BuiltinLongMetric::ApplicationTime => vec![openjdk("sun.rt.applicationTime")],
        BuiltinLongMetric::Safepoints => vec![openjdk("sun.rt.safepoints")],
    };
    assert(candidates@.map_values(|candidate: MetricCandidate| candidate@)
        =~= metric.candidates());
    candidates
}

/// The code of the character at a position, or zero behind the end.
spec fn char_code(text: Seq<char>, position: int) -> int {
    if position < text.len() {
        text[position] as int
    } else {
        0
    }
}

/// A number that tells the keys of the logical counters apart.
spec fn key_code(key: Seq<char>) -> int {
    1 * key.len() + char_code(key, 13) + 2 * char_code(key, 17) + 6 * char_code(key, 18) + 7 * char_code(key, 26)
}

/// The counter that a key stands for, as four times its ordinal, plus the position of the key
/// among its candidates.
spec fn slot_of(code: int) -> int {
    if code == 1007 {
        0
    } else if code == 1041 {
        1
    } else if code == 1630 {
        4
    } else if code == 1011 {
        8
    } else if code == 931 {
        12
    } else if code == 903 {
        16
    } else if code == 921 {
        17
    } else if code == 1818 {
        20
    } else if code == 1059 {
        24
    } else if code == 1736 {
        28
    } else if code == 12 {
        32
    } else if code == 953 {
        36
    } else if code == 933 {
        37
    } else if code == 1047 {
        40
    } else if code == 943 {
        44
    } else if code == 945 {
        45
    } else if code == 101 {
        48
    } else if code == 121 {
        49
    } else if code == 875 {
        52
    } else if code == 882 {
        56
    } else if code == 871 {
        60
    } else if code == 878 {
        64
    } else if code == 868 {
        68
    } else if code == 864 {
        72
    } else if code == 874 {
        76
    } else if code == 870 {
        80
    } else if code == 902 {
        84
    } else if code == 1042 {
        88
    } else if code == 1704 {
        92
    } else if code == 1700 {
        96
    } else if code == 880 {
        100
    } else if code == 876 {
        104
    } else if code == 1253 {
        108
    } else if code == 511 {
        112
    } else if code == 1255 {
        116
    } else if code == 513 {
        120
    } else if code == 1257 {
        124
    } else if code == 515 {
        128
    } else if code == 125 {
        132
    } else if code == 1001 {
        136
    } else if code == 895 {
        140
    } else if code == 129 {
        141
    } else if code == 934 {
        142
    } else if code == 1044 {
        144
    } else if code == 904 {
        148
    } else if code == 989 {
        152
    } else if code == 1031 {
        156
    } else if code == 843 {
        160
    } else if code == 122 {
        164
    } else {
        -1
    }
}

proof fn lemma_slot(metric: BuiltinLongMetric, position: int)
    requires
        0 <= position < metric.candidates().len(),
    ensures
        metric.candidates().len() <= 3,
        slot_of(key_code(metric.candidates()[position].key)) == 4 * metric.ordinal() + position,
{
    match metric {
        BuiltinLongMetric::LoadedClasses => {
            reveal_strlit("java.cls.loadedClasses");
            assert(key_code("java.cls.loadedClasses"@) == 1007);
            reveal_strlit("sun.cls.loadedClasses");
            assert(key_code("sun.cls.loadedClasses"@) == 1041);
        },
        BuiltinLongMetric::SharedLoadedClasses => {
            reveal_strlit("java.cls.sharedLoadedClasses");
            assert(key_code("java.cls.sharedLoadedClasses"@) == 1630);
        },
        BuiltinLongMetric::LoadedBytes => {
            reveal_strlit("sun.cls.loadedBytes");
            assert(key_code("sun.cls.loadedBytes"@) == 1011);
        },
        BuiltinLongMetric::SharedLoadedBytes => {
            reveal_strlit("sun.cls.sharedLoadedBytes");
            assert(key_code("sun.cls.sharedLoadedBytes"@) == 931);
        },
        BuiltinLongMetric::UnloadedClasses => {
            reveal_strlit("java.cls.unloadedClasses");
            assert(key_code("java.cls.unloadedClasses"@) == 903);
            reveal_strlit("sun.cls.unloadedClasses");
            assert(key_code("sun.cls.unloadedClasses"@) == 921);
        },
        BuiltinLongMetric::SharedUnloadedClasses => {
            reveal_strlit("java.cls.sharedUnloadedClasses");
            assert(key_code("java.cls.sharedUnloadedClasses"@) == 1818);
        },
        BuiltinLongMetric::UnloadedBytes => {
            reveal_strlit("sun.cls.unloadedBytes");
            assert(key_code("sun.cls.unloadedBytes"@) == 1059);
        },
        BuiltinLongMetric::SharedUnloadedBytes => {
            reveal_strlit("sun.cls.sharedUnloadedBytes");
            assert(key_code("sun.cls.sharedUnloadedBytes"@) == 1736);
        },
        BuiltinLongMetric::ClassLoadTime => {
            reveal_strlit("sun.cls.time");
            assert(key_code("sun.cls.time"@) == 12);
        },
        BuiltinLongMetric::Compilations => {
            reveal_strlit("sun.ci.totalCompiles");
            assert(key_code("sun.ci.totalCompiles"@) == 953);
            reveal_strlit("sun.ci.totalCompilations");
            assert(key_code("sun.ci.totalCompilations"@) == 933);
        },
        BuiltinLongMetric::CompilerBailouts => {
            reveal_strlit("sun.ci.totalBailouts");
            assert(key_code("sun.ci.totalBailouts"@) == 1047);
        },
        BuiltinLongMetric::CompilerInvalidations => {
            reveal_strlit("sun.ci.totalInvalidates");
            assert(key_code("sun.ci.totalInvalidates"@) == 943);
            reveal_strlit("sun.ci.totalInvalidations");
            assert(key_code("sun.ci.totalInvalidations"@) == 945);
        },
        BuiltinLongMetric::CompilationTime => {
            reveal_strlit("java.ci.totalTime");
            assert(key_code("java.ci.totalTime"@) == 101);
            reveal_strlit("sun.ci.totalTime");
            assert(key_code("sun.ci.totalTime"@) == 121);
        },
        BuiltinLongMetric::Survivor0Capacity => {
            reveal_strlit("sun.gc.generation.0.space.1.capacity");
            assert(key_code("sun.gc.generation.0.space.1.capacity"@) == 875);
        },
        BuiltinLongMetric::Survivor1Capacity => {
            reveal_strlit("sun.gc.generation.0.space.2.capacity");
            assert(key_code("sun.gc.generation.0.space.2.capacity"@) == 882);
        },
        BuiltinLongMetric::Survivor0Used => {
            reveal_strlit("sun.gc.generation.0.space.1.used");
            assert(key_code("sun.gc.generation.0.space.1.used"@) == 871);
        },
        BuiltinLongMetric::Survivor1Used => {
            reveal_strlit("sun.gc.generation.0.space.2.used");
            assert(key_code("sun.gc.generation.0.space.2.used"@) == 878);
        },
        BuiltinLongMetric::EdenCapacity => {
            reveal_strlit("sun.gc.generation.0.space.0.capacity");
            assert(key_code("sun.gc.generation.0.space.0.capacity"@) == 868);
        },
        BuiltinLongMetric::EdenUsed => {
            reveal_strlit("sun.gc.generation.0.space.0.used");
            assert(key_code("sun.gc.generation.0.space.0.used"@) == 864);
        },
        BuiltinLongMetric::OldCapacity => {
            reveal_strlit("sun.gc.generation.1.space.0.capacity");
            assert(key_code("sun.gc.generation.1.space.0.capacity"@) == 874);
        },
        BuiltinLongMetric::OldUsed => {
            reveal_strlit("sun.gc.generation.1.space.0.used");
            assert(key_code("sun.gc.generation.1.space.0.used"@) == 870);
        },
        BuiltinLongMetric::MetaspaceCapacity => {
            reveal_strlit("sun.gc.metaspace.capacity");
            assert(key_code("sun.gc.metaspace.capacity"@) == 902);
        },
        BuiltinLongMetric::MetaspaceUsed => {
            reveal_strlit("sun.gc.metaspace.used");
            assert(key_code("sun.gc.metaspace.used"@) == 1042);
        },
        BuiltinLongMetric::CompressedClassCapacity => {
            reveal_strlit("sun.gc.compressedclassspace.capacity");
            assert(key_code("sun.gc.compressedclassspace.capacity"@) == 1704);
        },
        BuiltinLongMetric::CompressedClassUsed => {
            reveal_strlit("sun.gc.compressedclassspace.used");
            assert(key_code("sun.gc.compressedclassspace.used"@) == 1700);
        },
        BuiltinLongMetric::PermGenCapacity => {
            reveal_strlit("sun.gc.generation.2.space.0.capacity");
            assert(key_code("sun.gc.generation.2.space.0.capacity"@) == 880);
        },
        BuiltinLongMetric::PermGenUsed => {
            reveal_strlit("sun.gc.generation.2.space.0.used");
            assert(key_code("sun.gc.generation.2.space.0.used"@) == 876);
        },
        BuiltinLongMetric::Collector0Invocations => {
            reveal_strlit("sun.gc.collector.0.invocations");
            assert(key_code("sun.gc.collector.0.invocations"@) == 1253);
        },
        BuiltinLongMetric::Collector0Time => {
            reveal_strlit("sun.gc.collector.0.time");
            assert(key_code("sun.gc.collector.0.time"@) == 511);
        },
        BuiltinLongMetric::Collector1Invocations => {
            reveal_strlit("sun.gc.collector.1.invocations");
            assert(key_code("sun.gc.collector.1.invocations"@) == 1255);
        },
        BuiltinLongMetric::Collector1Time => {
            reveal_strlit("sun.gc.collector.1.time");
            assert(key_code("sun.gc.collector.1.time"@) == 513);
        },
        BuiltinLongMetric::Collector2Invocations => {
            reveal_strlit("sun.gc.collector.2.invocations");
            assert(key_code("sun.gc.collector.2.invocations"@) == 1257);
        },
        BuiltinLongMetric::Collector2Time => {
            reveal_strlit("sun.gc.collector.2.time");
            assert(key_code("sun.gc.collector.2.time"@) == 515);
        },
        BuiltinLongMetric::ThreadsLive => {
            reveal_strlit("java.threads.live");
            assert(key_code("java.threads.live"@) == 125);
        },
        BuiltinLongMetric::ThreadsDaemon => {
            reveal_strlit("java.threads.daemon");
            assert(key_code("java.threads.daemon"@) == 1001);
        },
        BuiltinLongMetric::ThreadsPeak => {
            reveal_strlit("java.threads.livePeak");
            assert(key_code("java.threads.livePeak"@) == 895);
            reveal_strlit("java.threads.peak");
            assert(key_code("java.threads.peak"@) == 129);
            reveal_strlit("java.threads.peakCount");
            assert(key_code("java.threads.peakCount"@) == 934);
        },
        BuiltinLongMetric::CodeCacheUsed => {
            reveal_strlit("sun.ci.codeCache.used");
            assert(key_code("sun.ci.codeCache.used"@) == 1044);
        },
        BuiltinLongMetric::CodeCacheCapacity => {
            reveal_strlit("sun.ci.codeCache.capacity");
            assert(key_code("sun.ci.codeCache.capacity"@) == 904);
        },
        BuiltinLongMetric::SafepointTime => {
            reveal_strlit("sun.rt.safepointTime");
            assert(key_code("sun.rt.safepointTime"@) == 989);
        },
        BuiltinLongMetric::SafepointSyncTime => {
            reveal_strlit("sun.rt.safepointSyncTime");
            assert(key_code("sun.rt.safepointSyncTime"@) == 1031);
        },
        BuiltinLongMetric::ApplicationTime => {
            reveal_strlit("sun.rt.applicationTime");
            assert(key_code("sun.rt.applicationTime"@) == 843);
        },
        BuiltinLongMetric::Safepoints => {
            reveal_strlit("sun.rt.safepoints");
            assert(key_code("sun.rt.safepoints"@) == 122);
        },
    }
}

/// No key stands for two counters, nor twice for one.
pub proof fn law_keys_are_distinct(
    first: BuiltinLongMetric,
    second: BuiltinLongMetric,
    i: int,
    j: int,
)
    requires
        0 <= i < first.candidates().len(),
        0 <= j < second.candidates().len(),
        first.candidates()[i].key == second.candidates()[j].key,
    ensures
        first == second,
        i == j,
{
    lemma_slot(first, i);
    lemma_slot(second, j);
    lemma_display_order();
    assert(BuiltinLongMetric::ALL@[first.ordinal()] == first);
    assert(BuiltinLongMetric::ALL@[second.ordinal()] == second);
}

/// Every counter has a key. A canonical key comes first, so there is one at most, and just the
/// counters of the permanent generation have a key of the layout that came before Metaspace.
pub proof fn law_sources_of_keys(metric: BuiltinLongMetric)
    ensures
        metric.candidates().len() > 0,
        forall|i: int|
            0 <= i < metric.candidates().len() && (#[trigger] metric.candidates()[i]).source
                == MetricKeySource::OpenJdk ==> i == 0,
        (exists|i: int|
            0 <= i < metric.candidates().len() && (#[trigger] metric.candidates()[i]).source
                == MetricKeySource::LegacyHotSpot) <==> (metric
            == BuiltinLongMetric::PermGenCapacity || metric == BuiltinLongMetric::PermGenUsed),
{
    assert(metric.candidates()[0].source == MetricKeySource::LegacyHotSpot <==> (metric
        == BuiltinLongMetric::PermGenCapacity || metric == BuiltinLongMetric::PermGenUsed));
}

/// The entry of the first candidate that the index holds as a 64-bit counter.
pub open spec fn first_long(candidates: Seq<CandidateView>, index: IndexView) -> Option<EntryMeta>
    decreases candidates.len(),
{
    if candidates.len() == 0 {
        None
    } else {
        match index.get(candidates[0].key) {
            Some(meta) => if meta.is_long() {
                Some(meta)
            } else {
                first_long(candidates.skip(1), index)
            },
            None => first_long(candidates.skip(1), index),
        }
    }
}

/// Where the index keeps a logical counter.
pub open spec fn resolved_offset(metric: BuiltinLongMetric, index: IndexView) -> Option<usize> {
    match first_long(metric.candidates(), index) {
        Some(meta) => Some(meta.data_offset),
        None => None,
    }
}

/// The bindings of the logical counters after an index was seen: what was bound stays as it was,
/// the rest is resolved.
pub open spec fn rebound(offsets: Seq<Option<usize>>, index: IndexView) -> Seq<Option<usize>> {
    Seq::new(
        BUILTIN_LONG_METRIC_COUNT as nat,
        |i: int|
            match offsets[i] {
                Some(offset) => Some(offset),
                None => resolved_offset(BuiltinLongMetric::ALL@[i], index),
            },
    )
}

/// Finds where the index keeps a logical counter.
pub fn resolve_offset(metric: BuiltinLongMetric, index: &PerfIndex) -> (offset: Option<usize>)
    ensures
        offset == resolved_offset(metric, index@),
{
    let candidates: Vec<MetricCandidate> = builtin_long_candidates(metric);
    let ghost keys = metric.candidates();
    let mut i: usize = 0;
    assert(keys.skip(0) =~= keys);
    while i < candidates.len()
        invariant
            i <= candidates@.len(),
            keys == metric.candidates(),
            keys == candidates@.map_values(|candidate: MetricCandidate| candidate@),
            first_long(keys, index@) == first_long(keys.skip(i as int), index@),
        decreases candidates@.len() - i,
    {
        proof {
            assert(keys[i as int] == candidates@[i as int]@);
            assert(keys.skip(i as int)[0] == keys[i as int]);
            assert(keys.skip(i as int).skip(1) =~= keys.skip(i + 1));
        }
        match index.get(candidates[i].key) {
            Some(meta) => if meta.holds_long() {
                return Some(meta.data_offset);
            },
            None => {},
        }
        i += 1;
    }
    None
}

/// Binds the logical counters that the index holds and that are not bound yet.
///
/// A selected key stays for good. Switching a cumulative counter to a later, higher-priority alias
/// could otherwise create a non-monotonic jump in long-running collection.
pub fn update_builtin_offsets(
    offsets: &mut [Option<usize>; 42],
    index: &PerfIndex,
)
    ensures
        final(offsets)@ == rebound(old(offsets)@, index@),
{
    let ghost before = offsets@;
    let mut i: usize = 0;
    while i < BUILTIN_LONG_METRIC_COUNT
        invariant
            i <= BUILTIN_LONG_METRIC_COUNT,
            offsets@.len() == BUILTIN_LONG_METRIC_COUNT,
            before.len() == BUILTIN_LONG_METRIC_COUNT,
            forall|j: int|
                0 <= j < i ==> #[trigger] offsets@[j] == rebound(before, index@)[j],
            forall|j: int|
                i <= j < BUILTIN_LONG_METRIC_COUNT ==> #[trigger] offsets@[j] == before[j],
        decreases BUILTIN_LONG_METRIC_COUNT - i,
    {
        if offsets[i].is_none() {
            let resolved: Option<usize> = resolve_offset(BuiltinLongMetric::ALL[i], index);
            offsets[i] = resolved;
        }
        i += 1;
    }
    assert(offsets@ =~= rebound(before, index@));
}

/// The key that publishes the timer's frequency.
pub open spec fn frequency_key() -> Seq<char> {
    "sun.os.hrt.frequency"@
}

/// The timer's frequency in an entry of perfdata, or zero where there is none that fits.
pub open spec fn frequency_value(
    bytes: Seq<u8>,
    meta: Option<EntryMeta>,
    is_little_endian: bool,
) -> usize {
    match meta {
        Some(meta) => if meta.is_long() {
            match crate::perfdata::long_at(bytes, meta.data_offset as int, is_little_endian) {
                Some(frequency) => if 0 <= frequency <= usize::MAX {
                    frequency as usize
                } else {
                    0
                },
                None => 0,
            }
        } else {
            0
        },
        None => 0,
    }
}

/// Reads the timer's frequency from an entry.
pub fn read_frequency(memory: &PerfMemory, meta: Option<EntryMeta>, is_little_endian: bool) -> (frequency: usize)
    ensures
        frequency == frequency_value(memory@, meta, is_little_endian),
{
    match meta {
        Some(meta) => if meta.holds_long() {
            match memory.read_i64(meta.data_offset, is_little_endian) {
                Some(frequency) => if frequency >= 0 && frequency as u64 <= usize::MAX as u64 {
                    frequency as usize
                } else {
                    0
                },
                None => 0,
            }
        } else {
            0
        },
        None => 0,
    }
}

/// Reads the timer's frequency, or zero where the index holds none.
pub fn timer_frequency_from_index(
    memory: &PerfMemory,
    index: &PerfIndex,
    is_little_endian: bool,
) -> (frequency: usize)
    ensures
        frequency == frequency_value(memory@, index@.get(frequency_key()), is_little_endian),
{
    read_frequency(memory, index.get("sun.os.hrt.frequency"), is_little_endian)
}

} // verus!
