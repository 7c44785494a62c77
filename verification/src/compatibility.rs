//! A report on the PerfData layout of one JVM.

use vstd::prelude::*;
use vstd::string::*;

use crate::metrics::{BuiltinLongMetric, MetricResolution, BUILTIN_LONG_METRIC_COUNT};
use crate::monitor::{JvmMonitor, MonitorView};

verus! {

/// Low-frequency diagnostic report describing the target JVM's PerfData layout.
///
/// Collector ordinals are deliberately not renamed to "young/full/concurrent": their meanings
/// differ between G1, ZGC, Shenandoah, CMS, and JDK versions.
#[derive(Debug, Clone, PartialEq, Eq)]
#[non_exhaustive]
pub struct JvmCompatibility {
    /// `java.property.java.version`, when published.
    pub java_version: Option<String>,
    /// `java.property.java.vm.version`, when published.
    pub vm_version: Option<String>,
    /// `java.property.java.vm.name`, when published.
    pub vm_name: Option<String>,
    /// `sun.gc.policy.name`, when the collector publishes it.
    pub gc_policy: Option<String>,
    /// High-resolution timer frequency used to convert counter ticks.
    pub timer_frequency_hz: Option<usize>,
    /// `sun.gc.collector.N.name` for collector ordinals 0 through 2.
    pub collector_names: [Option<String>; 3],
    /// `sun.gc.generation.N.name` for generation ordinals 0 through 2.
    pub generation_names: [Option<String>; 3],
    /// `sun.gc.generation.N.space.M.name` for ordinals 0 through 2.
    pub space_names: [[Option<String>; 3]; 3],
    /// Resolution of every logical 64-bit metric.
    pub metrics: Vec<MetricResolution>,
}

/// A text that may be missing, as a sequence of characters.
pub open spec fn text_view(text: Option<String>) -> Option<Seq<char>> {
    match text {
        Some(text) => Some(text@),
        None => None,
    }
}

/// Texts that may be missing, as sequences of characters.
pub open spec fn text_views(texts: Seq<Option<String>>) -> Seq<Option<Seq<char>>> {
    texts.map_values(|text: Option<String>| text_view(text))
}

impl MonitorView {
    /// The names of the three collectors.
    pub open spec fn collector_names(self) -> Seq<Option<Seq<char>>> {
        seq![
            self.string("sun.gc.collector.0.name"@),
            self.string("sun.gc.collector.1.name"@),
            self.string("sun.gc.collector.2.name"@),
        ]
    }

    /// The names of the three generations.
    pub open spec fn generation_names(self) -> Seq<Option<Seq<char>>> {
        seq![
            self.string("sun.gc.generation.0.name"@),
            self.string("sun.gc.generation.1.name"@),
            self.string("sun.gc.generation.2.name"@),
        ]
    }

    /// The names of the three spaces of a generation.
    pub open spec fn space_names(self, generation: int) -> Seq<Option<Seq<char>>> {
        if generation == 0 {
            seq![
                self.string("sun.gc.generation.0.space.0.name"@),
                self.string("sun.gc.generation.0.space.1.name"@),
                self.string("sun.gc.generation.0.space.2.name"@),
            ]
        } else if generation == 1 {
            seq![
                self.string("sun.gc.generation.1.space.0.name"@),
                self.string("sun.gc.generation.1.space.1.name"@),
                self.string("sun.gc.generation.1.space.2.name"@),
            ]
        } else {
            seq![
                self.string("sun.gc.generation.2.space.0.name"@),
                self.string("sun.gc.generation.2.space.1.name"@),
                self.string("sun.gc.generation.2.space.2.name"@),
            ]
        }
    }
}

impl JvmCompatibility {
    /// Whether the resolutions are those of all logical counters, in display order.
    pub open spec fn shows_metrics(self, monitor: MonitorView) -> bool {
        &&& self.metrics@.len() == BUILTIN_LONG_METRIC_COUNT
        &&& forall|i: int|
            0 <= i < BUILTIN_LONG_METRIC_COUNT ==> (#[trigger] self.metrics@[i]).shows(
                monitor.resolution(BuiltinLongMetric::ALL@[i]),
            )
    }

    /// Whether this is the report on a monitor.
    pub open spec fn shows(self, monitor: MonitorView) -> bool {
        &&& text_view(self.java_version) == monitor.string("java.property.java.version"@)
        &&& text_view(self.vm_version) == monitor.string("java.property.java.vm.version"@)
        &&& text_view(self.vm_name) == monitor.string("java.property.java.vm.name"@)
        &&& text_view(self.gc_policy) == monitor.string("sun.gc.policy.name"@)
        &&& self.timer_frequency_hz == (if monitor.timer_frequency_hz == 0 {
            None
        } else {
            Some(monitor.timer_frequency_hz)
        })
        &&& text_views(self.collector_names@) == monitor.collector_names()
        &&& text_views(self.generation_names@) == monitor.generation_names()
        &&& text_views(self.space_names@[0]@) == monitor.space_names(0)
        &&& text_views(self.space_names@[1]@) == monitor.space_names(1)
        &&& text_views(self.space_names@[2]@) == monitor.space_names(2)
        &&& self.shows_metrics(monitor)
    }
}

impl JvmMonitor {
    fn read_three_strings(&self, first: &str, second: &str, third: &str) -> (texts: [Option<
        String,
    >; 3])
        ensures
            text_views(texts@) == seq![
                self@.string(first@),
                self@.string(second@),
                self@.string(third@),
            ],
    {
        let texts: [Option<String>; 3] = [
            self.read_optional_string(first),
            self.read_optional_string(second),
            self.read_optional_string(third),
        ];
        assert(text_views(texts@) =~= seq![
            self@.string(first@),
            self@.string(second@),
            self@.string(third@),
        ]);
        texts
    }

    fn read_resolutions(&self) -> (metrics: Vec<MetricResolution>)
        ensures
            metrics@.len() == BUILTIN_LONG_METRIC_COUNT,
            forall|i: int|
                0 <= i < BUILTIN_LONG_METRIC_COUNT ==> (#[trigger] metrics@[i]).shows(
                    self@.resolution(BuiltinLongMetric::ALL@[i]),
                ),
    {
        let mut metrics: Vec<MetricResolution> = Vec::new();
        let mut i: usize = 0;
        while i < BUILTIN_LONG_METRIC_COUNT
            invariant
                i <= BUILTIN_LONG_METRIC_COUNT,
                metrics@.len() == i,
                forall|j: int|
                    0 <= j < i ==> (#[trigger] metrics@[j]).shows(
                        self@.resolution(BuiltinLongMetric::ALL@[j]),
                    ),
            decreases BUILTIN_LONG_METRIC_COUNT - i,
        {
            metrics.push(self.metric_resolution(BuiltinLongMetric::ALL[i]));
            i += 1;
        }
        metrics
    }

    /// Builds a low-frequency compatibility report for the connected JVM.
    ///
    /// The report identifies the actual collector/generation names and every selected metric key.
    pub fn compatibility(&self) -> (report: JvmCompatibility)
        ensures
            report.shows(self@),
    {
        let timer_frequency_hz: usize = self.timer_frequency_hz();
        JvmCompatibility {
            java_version: self.read_optional_string("java.property.java.version"),
            vm_version: self.read_optional_string("java.property.java.vm.version"),
            vm_name: self.read_optional_string("java.property.java.vm.name"),
            gc_policy: self.read_optional_string("sun.gc.policy.name"),
            timer_frequency_hz: if timer_frequency_hz == 0 {
                None
            } else {
                Some(timer_frequency_hz)
            },
            collector_names: self.read_three_strings(
                "sun.gc.collector.0.name",
                "sun.gc.collector.1.name",
                "sun.gc.collector.2.name",
            ),
            generation_names: self.read_three_strings(
                "sun.gc.generation.0.name",
                "sun.gc.generation.1.name",
                "sun.gc.generation.2.name",
            ),
            space_names: [
                self.read_three_strings(
                    "sun.gc.generation.0.space.0.name",
                    "sun.gc.generation.0.space.1.name",
                    "sun.gc.generation.0.space.2.name",
                ),
                self.read_three_strings(
                    "sun.gc.generation.1.space.0.name",
                    "sun.gc.generation.1.space.1.name",
                    "sun.gc.generation.1.space.2.name",
                ),
                self.read_three_strings(
                    "sun.gc.generation.2.space.0.name",
                    "sun.gc.generation.2.space.1.name",
                    "sun.gc.generation.2.space.2.name",
                ),
            ],
            metrics: self.read_resolutions(),
        }
    }
}

} // verus!
