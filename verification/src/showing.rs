//! What samples, reports and the lines of the display show of a monitor.

use vstd::prelude::*;

use crate::compatibility::JvmCompatibility;
use crate::metrics::{BuiltinLongMetric, MetricKeySource, MetricResolution};
use crate::monitor::{MonitorView, ValueView};
use crate::report::FrameTexts;
use crate::stats::{CompilerStats, GcStats, JvmStatsSnapshot};

verus! {

/// The order in which the logical counters are shown is stable.
pub proof fn law_display_order()
    ensures
        BuiltinLongMetric::ALL@.len() == 42,
        BuiltinLongMetric::ALL@[0] == BuiltinLongMetric::LoadedClasses,
        BuiltinLongMetric::ALL@[1] == BuiltinLongMetric::SharedLoadedClasses,
        BuiltinLongMetric::ALL@[2] == BuiltinLongMetric::LoadedBytes,
        BuiltinLongMetric::ALL@[3] == BuiltinLongMetric::SharedLoadedBytes,
        BuiltinLongMetric::ALL@[4] == BuiltinLongMetric::UnloadedClasses,
        BuiltinLongMetric::ALL@[5] == BuiltinLongMetric::SharedUnloadedClasses,
        BuiltinLongMetric::ALL@[6] == BuiltinLongMetric::UnloadedBytes,
        BuiltinLongMetric::ALL@[7] == BuiltinLongMetric::SharedUnloadedBytes,
        BuiltinLongMetric::ALL@[8] == BuiltinLongMetric::ClassLoadTime,
        BuiltinLongMetric::ALL@[9] == BuiltinLongMetric::Compilations,
        BuiltinLongMetric::ALL@[10] == BuiltinLongMetric::CompilerBailouts,
        BuiltinLongMetric::ALL@[11] == BuiltinLongMetric::CompilerInvalidations,
        BuiltinLongMetric::ALL@[12] == BuiltinLongMetric::CompilationTime,
        BuiltinLongMetric::ALL@[13] == BuiltinLongMetric::Survivor0Capacity,
        BuiltinLongMetric::ALL@[14] == BuiltinLongMetric::Survivor1Capacity,
        BuiltinLongMetric::ALL@[15] == BuiltinLongMetric::Survivor0Used,
        BuiltinLongMetric::ALL@[16] == BuiltinLongMetric::Survivor1Used,
        BuiltinLongMetric::ALL@[17] == BuiltinLongMetric::EdenCapacity,
        BuiltinLongMetric::ALL@[18] == BuiltinLongMetric::EdenUsed,
        BuiltinLongMetric::ALL@[19] == BuiltinLongMetric::OldCapacity,
        BuiltinLongMetric::ALL@[20] == BuiltinLongMetric::OldUsed,
        BuiltinLongMetric::ALL@[21] == BuiltinLongMetric::MetaspaceCapacity,
        BuiltinLongMetric::ALL@[22] == BuiltinLongMetric::MetaspaceUsed,
        BuiltinLongMetric::ALL@[23] == BuiltinLongMetric::CompressedClassCapacity,
        BuiltinLongMetric::ALL@[24] == BuiltinLongMetric::CompressedClassUsed,
        BuiltinLongMetric::ALL@[25] == BuiltinLongMetric::PermGenCapacity,
        BuiltinLongMetric::ALL@[26] == BuiltinLongMetric::PermGenUsed,
        BuiltinLongMetric::ALL@[27] == BuiltinLongMetric::Collector0Invocations,
        BuiltinLongMetric::ALL@[28] == BuiltinLongMetric::Collector0Time,
        BuiltinLongMetric::ALL@[29] == BuiltinLongMetric::Collector1Invocations,
        BuiltinLongMetric::ALL@[30] == BuiltinLongMetric::Collector1Time,
        BuiltinLongMetric::ALL@[31] == BuiltinLongMetric::Collector2Invocations,
        BuiltinLongMetric::ALL@[32] == BuiltinLongMetric::Collector2Time,
        BuiltinLongMetric::ALL@[33] == BuiltinLongMetric::ThreadsLive,
        BuiltinLongMetric::ALL@[34] == BuiltinLongMetric::ThreadsDaemon,
        BuiltinLongMetric::ALL@[35] == BuiltinLongMetric::ThreadsPeak,
        BuiltinLongMetric::ALL@[36] == BuiltinLongMetric::CodeCacheUsed,
        BuiltinLongMetric::ALL@[37] == BuiltinLongMetric::CodeCacheCapacity,
        BuiltinLongMetric::ALL@[38] == BuiltinLongMetric::SafepointTime,
        BuiltinLongMetric::ALL@[39] == BuiltinLongMetric::SafepointSyncTime,
        BuiltinLongMetric::ALL@[40] == BuiltinLongMetric::ApplicationTime,
        BuiltinLongMetric::ALL@[41] == BuiltinLongMetric::Safepoints,
{
}

/// The preferred key of a counter is the canonical one, but for the code cache, which has none, and
/// the permanent generation, whose key is of the layout that came before Metaspace. All other keys
/// are aliases.
pub proof fn law_preferred_keys(metric: BuiltinLongMetric)
    ensures
        metric.candidates().len() > 0,
        metric == BuiltinLongMetric::CodeCacheUsed || metric == BuiltinLongMetric::CodeCacheCapacity
            ==> metric.candidates()[0].source == MetricKeySource::VendorAlias,
        metric == BuiltinLongMetric::PermGenUsed || metric == BuiltinLongMetric::PermGenCapacity
            ==> metric.candidates()[0].source == MetricKeySource::LegacyHotSpot,
        metric != BuiltinLongMetric::CodeCacheUsed && metric != BuiltinLongMetric::CodeCacheCapacity
            && metric != BuiltinLongMetric::PermGenUsed && metric
            != BuiltinLongMetric::PermGenCapacity ==> metric.candidates()[0].source
            == MetricKeySource::OpenJdk,
        forall|i: int|
            1 <= i < metric.candidates().len() ==> (#[trigger] metric.candidates()[i]).source
                == MetricKeySource::VendorAlias,
{
}

/// A resolution shows the counter that was asked for, with the key and the source of the candidate
/// that was chosen, or neither where none was.
pub proof fn law_resolutions_show_candidates(
    resolution: MetricResolution,
    monitor: MonitorView,
    metric: BuiltinLongMetric,
)
    requires
        resolution.shows(monitor.resolution(metric)),
    ensures
        resolution.metric == metric,
        resolution.key is Some <==> monitor.resolution(metric).chosen is Some,
        resolution.source is Some <==> resolution.key is Some,
        monitor.resolution(metric).chosen matches Some(candidate) ==> resolution.key->0@
            == candidate.key && resolution.source == Some(candidate.source),
{
}

impl MonitorView {
    /// The counters that no group of statistics shows are read under these keys.
    pub proof fn law_other_counters(self)
        requires
            self.wf(),
            self.fully_bound(),
        ensures
            self.builtin_or_zero(BuiltinLongMetric::PermGenCapacity) == self.long_or_zero(
                "sun.gc.generation.2.space.0.capacity"@,
            ),
            self.builtin_or_zero(BuiltinLongMetric::PermGenUsed) == self.long_or_zero(
                "sun.gc.generation.2.space.0.used"@,
            ),
            self.builtin_or_zero(BuiltinLongMetric::SafepointSyncTime) == self.long_or_zero(
                "sun.rt.safepointSyncTime"@,
            ),
    {
        self.law_only_key(
            BuiltinLongMetric::PermGenCapacity,
            "sun.gc.generation.2.space.0.capacity"@,
        );
        self.law_only_key(BuiltinLongMetric::PermGenUsed, "sun.gc.generation.2.space.0.used"@);
        self.law_only_key(BuiltinLongMetric::SafepointSyncTime, "sun.rt.safepointSyncTime"@);
    }

    /// The code cache in use is shown, in units of 1024 bytes, where its key is published, and its
    /// share of the capacity where that is published too and positive.
    pub proof fn law_code_cache(self)
        requires
            self.wf(),
            self.fully_bound(),
        ensures
            ({
                let used = self.metric("sun.ci.codeCache.used"@);
                let capacity = self.metric("sun.ci.codeCache.capacity"@);
                &&& used matches Some(ValueView::Long(bytes)) ==> (self.code_cache_used() matches Some(
                    shown,
                ) && crate::columns::holds(shown, bytes as int, 1024))
                &&& !(used matches Some(ValueView::Long(_))) ==> self.code_cache_used() is None
                &&& used matches Some(ValueView::Long(bytes)) ==> (capacity matches Some(
                    ValueView::Long(size),
                ) ==> (size > 0 ==> (self.code_cache_utilization() matches Some(share)
                    && crate::columns::holds(share, bytes as int, size as int))))
                &&& !(used matches Some(ValueView::Long(_))) ==> self.code_cache_utilization() is None
                &&& !(capacity matches Some(ValueView::Long(_)))
                    ==> self.code_cache_utilization() is None
                &&& capacity matches Some(ValueView::Long(size)) ==> (size <= 0
                    ==> self.code_cache_utilization() is None)
            }),
    {
        self.law_only_key(BuiltinLongMetric::CodeCacheUsed, "sun.ci.codeCache.used"@);
        self.law_only_key(BuiltinLongMetric::CodeCacheCapacity, "sun.ci.codeCache.capacity"@);
    }
}

/// The full statistics of the collectors repeat the numbers, and show the causes of the last and
/// the current collection, or dashes.
pub proof fn law_gc_stats(stats: GcStats, monitor: MonitorView)
    requires
        stats.shows(monitor),
    ensures
        stats.s0c == monitor.gc_numeric_stats().s0c,
        stats.s1c == monitor.gc_numeric_stats().s1c,
        stats.s0u == monitor.gc_numeric_stats().s0u,
        stats.s1u == monitor.gc_numeric_stats().s1u,
        stats.ec == monitor.gc_numeric_stats().ec,
        stats.eu == monitor.gc_numeric_stats().eu,
        stats.oc == monitor.gc_numeric_stats().oc,
        stats.ou == monitor.gc_numeric_stats().ou,
        stats.mc == monitor.gc_numeric_stats().mc,
        stats.mu == monitor.gc_numeric_stats().mu,
        stats.ccsc == monitor.gc_numeric_stats().ccsc,
        stats.ccsu == monitor.gc_numeric_stats().ccsu,
        stats.ygc == monitor.gc_numeric_stats().ygc,
        stats.ygct == monitor.gc_numeric_stats().ygct,
        stats.fgc == monitor.gc_numeric_stats().fgc,
        stats.fgct == monitor.gc_numeric_stats().fgct,
        stats.cgc == monitor.gc_numeric_stats().cgc,
        stats.cgct == monitor.gc_numeric_stats().cgct,
        stats.gct == monitor.gc_numeric_stats().gct,
        stats.lgcc@ == monitor.string_or_dash("sun.gc.lastCause"@),
        stats.gcc@ == monitor.string_or_dash("sun.gc.cause"@),
{
}

/// The full statistics of the compiler repeat the numbers, and show the type and the method of the
/// last failure, or dashes.
pub proof fn law_compiler_stats(stats: CompilerStats, monitor: MonitorView)
    requires
        stats.shows(monitor),
    ensures
        stats.compiled == monitor.compiler_numeric_stats().compiled,
        stats.failed == monitor.compiler_numeric_stats().failed,
        stats.invalid == monitor.compiler_numeric_stats().invalid,
        stats.time == monitor.compiler_numeric_stats().time,
        stats.failed_type@ == monitor.display_value("sun.ci.lastFailedType"@),
        stats.failed_method@ == monitor.string_or_dash("sun.ci.lastFailedMethod"@),
{
}

/// A sample holds all groups of statistics of the monitor and the health that was noted.
pub proof fn law_samples(sample: JvmStatsSnapshot, monitor: MonitorView)
    requires
        sample.shows(monitor),
    ensures
        sample.health.pid == monitor.target.pid,
        sample.health.overflow_bytes == monitor.refresh_state.overflow,
        sample.health.num_entries == monitor.refresh_state.num_entries,
        sample.health.modification_timestamp == monitor.refresh_state.modification_timestamp,
        sample.gc.shows(monitor),
        sample.runtime == monitor.runtime_stats(),
        sample.classes == monitor.class_stats(),
        sample.compiler.shows(monitor),
{
}

/// The name of a collector is published under its number, and so are those of the generations and
/// of the spaces of each.
pub proof fn law_names_go_by_number(monitor: MonitorView, generation: int, number: int)
    requires
        0 <= generation < 3,
        0 <= number < 3,
    ensures
        monitor.collector_names().len() == 3,
        monitor.collector_names()[number] == monitor.string(
            "sun.gc.collector."@ + crate::text::decimal_text(number as nat) + ".name"@,
        ),
        monitor.generation_names().len() == 3,
        monitor.generation_names()[number] == monitor.string(
            "sun.gc.generation."@ + crate::text::decimal_text(number as nat) + ".name"@,
        ),
        monitor.space_names(generation).len() == 3,
        monitor.space_names(generation)[number] == monitor.string(
            "sun.gc.generation."@ + crate::text::decimal_text(generation as nat) + ".space."@
                + crate::text::decimal_text(number as nat) + ".name"@,
        ),
{
    reveal_strlit("sun.gc.collector.");
    reveal_strlit("sun.gc.generation.");
    reveal_strlit(".space.");
    reveal_strlit(".name");
    reveal_strlit("sun.gc.collector.0.name");
    reveal_strlit("sun.gc.collector.1.name");
    reveal_strlit("sun.gc.collector.2.name");
    reveal_strlit("sun.gc.generation.0.name");
    reveal_strlit("sun.gc.generation.1.name");
    reveal_strlit("sun.gc.generation.2.name");
    reveal_strlit("sun.gc.generation.0.space.0.name");
    reveal_strlit("sun.gc.generation.0.space.1.name");
    reveal_strlit("sun.gc.generation.0.space.2.name");
    reveal_strlit("sun.gc.generation.1.space.0.name");
    reveal_strlit("sun.gc.generation.1.space.1.name");
    reveal_strlit("sun.gc.generation.1.space.2.name");
    reveal_strlit("sun.gc.generation.2.space.0.name");
    reveal_strlit("sun.gc.generation.2.space.1.name");
    reveal_strlit("sun.gc.generation.2.space.2.name");
    let shown = crate::text::decimal_text(number as nat);
    let shown_generation = crate::text::decimal_text(generation as nat);
    assert("sun.gc.collector."@ + shown + ".name"@ =~= if number == 0 {
        "sun.gc.collector.0.name"@
    } else if number == 1 {
        "sun.gc.collector.1.name"@
    } else {
        "sun.gc.collector.2.name"@
    });
    assert("sun.gc.generation."@ + shown + ".name"@ =~= if number == 0 {
        "sun.gc.generation.0.name"@
    } else if number == 1 {
        "sun.gc.generation.1.name"@
    } else {
        "sun.gc.generation.2.name"@
    });
    let space = "sun.gc.generation."@ + shown_generation + ".space."@ + shown + ".name"@;
    if generation == 0 {
        assert(space =~= if number == 0 {
            "sun.gc.generation.0.space.0.name"@
        } else if number == 1 {
            "sun.gc.generation.0.space.1.name"@
        } else {
            "sun.gc.generation.0.space.2.name"@
        });
    }
    if generation == 1 {
        assert(space =~= if number == 0 {
            "sun.gc.generation.1.space.0.name"@
        } else if number == 1 {
            "sun.gc.generation.1.space.1.name"@
        } else {
            "sun.gc.generation.1.space.2.name"@
        });
    }
    if generation == 2 {
        assert(space =~= if number == 0 {
            "sun.gc.generation.2.space.0.name"@
        } else if number == 1 {
            "sun.gc.generation.2.space.1.name"@
        } else {
            "sun.gc.generation.2.space.2.name"@
        });
    }
}

/// A report on compatibility shows what the JVM publishes of itself, the timer's frequency where
/// it is known, the names of collectors, generations and spaces by their numbers, and the
/// resolution of every counter in display order.
pub proof fn law_compatibility_reports(
    report: JvmCompatibility,
    monitor: MonitorView,
    number: int,
    generation: int,
    position: int,
)
    requires
        report.shows(monitor),
        0 <= number < 3,
        0 <= generation < 3,
        0 <= position < 42,
    ensures
        crate::compatibility::text_view(report.java_version) == monitor.string(
            "java.property.java.version"@,
        ),
        crate::compatibility::text_view(report.vm_version) == monitor.string(
            "java.property.java.vm.version"@,
        ),
        crate::compatibility::text_view(report.vm_name) == monitor.string(
            "java.property.java.vm.name"@,
        ),
        crate::compatibility::text_view(report.gc_policy) == monitor.string(
            "sun.gc.policy.name"@,
        ),
        monitor.timer_frequency_hz > 0 ==> report.timer_frequency_hz == Some(
            monitor.timer_frequency_hz,
        ),
        monitor.timer_frequency_hz == 0 ==> report.timer_frequency_hz is None,
        crate::compatibility::text_view(report.collector_names@[number]) == monitor.string(
            "sun.gc.collector."@ + crate::text::decimal_text(number as nat) + ".name"@,
        ),
        crate::compatibility::text_view(report.generation_names@[number]) == monitor.string(
            "sun.gc.generation."@ + crate::text::decimal_text(number as nat) + ".name"@,
        ),
        crate::compatibility::text_view(report.space_names@[generation]@[number])
            == monitor.string(
            "sun.gc.generation."@ + crate::text::decimal_text(generation as nat) + ".space."@
                + crate::text::decimal_text(number as nat) + ".name"@,
        ),
        report.metrics@.len() == 42,
        report.metrics@[position].shows(monitor.resolution(BuiltinLongMetric::ALL@[position])),
{
    law_names_go_by_number(monitor, generation, number);
    let names = crate::compatibility::text_views(report.collector_names@);
    assert(names[number] == crate::compatibility::text_view(report.collector_names@[number]));
    let names = crate::compatibility::text_views(report.generation_names@);
    assert(names[number] == crate::compatibility::text_view(report.generation_names@[number]));
    let names = crate::compatibility::text_views(report.space_names@[generation]@);
    assert(names == monitor.space_names(generation));
    assert(names[number] == crate::compatibility::text_view(
        report.space_names@[generation]@[number],
    ));
}

/// The collectors that have a name are labelled by their numbers, in order.
pub proof fn law_collector_labels(names: Seq<Option<Seq<char>>>, name: Seq<char>)
    ensures
        crate::report::collector_labels(Seq::empty()).len() == 0,
        crate::report::collector_labels(names.push(None)) == crate::report::collector_labels(names),
        crate::report::collector_labels(names.push(Some(name))) == crate::report::collector_labels(
            names,
        ).push(crate::text::decimal_text(names.len()) + seq!['='] + name),
{
    reveal_strlit("=");
    assert("="@ =~= seq!['=']);
    assert(names.push(None).drop_last() =~= names);
    assert(names.push(Some(name)).drop_last() =~= names);
}

/// Whether a cell stands in a row at an offset: the text, and spaces up to the width.
pub open spec fn has_cell(row: Seq<char>, offset: int, text: Seq<char>, width: int) -> bool {
    &&& 0 <= offset && text.len() <= width && offset + width <= row.len()
    &&& row.subrange(offset, offset + text.len()) == text
    &&& forall|i: int| offset + text.len() <= i < offset + width ==> #[trigger] row[i] == ' '
}

proof fn lemma_first_cell(text: Seq<char>, width: nat)
    requires
        text.len() <= width,
    ensures
        crate::text::padded(text, width).len() == width,
        has_cell(crate::text::padded(text, width), 0, text, width as int),
{
    crate::wording::law_padding(text, width);
    let row = crate::text::padded(text, width);
    assert(row.subrange(0, text.len() as int) =~= row.take(text.len() as int));
}

proof fn lemma_next_cell(row: Seq<char>, separator: Seq<char>, text: Seq<char>, width: nat)
    requires
        text.len() <= width,
    ensures
        ({
            let longer = crate::report::with_cell(row, separator, text, width);
            &&& longer.len() == row.len() + separator.len() + width
            &&& has_cell(longer, (row.len() + separator.len()) as int, text, width as int)
            &&& forall|offset: int, earlier: Seq<char>, room: int|
                #![trigger has_cell(row, offset, earlier, room)]
                has_cell(row, offset, earlier, room) ==> has_cell(longer, offset, earlier, room)
        }),
{
    let longer = crate::report::with_cell(row, separator, text, width);
    let cell = crate::text::padded(text, width);
    let start = (row.len() + separator.len()) as int;
    lemma_first_cell(text, width);
    assert(longer.subrange(start, start + text.len()) =~= cell.subrange(0, text.len() as int));
    assert forall|i: int| start + text.len() <= i < start + width implies #[trigger] longer[i]
        == ' ' by {
        assert(longer[i] == cell[i - start]);
    }
    assert forall|offset: int, earlier: Seq<char>, room: int|
        #![trigger has_cell(row, offset, earlier, room)]
        has_cell(row, offset, earlier, room) implies has_cell(longer, offset, earlier, room) by {
        assert(longer.subrange(offset, offset + earlier.len()) =~= row.subrange(
            offset,
            offset + earlier.len(),
        ));
        assert forall|i: int| offset + earlier.len() <= i < offset + room implies
            #[trigger] longer[i] == ' ' by {
            assert(longer[i] == row[i]);
        }
    }
}

/// The threads, the safepoints and their times stand under their heads, where each fits
/// in its column.
pub proof fn law_runtime_table(sample: JvmStatsSnapshot, texts: FrameTexts)
    requires
        crate::text::signed_decimal_text(sample.runtime.threads_live as int).len() <= 8,
        crate::text::signed_decimal_text(sample.runtime.threads_daemon as int).len() <= 8,
        crate::text::signed_decimal_text(sample.runtime.threads_peak as int).len() <= 8,
        crate::text::signed_decimal_text(sample.runtime.safepoints as int).len() <= 10,
        texts.safepoint_time@.len() <= 10,
        texts.app_time@.len() <= 10,
        texts.safepoint_overhead@.len() <= 12,
    ensures
        has_cell(crate::report::runtime_header_text(), 0, "Live"@, 8),
        has_cell(
            crate::report::runtime_row_text(sample, texts),
            0,
            crate::text::signed_decimal_text(sample.runtime.threads_live as int),
            8,
        ),
        has_cell(crate::report::runtime_header_text(), 9, "Daemon"@, 8),
        has_cell(
            crate::report::runtime_row_text(sample, texts),
            9,
            crate::text::signed_decimal_text(sample.runtime.threads_daemon as int),
            8,
        ),
        has_cell(crate::report::runtime_header_text(), 18, "Peak"@, 8),
        has_cell(
            crate::report::runtime_row_text(sample, texts),
            18,
            crate::text::signed_decimal_text(sample.runtime.threads_peak as int),
            8,
        ),
        has_cell(crate::report::runtime_header_text(), 29, "Safepoints"@, 10),
        has_cell(
            crate::report::runtime_row_text(sample, texts),
            29,
            crate::text::signed_decimal_text(sample.runtime.safepoints as int),
            10,
        ),
        has_cell(crate::report::runtime_header_text(), 40, "SP Time(s)"@, 10),
        has_cell(crate::report::runtime_row_text(sample, texts), 40, texts.safepoint_time@, 10),
        has_cell(crate::report::runtime_header_text(), 53, "AppTime(s)"@, 10),
        has_cell(crate::report::runtime_row_text(sample, texts), 53, texts.app_time@, 10),
        has_cell(crate::report::runtime_header_text(), 64, "Overhead%"@, 12),
        has_cell(crate::report::runtime_row_text(sample, texts), 64, texts.safepoint_overhead@, 12),
{
    reveal_strlit(" ");
    reveal_strlit(" | ");
    reveal_strlit("AppTime(s)");
    reveal_strlit("Daemon");
    reveal_strlit("Live");
    reveal_strlit("Overhead%");
    reveal_strlit("Peak");
    reveal_strlit("SP Time(s)");
    reveal_strlit("Safepoints");
    lemma_first_cell("Live"@, 8);
    let row = crate::text::padded("Live"@, 8);
    lemma_next_cell(row, " "@, "Daemon"@, 8);
    let row = crate::report::with_cell(row, " "@, "Daemon"@, 8);
    lemma_next_cell(row, " "@, "Peak"@, 8);
    let row = crate::report::with_cell(row, " "@, "Peak"@, 8);
    lemma_next_cell(row, " | "@, "Safepoints"@, 10);
    let row = crate::report::with_cell(row, " | "@, "Safepoints"@, 10);
    lemma_next_cell(row, " "@, "SP Time(s)"@, 10);
    let row = crate::report::with_cell(row, " "@, "SP Time(s)"@, 10);
    lemma_next_cell(row, " | "@, "AppTime(s)"@, 10);
    let row = crate::report::with_cell(row, " | "@, "AppTime(s)"@, 10);
    lemma_next_cell(row, " "@, "Overhead%"@, 12);
    let row = crate::report::with_cell(row, " "@, "Overhead%"@, 12);
    assert(row == crate::report::runtime_header_text());
    lemma_first_cell(crate::text::signed_decimal_text(sample.runtime.threads_live as int), 8);
    let row = crate::text::padded(
        crate::text::signed_decimal_text(sample.runtime.threads_live as int),
        8,
    );
    lemma_next_cell(
        row,
        " "@,
        crate::text::signed_decimal_text(sample.runtime.threads_daemon as int),
        8,
    );
    let row = crate::report::with_cell(
        row,
        " "@,
        crate::text::signed_decimal_text(sample.runtime.threads_daemon as int),
        8,
    );
    lemma_next_cell(
        row,
        " "@,
        crate::text::signed_decimal_text(sample.runtime.threads_peak as int),
        8,
    );
    let row = crate::report::with_cell(
        row,
        " "@,
        crate::text::signed_decimal_text(sample.runtime.threads_peak as int),
        8,
    );
    lemma_next_cell(
        row,
        " | "@,
        crate::text::signed_decimal_text(sample.runtime.safepoints as int),
        10,
    );
    let row = crate::report::with_cell(
        row,
        " | "@,
        crate::text::signed_decimal_text(sample.runtime.safepoints as int),
        10,
    );
    lemma_next_cell(row, " "@, texts.safepoint_time@, 10);
    let row = crate::report::with_cell(row, " "@, texts.safepoint_time@, 10);
    lemma_next_cell(row, " | "@, texts.app_time@, 10);
    let row = crate::report::with_cell(row, " | "@, texts.app_time@, 10);
    lemma_next_cell(row, " "@, texts.safepoint_overhead@, 12);
    let row = crate::report::with_cell(row, " "@, texts.safepoint_overhead@, 12);
    reveal_strlit("%");
    lemma_next_cell(row, "%"@, seq![], 0);
    assert(crate::report::with_cell(row, "%"@, seq![], 0) =~= row + "%"@);
}

/// The sizes of the memory spaces stand under their heads, where each fits
/// in its column.
pub proof fn law_space_table(texts: FrameTexts)
    requires
        texts.s0u@.len() <= 8,
        texts.s1u@.len() <= 8,
        texts.eu@.len() <= 8,
        texts.ec@.len() <= 8,
        texts.ou@.len() <= 8,
        texts.oc@.len() <= 8,
        texts.mu@.len() <= 8,
        texts.mc@.len() <= 8,
        texts.ccsu@.len() <= 8,
    ensures
        has_cell(crate::report::space_header_text(), 0, "S0U"@, 8),
        has_cell(crate::report::space_row_text(texts), 0, texts.s0u@, 8),
        has_cell(crate::report::space_header_text(), 9, "S1U"@, 8),
        has_cell(crate::report::space_row_text(texts), 9, texts.s1u@, 8),
        has_cell(crate::report::space_header_text(), 18, "EU"@, 8),
        has_cell(crate::report::space_row_text(texts), 18, texts.eu@, 8),
        has_cell(crate::report::space_header_text(), 27, "EC"@, 8),
        has_cell(crate::report::space_row_text(texts), 27, texts.ec@, 8),
        has_cell(crate::report::space_header_text(), 38, "OU"@, 8),
        has_cell(crate::report::space_row_text(texts), 38, texts.ou@, 8),
        has_cell(crate::report::space_header_text(), 47, "OC"@, 8),
        has_cell(crate::report::space_row_text(texts), 47, texts.oc@, 8),
        has_cell(crate::report::space_header_text(), 58, "MU"@, 8),
        has_cell(crate::report::space_row_text(texts), 58, texts.mu@, 8),
        has_cell(crate::report::space_header_text(), 67, "MC"@, 8),
        has_cell(crate::report::space_row_text(texts), 67, texts.mc@, 8),
        has_cell(crate::report::space_header_text(), 78, "CCSU"@, 8),
        has_cell(crate::report::space_row_text(texts), 78, texts.ccsu@, 8),
{
    reveal_strlit(" ");
    reveal_strlit(" | ");
    reveal_strlit("CCSU");
    reveal_strlit("EC");
    reveal_strlit("EU");
    reveal_strlit("MC");
    reveal_strlit("MU");
    reveal_strlit("OC");
    reveal_strlit("OU");
    reveal_strlit("S0U");
    reveal_strlit("S1U");
    lemma_first_cell("S0U"@, 8);
    let row = crate::text::padded("S0U"@, 8);
    lemma_next_cell(row, " "@, "S1U"@, 8);
    let row = crate::report::with_cell(row, " "@, "S1U"@, 8);
    lemma_next_cell(row, " "@, "EU"@, 8);
    let row = crate::report::with_cell(row, " "@, "EU"@, 8);
    lemma_next_cell(row, " "@, "EC"@, 8);
    let row = crate::report::with_cell(row, " "@, "EC"@, 8);
    lemma_next_cell(row, " | "@, "OU"@, 8);
    let row = crate::report::with_cell(row, " | "@, "OU"@, 8);
    lemma_next_cell(row, " "@, "OC"@, 8);
    let row = crate::report::with_cell(row, " "@, "OC"@, 8);
    lemma_next_cell(row, " | "@, "MU"@, 8);
    let row = crate::report::with_cell(row, " | "@, "MU"@, 8);
    lemma_next_cell(row, " "@, "MC"@, 8);
    let row = crate::report::with_cell(row, " "@, "MC"@, 8);
    lemma_next_cell(row, " | "@, "CCSU"@, 8);
    let row = crate::report::with_cell(row, " | "@, "CCSU"@, 8);
    assert(row == crate::report::space_header_text());
    lemma_first_cell(texts.s0u@, 8);
    let row = crate::text::padded(texts.s0u@, 8);
    lemma_next_cell(row, " "@, texts.s1u@, 8);
    let row = crate::report::with_cell(row, " "@, texts.s1u@, 8);
    lemma_next_cell(row, " "@, texts.eu@, 8);
    let row = crate::report::with_cell(row, " "@, texts.eu@, 8);
    lemma_next_cell(row, " "@, texts.ec@, 8);
    let row = crate::report::with_cell(row, " "@, texts.ec@, 8);
    lemma_next_cell(row, " | "@, texts.ou@, 8);
    let row = crate::report::with_cell(row, " | "@, texts.ou@, 8);
    lemma_next_cell(row, " "@, texts.oc@, 8);
    let row = crate::report::with_cell(row, " "@, texts.oc@, 8);
    lemma_next_cell(row, " | "@, texts.mu@, 8);
    let row = crate::report::with_cell(row, " | "@, texts.mu@, 8);
    lemma_next_cell(row, " "@, texts.mc@, 8);
    let row = crate::report::with_cell(row, " "@, texts.mc@, 8);
    lemma_next_cell(row, " | "@, texts.ccsu@, 8);
    let row = crate::report::with_cell(row, " | "@, texts.ccsu@, 8);
}

/// The counts and times of the collectors, and the last cause, stand under their heads, where each
/// fits in its column.
pub proof fn law_collector_table(sample: JvmStatsSnapshot, texts: FrameTexts)
    requires
        crate::text::decimal_text(sample.gc.ygc as nat).len() <= 6,
        texts.ygct@.len() <= 8,
        crate::text::decimal_text(sample.gc.fgc as nat).len() <= 6,
        texts.fgct@.len() <= 8,
        crate::text::decimal_text(sample.gc.cgc as nat).len() <= 6,
        texts.cgct@.len() <= 8,
        texts.gct@.len() <= 8,
        sample.gc.lgcc@.len() <= 20,
    ensures
        has_cell(crate::report::collector_header_text(), 0, "C0"@, 6),
        has_cell(
            crate::report::collector_row_text(sample, texts),
            0,
            crate::text::decimal_text(sample.gc.ygc as nat),
            6,
        ),
        has_cell(crate::report::collector_header_text(), 7, "C0T"@, 8),
        has_cell(crate::report::collector_row_text(sample, texts), 7, texts.ygct@, 8),
        has_cell(crate::report::collector_header_text(), 18, "C1"@, 6),
        has_cell(
            crate::report::collector_row_text(sample, texts),
            18,
            crate::text::decimal_text(sample.gc.fgc as nat),
            6,
        ),
        has_cell(crate::report::collector_header_text(), 25, "C1T"@, 8),
        has_cell(crate::report::collector_row_text(sample, texts), 25, texts.fgct@, 8),
        has_cell(crate::report::collector_header_text(), 36, "C2"@, 6),
        has_cell(
            crate::report::collector_row_text(sample, texts),
            36,
            crate::text::decimal_text(sample.gc.cgc as nat),
            6,
        ),
        has_cell(crate::report::collector_header_text(), 43, "C2T"@, 8),
        has_cell(crate::report::collector_row_text(sample, texts), 43, texts.cgct@, 8),
        has_cell(crate::report::collector_header_text(), 54, "GCT"@, 8),
        has_cell(crate::report::collector_row_text(sample, texts), 54, texts.gct@, 8),
        has_cell(crate::report::collector_header_text(), 65, "Last Cause"@, 20),
        has_cell(crate::report::collector_row_text(sample, texts), 65, sample.gc.lgcc@, 20),
{
    reveal_strlit(" ");
    reveal_strlit(" | ");
    reveal_strlit("C0");
    reveal_strlit("C0T");
    reveal_strlit("C1");
    reveal_strlit("C1T");
    reveal_strlit("C2");
    reveal_strlit("C2T");
    reveal_strlit("GCT");
    reveal_strlit("Last Cause");
    lemma_first_cell("C0"@, 6);
    let row = crate::text::padded("C0"@, 6);
    lemma_next_cell(row, " "@, "C0T"@, 8);
    let row = crate::report::with_cell(row, " "@, "C0T"@, 8);
    lemma_next_cell(row, " | "@, "C1"@, 6);
    let row = crate::report::with_cell(row, " | "@, "C1"@, 6);
    lemma_next_cell(row, " "@, "C1T"@, 8);
    let row = crate::report::with_cell(row, " "@, "C1T"@, 8);
    lemma_next_cell(row, " | "@, "C2"@, 6);
    let row = crate::report::with_cell(row, " | "@, "C2"@, 6);
    lemma_next_cell(row, " "@, "C2T"@, 8);
    let row = crate::report::with_cell(row, " "@, "C2T"@, 8);
    lemma_next_cell(row, " | "@, "GCT"@, 8);
    let row = crate::report::with_cell(row, " | "@, "GCT"@, 8);
    lemma_next_cell(row, " | "@, "Last Cause"@, 20);
    let row = crate::report::with_cell(row, " | "@, "Last Cause"@, 20);
    assert(row == crate::report::collector_header_text());
    lemma_first_cell(crate::text::decimal_text(sample.gc.ygc as nat), 6);
    let row = crate::text::padded(crate::text::decimal_text(sample.gc.ygc as nat), 6);
    lemma_next_cell(row, " "@, texts.ygct@, 8);
    let row = crate::report::with_cell(row, " "@, texts.ygct@, 8);
    lemma_next_cell(row, " | "@, crate::text::decimal_text(sample.gc.fgc as nat), 6);
    let row = crate::report::with_cell(
        row,
        " | "@,
        crate::text::decimal_text(sample.gc.fgc as nat),
        6,
    );
    lemma_next_cell(row, " "@, texts.fgct@, 8);
    let row = crate::report::with_cell(row, " "@, texts.fgct@, 8);
    lemma_next_cell(row, " | "@, crate::text::decimal_text(sample.gc.cgc as nat), 6);
    let row = crate::report::with_cell(
        row,
        " | "@,
        crate::text::decimal_text(sample.gc.cgc as nat),
        6,
    );
    lemma_next_cell(row, " "@, texts.cgct@, 8);
    let row = crate::report::with_cell(row, " "@, texts.cgct@, 8);
    lemma_next_cell(row, " | "@, texts.gct@, 8);
    let row = crate::report::with_cell(row, " | "@, texts.gct@, 8);
    lemma_next_cell(row, " | "@, sample.gc.lgcc@, 20);
    let row = crate::report::with_cell(row, " | "@, sample.gc.lgcc@, 20);
}

/// The counts of classes and compilations, and the code cache, stand under their heads, where each
/// fits in its column.
pub proof fn law_class_table(sample: JvmStatsSnapshot, texts: FrameTexts)
    requires
        crate::text::signed_decimal_text(sample.classes.loaded as int).len() <= 10,
        crate::text::signed_decimal_text(sample.classes.unloaded as int).len() <= 10,
        crate::text::signed_decimal_text(sample.compiler.compiled as int).len() <= 10,
        crate::text::signed_decimal_text(sample.compiler.failed as int).len() <= 10,
        crate::text::signed_decimal_text(sample.compiler.invalid as int).len() <= 10,
        texts.code_cache_used@.len() <= 10,
        texts.code_cache_utilization@.len() <= 8,
    ensures
        has_cell(crate::report::class_header_text(), 0, "Loaded"@, 10),
        has_cell(
            crate::report::class_row_text(sample, texts),
            0,
            crate::text::signed_decimal_text(sample.classes.loaded as int),
            10,
        ),
        has_cell(crate::report::class_header_text(), 11, "Unloaded"@, 10),
        has_cell(
            crate::report::class_row_text(sample, texts),
            11,
            crate::text::signed_decimal_text(sample.classes.unloaded as int),
            10,
        ),
        has_cell(crate::report::class_header_text(), 24, "Compiled"@, 10),
        has_cell(
            crate::report::class_row_text(sample, texts),
            24,
            crate::text::signed_decimal_text(sample.compiler.compiled as int),
            10,
        ),
        has_cell(crate::report::class_header_text(), 35, "Failed"@, 10),
        has_cell(
            crate::report::class_row_text(sample, texts),
            35,
            crate::text::signed_decimal_text(sample.compiler.failed as int),
            10,
        ),
        has_cell(crate::report::class_header_text(), 46, "Invalid"@, 10),
        has_cell(
            crate::report::class_row_text(sample, texts),
            46,
            crate::text::signed_decimal_text(sample.compiler.invalid as int),
            10,
        ),
        has_cell(crate::report::class_header_text(), 59, "CodeCache"@, 10),
        has_cell(crate::report::class_row_text(sample, texts), 59, texts.code_cache_used@, 10),
        has_cell(crate::report::class_header_text(), 70, "Util%"@, 8),
        has_cell(
            crate::report::class_row_text(sample, texts),
            70,
            texts.code_cache_utilization@,
            8,
        ),
{
    reveal_strlit(" ");
    reveal_strlit(" | ");
    reveal_strlit("CodeCache");
    reveal_strlit("Compiled");
    reveal_strlit("Failed");
    reveal_strlit("Invalid");
    reveal_strlit("Loaded");
    reveal_strlit("Unloaded");
    reveal_strlit("Util%");
    lemma_first_cell("Loaded"@, 10);
    let row = crate::text::padded("Loaded"@, 10);
    lemma_next_cell(row, " "@, "Unloaded"@, 10);
    let row = crate::report::with_cell(row, " "@, "Unloaded"@, 10);
    lemma_next_cell(row, " | "@, "Compiled"@, 10);
    let row = crate::report::with_cell(row, " | "@, "Compiled"@, 10);
    lemma_next_cell(row, " "@, "Failed"@, 10);
    let row = crate::report::with_cell(row, " "@, "Failed"@, 10);
    lemma_next_cell(row, " "@, "Invalid"@, 10);
    let row = crate::report::with_cell(row, " "@, "Invalid"@, 10);
    lemma_next_cell(row, " | "@, "CodeCache"@, 10);
    let row = crate::report::with_cell(row, " | "@, "CodeCache"@, 10);
    lemma_next_cell(row, " "@, "Util%"@, 8);
    let row = crate::report::with_cell(row, " "@, "Util%"@, 8);
    assert(row == crate::report::class_header_text());
    lemma_first_cell(crate::text::signed_decimal_text(sample.classes.loaded as int), 10);
    let row = crate::text::padded(
        crate::text::signed_decimal_text(sample.classes.loaded as int),
        10,
    );
    lemma_next_cell(
        row,
        " "@,
        crate::text::signed_decimal_text(sample.classes.unloaded as int),
        10,
    );
    let row = crate::report::with_cell(
        row,
        " "@,
        crate::text::signed_decimal_text(sample.classes.unloaded as int),
        10,
    );
    lemma_next_cell(
        row,
        " | "@,
        crate::text::signed_decimal_text(sample.compiler.compiled as int),
        10,
    );
    let row = crate::report::with_cell(
        row,
        " | "@,
        crate::text::signed_decimal_text(sample.compiler.compiled as int),
        10,
    );
    lemma_next_cell(row, " "@, crate::text::signed_decimal_text(sample.compiler.failed as int), 10);
    let row = crate::report::with_cell(
        row,
        " "@,
        crate::text::signed_decimal_text(sample.compiler.failed as int),
        10,
    );
    lemma_next_cell(
        row,
        " "@,
        crate::text::signed_decimal_text(sample.compiler.invalid as int),
        10,
    );
    let row = crate::report::with_cell(
        row,
        " "@,
        crate::text::signed_decimal_text(sample.compiler.invalid as int),
        10,
    );
    lemma_next_cell(row, " | "@, texts.code_cache_used@, 10);
    let row = crate::report::with_cell(row, " | "@, texts.code_cache_used@, 10);
    lemma_next_cell(row, " "@, texts.code_cache_utilization@, 8);
    let row = crate::report::with_cell(row, " "@, texts.code_cache_utilization@, 8);
}

/// The list of processes shows ID, name, heap, threads and time under their heads, where each fits
/// in its column. A name of more than 25 characters is cut to 22 and three dots.
pub proof fn law_process_table(
    pid: u32,
    name: Seq<char>,
    heap: Seq<char>,
    threads: Seq<char>,
    gc_time: Seq<char>,
)
    requires
        crate::text::decimal_text(pid as nat).len() <= 8,
        heap.len() <= 10,
        threads.len() <= 10,
        gc_time.len() <= 10,
    ensures
        ({
            let header = crate::report::process_header_text();
            let row = crate::report::process_row_text(pid, name, heap, threads, gc_time);
            &&& has_cell(header, 0, "PID"@, 8)
            &&& has_cell(row, 0, crate::text::decimal_text(pid as nat), 8)
            &&& has_cell(header, 11, "Name"@, 25)
            &&& name.len() <= 25 ==> has_cell(row, 11, name, 25)
            &&& name.len() > 25 ==> has_cell(row, 11, name.take(22) + seq!['.', '.', '.'], 25)
            &&& has_cell(header, 39, "Heap Used"@, 10)
            &&& has_cell(row, 39, heap, 10)
            &&& has_cell(header, 52, "Live Thr"@, 10)
            &&& has_cell(row, 52, threads, 10)
            &&& has_cell(header, 65, "GC Time"@, 10)
            &&& has_cell(row, 65, gc_time, 10)
        }),
{
    reveal_strlit(" | ");
    reveal_strlit("PID");
    reveal_strlit("Name");
    reveal_strlit("Heap Used");
    reveal_strlit("Live Thr");
    reveal_strlit("GC Time");
    reveal_strlit("...");
    lemma_first_cell("PID"@, 8);
    let row = crate::text::padded("PID"@, 8);
    lemma_next_cell(row, " | "@, "Name"@, 25);
    let row = crate::report::with_cell(row, " | "@, "Name"@, 25);
    lemma_next_cell(row, " | "@, "Heap Used"@, 10);
    let row = crate::report::with_cell(row, " | "@, "Heap Used"@, 10);
    lemma_next_cell(row, " | "@, "Live Thr"@, 10);
    let row = crate::report::with_cell(row, " | "@, "Live Thr"@, 10);
    lemma_next_cell(row, " | "@, "GC Time"@, 10);
    let row = crate::report::with_cell(row, " | "@, "GC Time"@, 10);
    assert(row == crate::report::process_header_text());
    let shown = crate::text::truncated_text(name, 25, 22);
    assert("..."@ =~= seq!['.', '.', '.']);
    let number = crate::text::decimal_text(pid as nat);
    lemma_first_cell(number, 8);
    let row = crate::text::padded(number, 8);
    lemma_next_cell(row, " | "@, shown, 25);
    let row = crate::report::with_cell(row, " | "@, shown, 25);
    lemma_next_cell(row, " | "@, heap, 10);
    let row = crate::report::with_cell(row, " | "@, heap, 10);
    lemma_next_cell(row, " | "@, threads, 10);
    let row = crate::report::with_cell(row, " | "@, threads, 10);
    lemma_next_cell(row, " | "@, gc_time, 10);
}

/// The text so far, which ends with a line end, and one more line.
proof fn lemma_line(text: Seq<char>, lines: Seq<Seq<char>>, line: Seq<char>)
    requires
        lines.len() > 0,
        text == crate::text::joined(lines, seq!['\n']) + seq!['\n'],
    ensures
        text + line == crate::text::joined(lines.push(line), seq!['\n']),
        text + line + seq!['\n'] == crate::text::joined(lines.push(line), seq!['\n']) + seq!['\n'],
        lines.push(line).len() > 0,
{
    assert(lines.push(line).drop_last() =~= lines);
}

/// A line that a literal ends and starts.
proof fn lemma_heading(text: Seq<char>, lines: Seq<Seq<char>>, piece: Seq<char>, line: Seq<char>)
    requires
        lines.len() > 0,
        text == crate::text::joined(lines, seq!['\n']),
        piece == seq!['\n', '\n'] + line + seq!['\n'],
    ensures
        text + piece == crate::text::joined(lines.push(seq![]).push(line), seq!['\n']) + seq!['\n'],
        lines.push(seq![]).push(line).len() > 0,
{
    let empty = Seq::<char>::empty();
    let ended = text + seq!['\n'];
    lemma_line(ended, lines, empty);
    lemma_line(ended + empty + seq!['\n'], lines.push(empty), line);
    assert(text + piece =~= ended + empty + seq!['\n'] + line + seq!['\n']);
}

/// The lines at the top of a frame: the process and the interval, the virtual machine, the command
/// and, where there are names, the collectors.
pub open spec fn title_lines(pid: u32, interval: u64, texts: FrameTexts) -> Seq<Seq<char>> {
    let lines = seq![
        "\x1B[2J\x1B[1;1H"@ + crate::report::rule_text(),
        " JMON - JVM Monitor | PID: "@ + crate::text::decimal_text(pid as nat) + " | Interval: "@
            + crate::text::decimal_text(interval as nat) + "s"@,
        " VM: "@ + texts.vm_name@ + " ("@ + texts.vm_version@ + ")"@,
        " CMD: "@ + texts.command@,
    ];
    let lines = if texts.collectors@.len() > 0 {
        lines.push(" GC slots: "@ + texts.collectors@)
    } else {
        lines
    };
    lines.push(crate::report::rule_text())
}

/// The top of a frame shows its lines one after the other.
pub proof fn law_frame_title(pid: u32, interval: u64, texts: FrameTexts)
    ensures
        crate::report::frame_title_text(pid, interval, texts) == crate::text::joined(
            title_lines(pid, interval, texts),
            seq!['\n'],
        ) + seq!['\n'],
{
    let end = seq!['\n'];
    reveal_strlit("\n");
    assert("\n"@ =~= end);
    reveal_strlit("\n JMON - JVM Monitor | PID: ");
    reveal_strlit(" JMON - JVM Monitor | PID: ");
    assert("\n JMON - JVM Monitor | PID: "@ =~= end + " JMON - JVM Monitor | PID: "@);
    reveal_strlit("s\n VM: ");
    reveal_strlit("s");
    reveal_strlit(" VM: ");
    assert("s\n VM: "@ =~= "s"@ + end + " VM: "@);
    reveal_strlit(")\n CMD: ");
    reveal_strlit(")");
    reveal_strlit(" CMD: ");
    assert(")\n CMD: "@ =~= ")"@ + end + " CMD: "@);
    let first = "\x1B[2J\x1B[1;1H"@ + crate::report::rule_text();
    let shown_pid = crate::text::decimal_text(pid as nat);
    let shown_interval = crate::text::decimal_text(interval as nat);
    let second = " JMON - JVM Monitor | PID: "@ + shown_pid + " | Interval: "@ + shown_interval
        + "s"@;
    let third = " VM: "@ + texts.vm_name@ + " ("@ + texts.vm_version@ + ")"@;
    let fourth = " CMD: "@ + texts.command@;
    let lines = seq![first];
    assert(crate::text::joined(lines, end) == first);
    let text = first + end;
    lemma_line(text, lines, second);
    let lines = lines.push(second);
    let text = text + second + end;
    lemma_line(text, lines, third);
    let lines = lines.push(third);
    let text = text + third + end;
    lemma_line(text, lines, fourth);
    let lines = lines.push(fourth);
    let text = text + fourth + end;
    let written = first + "\n JMON - JVM Monitor | PID: "@ + shown_pid + " | Interval: "@
        + shown_interval + "s\n VM: "@ + texts.vm_name@ + " ("@ + texts.vm_version@ + ")\n CMD: "@
        + texts.command@ + "\n"@;
    assert(first + "\n JMON - JVM Monitor | PID: "@ + shown_pid + " | Interval: "@ + shown_interval
        + "s\n VM: "@ =~= first + end + second + end + " VM: "@);
    assert(first + end + second + end + " VM: "@ + texts.vm_name@ + " ("@ + texts.vm_version@
        + ")\n CMD: "@ =~= first + end + second + end + third + end + " CMD: "@);
    assert(written =~= text);
    assert(lines =~= seq![first, second, third, fourth]);
    if texts.collectors@.len() > 0 {
        let fifth = " GC slots: "@ + texts.collectors@;
        lemma_line(text, lines, fifth);
        assert(text + " GC slots: "@ + texts.collectors@ + "\n"@ =~= text + fifth + end);
        lemma_line(text + fifth + end, lines.push(fifth), crate::report::rule_text());
    } else {
        lemma_line(text, lines, crate::report::rule_text());
    }
}

/// The lines of a frame: those at its top, and the tables of the runtime, of the memory spaces and
/// the collectors, and of classes and compilations, each a line of heads and a line of values, with
/// an empty line before each part.
pub open spec fn frame_lines(
    pid: u32,
    interval: u64,
    sample: JvmStatsSnapshot,
    texts: FrameTexts,
) -> Seq<Seq<char>> {
    title_lines(pid, interval, texts).push(seq![]).push("[Runtime & Threads]"@).push(
        crate::report::runtime_header_text(),
    ).push(crate::report::runtime_row_text(sample, texts)).push(seq![]).push(
        "[Garbage Collection (KB)]"@,
    ).push(crate::report::space_header_text()).push(crate::report::space_row_text(texts)).push(
        seq![],
    ).push(crate::report::collector_header_text()).push(
        crate::report::collector_row_text(sample, texts),
    ).push(seq![]).push("[Class & JIT]"@).push(crate::report::class_header_text()).push(
        crate::report::class_row_text(sample, texts),
    ).push(crate::report::rule_text())
}

/// A frame shows its lines one after the other.
pub proof fn law_frame(pid: u32, interval: u64, sample: JvmStatsSnapshot, texts: FrameTexts)
    ensures
        crate::report::frame_text(pid, interval, sample, texts) == crate::text::joined(
            frame_lines(pid, interval, sample, texts),
            seq!['\n'],
        ) + seq!['\n'],
{
    let end = seq!['\n'];
    reveal_strlit("\n");
    assert("\n"@ =~= end);
    reveal_strlit("\n\n");
    assert("\n\n"@ =~= end + end);
    reveal_strlit("\n[Runtime & Threads]\n");
    reveal_strlit("[Runtime & Threads]");
    assert("\n[Runtime & Threads]\n"@ =~= end + "[Runtime & Threads]"@ + end);
    reveal_strlit("\n\n[Garbage Collection (KB)]\n");
    reveal_strlit("[Garbage Collection (KB)]");
    assert("\n\n[Garbage Collection (KB)]\n"@ =~= seq!['\n', '\n'] + "[Garbage Collection (KB)]"@
        + end);
    reveal_strlit("\n\n[Class & JIT]\n");
    reveal_strlit("[Class & JIT]");
    assert("\n\n[Class & JIT]\n"@ =~= seq!['\n', '\n'] + "[Class & JIT]"@ + end);
    law_frame_title(pid, interval, texts);
    let title = crate::report::frame_title_text(pid, interval, texts);
    let lines = title_lines(pid, interval, texts);
    let empty = Seq::<char>::empty();
    lemma_line(title, lines, empty);
    let lines = lines.push(empty);
    lemma_line(title + empty + end, lines, "[Runtime & Threads]"@);
    let lines = lines.push("[Runtime & Threads]"@);
    let text = title + "\n[Runtime & Threads]\n"@;
    assert(text =~= title + empty + end + "[Runtime & Threads]"@ + end);
    let head = crate::report::runtime_header_text();
    let row = crate::report::runtime_row_text(sample, texts);
    lemma_line(text, lines, head);
    lemma_line(text + head + end, lines.push(head), row);
    let lines = lines.push(head).push(row);
    let text = text + head + end + row;
    lemma_heading(
        text,
        lines,
        "\n\n[Garbage Collection (KB)]\n"@,
        "[Garbage Collection (KB)]"@,
    );
    let lines = lines.push(empty).push("[Garbage Collection (KB)]"@);
    let text = text + "\n\n[Garbage Collection (KB)]\n"@;
    let head = crate::report::space_header_text();
    let row = crate::report::space_row_text(texts);
    lemma_line(text, lines, head);
    lemma_line(text + head + end, lines.push(head), row);
    let lines = lines.push(head).push(row);
    let text = text + head + end + row;
    lemma_line(text + end, lines, empty);
    assert(text + "\n\n"@ =~= text + end + empty + end);
    let lines = lines.push(empty);
    let text = text + "\n\n"@;
    let head = crate::report::collector_header_text();
    let row = crate::report::collector_row_text(sample, texts);
    lemma_line(text, lines, head);
    lemma_line(text + head + end, lines.push(head), row);
    let lines = lines.push(head).push(row);
    let text = text + head + end + row;
    lemma_heading(text, lines, "\n\n[Class & JIT]\n"@, "[Class & JIT]"@);
    let lines = lines.push(empty).push("[Class & JIT]"@);
    let text = text + "\n\n[Class & JIT]\n"@;
    let head = crate::report::class_header_text();
    let row = crate::report::class_row_text(sample, texts);
    lemma_line(text, lines, head);
    lemma_line(text + head + end, lines.push(head), row);
    let lines = lines.push(head).push(row);
    let text = text + head + end + row;
    lemma_line(text + end, lines, crate::report::rule_text());
}

} // verus!
