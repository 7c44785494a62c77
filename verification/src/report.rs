//! What the command line shows: the list of processes and the frames of the monitor.
//!
//! Fractions come in as text, already rounded for display.

use vstd::prelude::*;
use vstd::string::*;

use crate::metrics::BuiltinLongMetric;
use crate::monitor::{JvmMonitor, MonitorView};
use crate::stats::{to_kb, to_share, JvmStatsSnapshot, Ratio};
use crate::text::{decimal, join, pad, signed_decimal, truncate_for_display};

verus! {

/// A row with one more cell, filled up to its width.
pub open spec fn with_cell(
    row: Seq<char>,
    separator: Seq<char>,
    text: Seq<char>,
    width: nat,
) -> Seq<char> {
    row + separator + crate::text::padded(text, width)
}

/// Adds a cell to a row.
fn add_cell(row: String, separator: &str, text: &str, width: usize) -> (longer: String)
    ensures
        longer@ == with_cell(row@, separator@, text@, width as nat),
{
    row.concat(separator).concat(&pad(text, width))
}

/// The texts that a frame of the monitor shows beside the counters.
#[derive(Debug)]
pub struct FrameTexts {
    /// The name of the virtual machine.
    pub vm_name: String,
    /// The version of the virtual machine.
    pub vm_version: String,
    /// The command, cut for display.
    pub command: String,
    /// The names of the collectors.
    pub collectors: String,
    /// Time spent in safepoints, in seconds.
    pub safepoint_time: String,
    /// Time spent in the application, in seconds.
    pub app_time: String,
    /// Percentage of time spent in safepoints.
    pub safepoint_overhead: String,
    /// Survivor space 0 used, in kilobytes.
    pub s0u: String,
    /// Survivor space 1 used, in kilobytes.
    pub s1u: String,
    /// Eden used, in kilobytes.
    pub eu: String,
    /// Eden capacity, in kilobytes.
    pub ec: String,
    /// Old generation used, in kilobytes.
    pub ou: String,
    /// Old generation capacity, in kilobytes.
    pub oc: String,
    /// Metaspace used, in kilobytes.
    pub mu: String,
    /// Metaspace capacity, in kilobytes.
    pub mc: String,
    /// Compressed class space used, in kilobytes.
    pub ccsu: String,
    /// Time of collector slot 0, in seconds.
    pub ygct: String,
    /// Time of collector slot 1, in seconds.
    pub fgct: String,
    /// Time of collector slot 2, in seconds.
    pub cgct: String,
    /// Time of all collectors, in seconds.
    pub gct: String,
    /// Code cache used, in kilobytes, or a dash.
    pub code_cache_used: String,
    /// Percentage of the code cache in use, or a dash.
    pub code_cache_utilization: String,
}

/// A line under or over a table.
pub open spec fn rule_text() -> Seq<char> {
    "==============================================================================="@
}

/// The line under and over the list of processes.
pub fn process_rule() -> (text: String)
    ensures
        text@ == "------------------------------------------------------------------------------------------"@,
{
    "------------------------------------------------------------------------------------------".to_owned()
}

/// The column heads of the runtime table.
pub open spec fn runtime_header_text() -> Seq<char> {
    let row = crate::text::padded("Live"@, 8);
    let row = with_cell(row, " "@, "Daemon"@, 8);
    let row = with_cell(row, " "@, "Peak"@, 8);
    let row = with_cell(row, " | "@, "Safepoints"@, 10);
    let row = with_cell(row, " "@, "SP Time(s)"@, 10);
    let row = with_cell(row, " | "@, "AppTime(s)"@, 10);
    let row = with_cell(row, " "@, "Overhead%"@, 12);
    row
}

/// The column heads of the runtime table.
fn runtime_header() -> (text: String)
    ensures
        text@ == runtime_header_text(),
{
    let row = pad("Live", 8);
    let row = add_cell(row, " ", "Daemon", 8);
    let row = add_cell(row, " ", "Peak", 8);
    let row = add_cell(row, " | ", "Safepoints", 10);
    let row = add_cell(row, " ", "SP Time(s)", 10);
    let row = add_cell(row, " | ", "AppTime(s)", 10);
    let row = add_cell(row, " ", "Overhead%", 12);
    row
}

/// The values of the runtime table.
pub open spec fn runtime_row_text(sample: JvmStatsSnapshot, texts: FrameTexts) -> Seq<char> {
    let row = crate::text::padded(crate::text::signed_decimal_text(sample.runtime.threads_live as int), 8);
    let row = with_cell(row, " "@, crate::text::signed_decimal_text(sample.runtime.threads_daemon as int), 8);
    let row = with_cell(row, " "@, crate::text::signed_decimal_text(sample.runtime.threads_peak as int), 8);
    let row = with_cell(row, " | "@, crate::text::signed_decimal_text(sample.runtime.safepoints as int), 10);
    let row = with_cell(row, " "@, texts.safepoint_time@, 10);
    let row = with_cell(row, " | "@, texts.app_time@, 10);
    let row = with_cell(row, " "@, texts.safepoint_overhead@, 12);
    row + "%"@
}

/// The values of the runtime table.
fn runtime_row(sample: &JvmStatsSnapshot, texts: &FrameTexts) -> (text: String)
    ensures
        text@ == runtime_row_text(*sample, *texts),
{
    let row = pad(&signed_decimal(sample.runtime.threads_live), 8);
    let row = add_cell(row, " ", &signed_decimal(sample.runtime.threads_daemon), 8);
    let row = add_cell(row, " ", &signed_decimal(sample.runtime.threads_peak), 8);
    let row = add_cell(row, " | ", &signed_decimal(sample.runtime.safepoints), 10);
    let row = add_cell(row, " ", &texts.safepoint_time, 10);
    let row = add_cell(row, " | ", &texts.app_time, 10);
    let row = add_cell(row, " ", &texts.safepoint_overhead, 12);
    row.concat("%")
}

/// The column heads of the table of memory spaces.
pub open spec fn space_header_text() -> Seq<char> {
    let row = crate::text::padded("S0U"@, 8);
    let row = with_cell(row, " "@, "S1U"@, 8);
    let row = with_cell(row, " "@, "EU"@, 8);
    let row = with_cell(row, " "@, "EC"@, 8);
    let row = with_cell(row, " | "@, "OU"@, 8);
    let row = with_cell(row, " "@, "OC"@, 8);
    let row = with_cell(row, " | "@, "MU"@, 8);
    let row = with_cell(row, " "@, "MC"@, 8);
    let row = with_cell(row, " | "@, "CCSU"@, 8);
    row
}

/// The column heads of the table of memory spaces.
fn space_header() -> (text: String)
    ensures
        text@ == space_header_text(),
{
    let row = pad("S0U", 8);
    let row = add_cell(row, " ", "S1U", 8);
    let row = add_cell(row, " ", "EU", 8);
    let row = add_cell(row, " ", "EC", 8);
    let row = add_cell(row, " | ", "OU", 8);
    let row = add_cell(row, " ", "OC", 8);
    let row = add_cell(row, " | ", "MU", 8);
    let row = add_cell(row, " ", "MC", 8);
    let row = add_cell(row, " | ", "CCSU", 8);
    row
}

/// The values of the table of memory spaces.
pub open spec fn space_row_text(texts: FrameTexts) -> Seq<char> {
    let row = crate::text::padded(texts.s0u@, 8);
    let row = with_cell(row, " "@, texts.s1u@, 8);
    let row = with_cell(row, " "@, texts.eu@, 8);
    let row = with_cell(row, " "@, texts.ec@, 8);
    let row = with_cell(row, " | "@, texts.ou@, 8);
    let row = with_cell(row, " "@, texts.oc@, 8);
    let row = with_cell(row, " | "@, texts.mu@, 8);
    let row = with_cell(row, " "@, texts.mc@, 8);
    let row = with_cell(row, " | "@, texts.ccsu@, 8);
    row
}

/// The values of the table of memory spaces.
fn space_row(texts: &FrameTexts) -> (text: String)
    ensures
        text@ == space_row_text(*texts),
{
    let row = pad(&texts.s0u, 8);
    let row = add_cell(row, " ", &texts.s1u, 8);
    let row = add_cell(row, " ", &texts.eu, 8);
    let row = add_cell(row, " ", &texts.ec, 8);
    let row = add_cell(row, " | ", &texts.ou, 8);
    let row = add_cell(row, " ", &texts.oc, 8);
    let row = add_cell(row, " | ", &texts.mu, 8);
    let row = add_cell(row, " ", &texts.mc, 8);
    let row = add_cell(row, " | ", &texts.ccsu, 8);
    row
}

/// The column heads of the table of collectors.
pub open spec fn collector_header_text() -> Seq<char> {
    let row = crate::text::padded("C0"@, 6);
    let row = with_cell(row, " "@, "C0T"@, 8);
    let row = with_cell(row, " | "@, "C1"@, 6);
    let row = with_cell(row, " "@, "C1T"@, 8);
    let row = with_cell(row, " | "@, "C2"@, 6);
    let row = with_cell(row, " "@, "C2T"@, 8);
    let row = with_cell(row, " | "@, "GCT"@, 8);
    let row = with_cell(row, " | "@, "Last Cause"@, 20);
    row
}

/// The column heads of the table of collectors.
fn collector_header() -> (text: String)
    ensures
        text@ == collector_header_text(),
{
    let row = pad("C0", 6);
    let row = add_cell(row, " ", "C0T", 8);
    let row = add_cell(row, " | ", "C1", 6);
    let row = add_cell(row, " ", "C1T", 8);
    let row = add_cell(row, " | ", "C2", 6);
    let row = add_cell(row, " ", "C2T", 8);
    let row = add_cell(row, " | ", "GCT", 8);
    let row = add_cell(row, " | ", "Last Cause", 20);
    row
}

/// The values of the table of collectors.
pub open spec fn collector_row_text(sample: JvmStatsSnapshot, texts: FrameTexts) -> Seq<char> {
    let row = crate::text::padded(crate::text::decimal_text(sample.gc.ygc as nat), 6);
    let row = with_cell(row, " "@, texts.ygct@, 8);
    let row = with_cell(row, " | "@, crate::text::decimal_text(sample.gc.fgc as nat), 6);
    let row = with_cell(row, " "@, texts.fgct@, 8);
    let row = with_cell(row, " | "@, crate::text::decimal_text(sample.gc.cgc as nat), 6);
    let row = with_cell(row, " "@, texts.cgct@, 8);
    let row = with_cell(row, " | "@, texts.gct@, 8);
    let row = with_cell(row, " | "@, sample.gc.lgcc@, 20);
    row
}

/// The values of the table of collectors.
fn collector_row(sample: &JvmStatsSnapshot, texts: &FrameTexts) -> (text: String)
    ensures
        text@ == collector_row_text(*sample, *texts),
{
    let row = pad(&decimal(sample.gc.ygc), 6);
    let row = add_cell(row, " ", &texts.ygct, 8);
    let row = add_cell(row, " | ", &decimal(sample.gc.fgc), 6);
    let row = add_cell(row, " ", &texts.fgct, 8);
    let row = add_cell(row, " | ", &decimal(sample.gc.cgc), 6);
    let row = add_cell(row, " ", &texts.cgct, 8);
    let row = add_cell(row, " | ", &texts.gct, 8);
    let row = add_cell(row, " | ", &sample.gc.lgcc, 20);
    row
}

/// The column heads of the table of classes and compilations.
pub open spec fn class_header_text() -> Seq<char> {
    let row = crate::text::padded("Loaded"@, 10);
    let row = with_cell(row, " "@, "Unloaded"@, 10);
    let row = with_cell(row, " | "@, "Compiled"@, 10);
    let row = with_cell(row, " "@, "Failed"@, 10);
    let row = with_cell(row, " "@, "Invalid"@, 10);
    let row = with_cell(row, " | "@, "CodeCache"@, 10);
    let row = with_cell(row, " "@, "Util%"@, 8);
    row
}

/// The column heads of the table of classes and compilations.
fn class_header() -> (text: String)
    ensures
        text@ == class_header_text(),
{
    let row = pad("Loaded", 10);
    let row = add_cell(row, " ", "Unloaded", 10);
    let row = add_cell(row, " | ", "Compiled", 10);
    let row = add_cell(row, " ", "Failed", 10);
    let row = add_cell(row, " ", "Invalid", 10);
    let row = add_cell(row, " | ", "CodeCache", 10);
    let row = add_cell(row, " ", "Util%", 8);
    row
}

/// The values of the table of classes and compilations.
pub open spec fn class_row_text(sample: JvmStatsSnapshot, texts: FrameTexts) -> Seq<char> {
    let row = crate::text::padded(crate::text::signed_decimal_text(sample.classes.loaded as int), 10);
    let row = with_cell(row, " "@, crate::text::signed_decimal_text(sample.classes.unloaded as int), 10);
    let row = with_cell(row, " | "@, crate::text::signed_decimal_text(sample.compiler.compiled as int), 10);
    let row = with_cell(row, " "@, crate::text::signed_decimal_text(sample.compiler.failed as int), 10);
    let row = with_cell(row, " "@, crate::text::signed_decimal_text(sample.compiler.invalid as int), 10);
    let row = with_cell(row, " | "@, texts.code_cache_used@, 10);
    let row = with_cell(row, " "@, texts.code_cache_utilization@, 8);
    row
}

/// The values of the table of classes and compilations.
fn class_row(sample: &JvmStatsSnapshot, texts: &FrameTexts) -> (text: String)
    ensures
        text@ == class_row_text(*sample, *texts),
{
    let row = pad(&signed_decimal(sample.classes.loaded), 10);
    let row = add_cell(row, " ", &signed_decimal(sample.classes.unloaded), 10);
    let row = add_cell(row, " | ", &signed_decimal(sample.compiler.compiled), 10);
    let row = add_cell(row, " ", &signed_decimal(sample.compiler.failed), 10);
    let row = add_cell(row, " ", &signed_decimal(sample.compiler.invalid), 10);
    let row = add_cell(row, " | ", &texts.code_cache_used, 10);
    let row = add_cell(row, " ", &texts.code_cache_utilization, 8);
    row
}

/// The column heads of the list of processes.
pub open spec fn process_header_text() -> Seq<char> {
    let row = crate::text::padded("PID"@, 8);
    let row = with_cell(row, " | "@, "Name"@, 25);
    let row = with_cell(row, " | "@, "Heap Used"@, 10);
    let row = with_cell(row, " | "@, "Live Thr"@, 10);
    let row = with_cell(row, " | "@, "GC Time"@, 10);
    row
}

/// The column heads of the list of processes.
pub fn process_header() -> (text: String)
    ensures
        text@ == process_header_text(),
{
    let row = pad("PID", 8);
    let row = add_cell(row, " | ", "Name", 25);
    let row = add_cell(row, " | ", "Heap Used", 10);
    let row = add_cell(row, " | ", "Live Thr", 10);
    let row = add_cell(row, " | ", "GC Time", 10);
    row
}

/// The top of a frame.
pub open spec fn frame_title_text(pid: u32, interval: u64, texts: FrameTexts) -> Seq<char> {
    let title = "\x1B[2J\x1B[1;1H"@ + rule_text() + "\n JMON - JVM Monitor | PID: "@
        + crate::text::decimal_text(pid as nat) + " | Interval: "@ + crate::text::decimal_text(
        interval as nat,
    ) + "s\n VM: "@ + texts.vm_name@ + " ("@ + texts.vm_version@ + ")\n CMD: "@ + texts.command@
        + "\n"@;
    let title = if texts.collectors@.len() == 0 {
        title
    } else {
        title + " GC slots: "@ + texts.collectors@ + "\n"@
    };
    title + rule_text() + "\n"@
}

/// Lays out the top of a frame.
fn frame_title(pid: u32, interval: u64, texts: &FrameTexts) -> (text: String)
    ensures
        text@ == frame_title_text(pid, interval, *texts),
{
    let title = "\x1B[2J\x1B[1;1H".to_owned().concat(
        "===============================================================================",
    ).concat("\n JMON - JVM Monitor | PID: ").concat(&decimal(pid as u64)).concat(
        " | Interval: ",
    ).concat(&decimal(interval)).concat("s\n VM: ").concat(&texts.vm_name).concat(" (").concat(
        &texts.vm_version,
    ).concat(")\n CMD: ").concat(&texts.command).concat("\n");
    let title = if texts.collectors.as_str().unicode_len() == 0 {
        title
    } else {
        title.concat(" GC slots: ").concat(&texts.collectors).concat("\n")
    };
    title.concat(
        "===============================================================================",
    ).concat("\n")
}

/// One frame of the monitor.
pub open spec fn frame_text(
    pid: u32,
    interval: u64,
    sample: JvmStatsSnapshot,
    texts: FrameTexts,
) -> Seq<char> {
    frame_title_text(pid, interval, texts) + "\n[Runtime & Threads]\n"@ + runtime_header_text()
        + "\n"@ + runtime_row_text(sample, texts) + "\n\n[Garbage Collection (KB)]\n"@
        + space_header_text() + "\n"@ + space_row_text(texts) + "\n\n"@
        + collector_header_text() + "\n"@ + collector_row_text(sample, texts)
        + "\n\n[Class & JIT]\n"@ + class_header_text() + "\n"@ + class_row_text(sample, texts)
        + "\n"@ + rule_text() + "\n"@
}

/// Lays out one frame of the monitor.
pub fn monitor_frame(
    pid: u32,
    interval: u64,
    sample: &JvmStatsSnapshot,
    texts: &FrameTexts,
) -> (frame: String)
    ensures
        frame@ == frame_text(pid, interval, *sample, *texts),
{
    frame_title(pid, interval, texts).concat("\n[Runtime & Threads]\n").concat(
        &runtime_header(),
    ).concat("\n").concat(&runtime_row(sample, texts)).concat(
        "\n\n[Garbage Collection (KB)]\n",
    ).concat(&space_header()).concat("\n").concat(&space_row(texts)).concat("\n\n").concat(
        &collector_header(),
    ).concat("\n").concat(&collector_row(sample, texts)).concat("\n\n[Class & JIT]\n").concat(
        &class_header(),
    ).concat("\n").concat(&class_row(sample, texts)).concat("\n").concat(
        "===============================================================================",
    ).concat("\n")
}

/// One row of the list of processes.
pub open spec fn process_row_text(
    pid: u32,
    name: Seq<char>,
    heap: Seq<char>,
    threads: Seq<char>,
    gc_time: Seq<char>,
) -> Seq<char> {
    let row = crate::text::padded(crate::text::decimal_text(pid as nat), 8);
    let row = with_cell(row, " | "@, crate::text::truncated_text(name, 25, 22), 25);
    let row = with_cell(row, " | "@, heap, 10);
    let row = with_cell(row, " | "@, threads, 10);
    with_cell(row, " | "@, gc_time, 10)
}

/// Lays out one row of the list of processes. A long name is cut.
pub fn process_row(pid: u32, name: &str, heap: &str, threads: &str, gc_time: &str) -> (row: String)
    ensures
        row@ == process_row_text(pid, name@, heap@, threads@, gc_time@),
{
    let row = pad(&decimal(pid as u64), 8);
    let row = add_cell(row, " | ", &truncate_for_display(name, 25, 22), 25);
    let row = add_cell(row, " | ", heap, 10);
    let row = add_cell(row, " | ", threads, 10);
    add_cell(row, " | ", gc_time, 10)
}

/// The labels of the collectors that have a name.
pub open spec fn collector_labels(names: Seq<Option<Seq<char>>>) -> Seq<Seq<char>>
    decreases names.len(),
{
    if names.len() == 0 {
        seq![]
    } else {
        let labels = collector_labels(names.drop_last());
        match names.last() {
            Some(name) => labels.push(
                crate::text::decimal_text((names.len() - 1) as nat) + "="@ + name,
            ),
            None => labels,
        }
    }
}

/// Labels the collectors that have a name by their ordinals.
pub fn collector_display(names: &[Option<String>; 3]) -> (text: String)
    ensures
        text@ == crate::text::joined(
            collector_labels(crate::compatibility::text_views(names@)),
            " | "@,
        ),
{
    let ghost views = crate::compatibility::text_views(names@);
    let mut labels: Vec<String> = Vec::new();
    let mut ordinal: usize = 0;
    assert(views.take(0) =~= seq![]);
    assert(labels@.map_values(|label: String| label@) =~= collector_labels(views.take(0)));
    while ordinal < 3
        invariant
            ordinal <= 3,
            views == crate::compatibility::text_views(names@),
            views.len() == 3,
            labels@.map_values(|label: String| label@) == collector_labels(
                views.take(ordinal as int),
            ),
        decreases 3 - ordinal,
    {
        let ghost before = labels@;
        proof {
            assert(views.take(ordinal + 1).drop_last() =~= views.take(ordinal as int));
            assert(views.take(ordinal + 1).last() == crate::compatibility::text_view(
                names@[ordinal as int],
            ));
        }
        if let Some(name) = &names[ordinal] {
            let label = decimal(ordinal as u64).concat("=").concat(name);
            labels.push(label);
            assert(labels@.map_values(|label: String| label@) =~= before.map_values(
                |label: String| label@,
            ).push(label@));
        }
        ordinal += 1;
    }
    assert(views.take(3) =~= views);
    join(&labels, " | ")
}

impl MonitorView {
    /// The code cache in use, where the JVM publishes it.
    pub open spec fn code_cache_used(self) -> Option<Ratio> {
        match self.builtin(BuiltinLongMetric::CodeCacheUsed) {
            Some(used) => Some(Ratio::kilobytes(used)),
            None => None,
        }
    }

    /// The share of the code cache in use, where the JVM publishes it and a positive capacity.
    pub open spec fn code_cache_utilization(self) -> Option<Ratio> {
        match (
            self.builtin(BuiltinLongMetric::CodeCacheCapacity),
            self.builtin(BuiltinLongMetric::CodeCacheUsed),
        ) {
            (Some(capacity), Some(used)) => if capacity > 0 {
                Some(Ratio::share(used, capacity))
            } else {
                None
            },
            _ => None,
        }
    }
}

impl JvmMonitor {
    /// Reads the code cache in use, in kilobytes.
    pub fn code_cache_used(&self) -> (used: Option<Ratio>)
        ensures
            used == self@.code_cache_used(),
    {
        match self.read_builtin_long(BuiltinLongMetric::CodeCacheUsed) {
            Some(used) => Some(to_kb(used)),
            None => None,
        }
    }

    /// Reads the share of the code cache in use.
    pub fn code_cache_utilization(&self) -> (share: Option<Ratio>)
        ensures
            share == self@.code_cache_utilization(),
    {
        match (
            self.read_builtin_long(BuiltinLongMetric::CodeCacheCapacity),
            self.read_builtin_long(BuiltinLongMetric::CodeCacheUsed),
        ) {
            (Some(capacity), Some(used)) => if capacity > 0 {
                Some(to_share(used, capacity))
            } else {
                None
            },
            _ => None,
        }
    }
}

} // verus!
