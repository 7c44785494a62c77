//! A monitor: what is known of one JVM's perfdata, and the reading of its counters.

use vstd::prelude::*;
use vstd::string::*;

use crate::error::{Fault, JvmMonitorError};
use crate::index::{IndexView, PerfIndex};
use crate::metrics::{
    builtin_long_candidates, read_frequency, timer_frequency_from_index, update_builtin_offsets,
    BuiltinLongMetric, CandidateView, MetricCandidate, MetricResolution, ResolutionView,
};
use crate::perfdata::{EntryMeta, PerfHeader, PerfMemory};
use crate::target::TargetIdentity;
use crate::text::signed_decimal;

verus! {

/// Represents a raw performance counter value from the JVM.
#[derive(Debug, Clone)]
pub enum PerfValue {
    /// A 64-bit integer value (e.g., counters, sizes, timestamps).
    Long(i64),
    /// A string value (e.g., version strings, GC causes).
    String(String),
}

/// A counter value with its string as a sequence of characters.
pub enum ValueView {
    Long(i64),
    String(Seq<char>),
}

impl View for PerfValue {
    type V = ValueView;

    open spec fn view(&self) -> ValueView {
        match *self {
            PerfValue::Long(value) => ValueView::Long(value),
            PerfValue::String(value) => ValueView::String(value@),
        }
    }
}

/// Pre-resolved metric metadata for repeated reads without a lookup.
///
/// Handles remain valid for the lifetime of the monitor that created them, including after
/// append-only index refreshes. Passing a handle to another monitor safely returns `None`.
#[derive(Debug, Clone, Copy)]
pub struct MetricHandle {
    monitor_id: usize,
    metadata: EntryMeta,
}

impl MetricHandle {
    /// The monitor that made the handle.
    pub closed spec fn owner(self) -> usize {
        self.monitor_id
    }

    /// The entry that the handle stands for.
    pub closed spec fn entry(self) -> EntryMeta {
        self.metadata
    }
}

/// Health information read from the hsperfdata prologue.
#[derive(Debug, Clone, Copy, PartialEq, Eq, Structural)]
pub struct MonitorHealth {
    /// Target host PID used for this connection.
    pub pid: u32,
    /// Bytes that did not fit in the target's perfdata buffer.
    pub overflow_bytes: u32,
    /// Number of published performance entries.
    pub num_entries: usize,
    /// Timestamp of the last structural modification, in target JVM ticks.
    pub modification_timestamp: i64,
}

/// The structure of the perfdata when it was last indexed.
#[derive(Debug, Clone, Copy, PartialEq, Eq, Structural)]
pub struct RefreshState {
    /// Number of bytes in use.
    pub used: usize,
    /// Offset of the first entry.
    pub entry_offset: usize,
    /// Number of entries.
    pub num_entries: usize,
    /// When the structure had last changed.
    pub modification_timestamp: i64,
    /// Number of bytes that did not fit.
    pub overflow: u32,
    /// How many refreshes in a row have failed to read a growing structure.
    pub transient_failures: u8,
}

impl RefreshState {
    /// The state right after the structure that a prologue describes was indexed.
    pub open spec fn indexed(header: PerfHeader) -> RefreshState {
        RefreshState {
            used: header.used,
            entry_offset: header.entry_offset,
            num_entries: header.num_entries,
            modification_timestamp: header.modification_timestamp,
            overflow: header.overflow,
            transient_failures: 0,
        }
    }

    /// The state right after the structure that a prologue describes was indexed.
    pub fn of_header(header: &PerfHeader) -> (state: RefreshState)
        ensures
            state == RefreshState::indexed(*header),
    {
        RefreshState {
            used: header.used,
            entry_offset: header.entry_offset,
            num_entries: header.num_entries,
            modification_timestamp: header.modification_timestamp,
            overflow: header.overflow,
            transient_failures: 0,
        }
    }
}

/// What a monitor knows.
pub struct MonitorView {
    /// Tells the handles of this monitor from those of others.
    pub monitor_id: usize,
    /// The process and the file.
    pub target: TargetIdentity,
    /// The latest image of the mapping.
    pub memory: Seq<u8>,
    /// Byte order of the perfdata.
    pub is_little_endian: bool,
    /// The entries that were there from the start.
    pub index: IndexView,
    /// The entries that were published later.
    pub dynamic_index: IndexView,
    /// Where each logical counter is read, in display order.
    pub offsets: Seq<Option<usize>>,
    /// The structure when it was last indexed.
    pub refresh_state: RefreshState,
    /// Ticks per second, or zero where that is not known.
    pub timer_frequency_hz: usize,
}

/// The first candidate under which `lookup` finds a 64-bit counter at the given offset.
pub open spec fn bound_candidate(
    candidates: Seq<CandidateView>,
    monitor: MonitorView,
    offset: usize,
) -> Option<CandidateView>
    decreases candidates.len(),
{
    if candidates.len() == 0 {
        None
    } else if monitor.keeps_long_at(candidates[0].key, offset) {
        Some(candidates[0])
    } else {
        bound_candidate(candidates.skip(1), monitor, offset)
    }
}

impl MonitorView {
    /// The entry of a key, whenever it was published.
    pub open spec fn lookup(self, key: Seq<char>) -> Option<EntryMeta> {
        match self.index.get(key) {
            Some(meta) => Some(meta),
            None => self.dynamic_index.get(key),
        }
    }

    /// Whether a key is that of a 64-bit counter at the given offset.
    pub open spec fn keeps_long_at(self, key: Seq<char>, offset: usize) -> bool {
        match self.lookup(key) {
            Some(meta) => meta.is_long() && meta.data_offset == offset,
            None => false,
        }
    }

    /// The value of an entry in the latest image.
    pub open spec fn value_of(self, meta: EntryMeta) -> Option<ValueView> {
        if meta.is_long() {
            match crate::perfdata::long_at(
                self.memory,
                meta.data_offset as int,
                self.is_little_endian,
            ) {
                Some(value) => Some(ValueView::Long(value)),
                None => None,
            }
        } else if meta.is_string() {
            match crate::perfdata::string_at(
                self.memory,
                meta.data_offset as int,
                meta.vector_length as int,
            ) {
                Some(value) => Some(ValueView::String(value)),
                None => None,
            }
        } else {
            None
        }
    }

    /// The value of a key in the latest image.
    pub open spec fn metric(self, key: Seq<char>) -> Option<ValueView> {
        match self.lookup(key) {
            Some(meta) => self.value_of(meta),
            None => None,
        }
    }

    /// What a handle reads: the value of its entry, to the monitor that made it alone.
    pub open spec fn handled(self, owner: usize, meta: EntryMeta) -> Option<ValueView> {
        if owner == self.monitor_id {
            self.value_of(meta)
        } else {
            None
        }
    }

    /// The string of a key in the latest image.
    pub open spec fn string(self, key: Seq<char>) -> Option<Seq<char>> {
        match self.metric(key) {
            Some(ValueView::String(value)) => Some(value),
            _ => None,
        }
    }

    /// The string of a key in the latest image, or a dash.
    pub open spec fn string_or_dash(self, key: Seq<char>) -> Seq<char> {
        match self.string(key) {
            Some(value) => value,
            None => "-"@,
        }
    }

    /// The value of a key in the latest image as text, or a dash.
    pub open spec fn display_value(self, key: Seq<char>) -> Seq<char> {
        match self.metric(key) {
            Some(ValueView::String(value)) => value,
            Some(ValueView::Long(value)) => crate::text::signed_decimal_text(value as int),
            None => "-"@,
        }
    }

    /// The counter of a key in the latest image, or zero.
    pub open spec fn long_or_zero(self, key: Seq<char>) -> i64 {
        match self.metric(key) {
            Some(ValueView::Long(value)) => value,
            _ => 0,
        }
    }

    /// A logical counter in the latest image.
    pub open spec fn builtin(self, metric: BuiltinLongMetric) -> Option<i64> {
        match self.offsets[metric.ordinal()] {
            Some(offset) => crate::perfdata::long_at(
                self.memory,
                offset as int,
                self.is_little_endian,
            ),
            None => None,
        }
    }

    /// A logical counter in the latest image, or zero.
    pub open spec fn builtin_or_zero(self, metric: BuiltinLongMetric) -> i64 {
        match self.builtin(metric) {
            Some(value) => value,
            None => 0,
        }
    }

    /// The key under which a logical counter is read.
    pub open spec fn resolution(self, metric: BuiltinLongMetric) -> ResolutionView {
        ResolutionView {
            metric,
            chosen: match self.offsets[metric.ordinal()] {
                Some(offset) => bound_candidate(metric.candidates(), self, offset),
                None => None,
            },
        }
    }

    /// Whether a logical counter that is bound to an offset is published there under one of its
    /// keys.
    pub open spec fn binding_holds(self, metric: BuiltinLongMetric) -> bool {
        match self.offsets[metric.ordinal()] {
            Some(offset) => bound_candidate(metric.candidates(), self, offset) is Some,
            None => true,
        }
    }

    /// The indexes are well-formed and share no key, and each bound counter is published.
    pub open spec fn wf(self) -> bool {
        &&& self.index.wf()
        &&& self.dynamic_index.wf()
        &&& forall|key: Seq<char>| #[trigger]
            self.dynamic_index.entries.contains_key(key) ==> !self.index.entries.contains_key(key)
        &&& self.offsets.len() == crate::metrics::BUILTIN_LONG_METRIC_COUNT
        &&& forall|metric: BuiltinLongMetric| #[trigger] self.binding_holds(metric)
        &&& forall|first: Seq<char>, second: Seq<char>, offset: usize| #[trigger]
            self.keeps_long_at(first, offset) && #[trigger] self.keeps_long_at(second, offset)
                ==> first == second
    }

    /// A monitor right after it was connected.
    pub open spec fn connected(
        monitor_id: usize,
        target: TargetIdentity,
        memory: Seq<u8>,
        header: PerfHeader,
        index: IndexView,
    ) -> MonitorView {
        MonitorView {
            monitor_id,
            target,
            memory,
            is_little_endian: header.is_little_endian,
            index,
            dynamic_index: IndexView::empty(),
            offsets: crate::metrics::rebound(
                Seq::new(
                    crate::metrics::BUILTIN_LONG_METRIC_COUNT as nat,
                    |i: int| None::<usize>,
                ),
                index,
            ),
            refresh_state: RefreshState::indexed(header),
            timer_frequency_hz: crate::metrics::frequency_value(
                memory,
                index.get(crate::metrics::frequency_key()),
                header.is_little_endian,
            ),
        }
    }

    /// A monitor after it has taken in a complete index that lost no entry.
    pub open spec fn absorbed(self, header: PerfHeader, complete: IndexView) -> MonitorView {
        MonitorView {
            dynamic_index: self.dynamic_index.extended(self.index, complete),
            offsets: crate::metrics::rebound(self.offsets, complete),
            refresh_state: RefreshState::indexed(header),
            timer_frequency_hz: crate::metrics::frequency_value(
                self.memory,
                complete.get(crate::metrics::frequency_key()),
                self.is_little_endian,
            ),
            ..self
        }
    }

    /// A counter that an index holds is found under the same candidate in a monitor that knows
    /// every entry of the index.
    proof fn lemma_first_long_is_bound(self, candidates: Seq<CandidateView>, index: IndexView)
        requires
            forall|key: Seq<char>| #[trigger]
                index.entries.contains_key(key) ==> self.lookup(key) == index.get(key),
            crate::metrics::first_long(candidates, index) is Some,
        ensures
            bound_candidate(
                candidates,
                self,
                crate::metrics::first_long(candidates, index)->0.data_offset,
            ) is Some,
        decreases candidates.len(),
    {
        let offset = crate::metrics::first_long(candidates, index)->0.data_offset;
        if !self.keeps_long_at(candidates[0].key, offset) {
            self.lemma_first_long_is_bound(candidates.skip(1), index);
        }
    }

    /// The candidate that a counter is bound to stays the same as long as what was known stays
    /// known and no two counters share their place.
    pub proof fn lemma_candidate_stays(
        self,
        candidates: Seq<CandidateView>,
        later: MonitorView,
        offset: usize,
    )
        requires
            forall|key: Seq<char>| #[trigger]
                self.lookup(key) is Some ==> later.lookup(key) == self.lookup(key),
            forall|first: Seq<char>, second: Seq<char>, place: usize| #[trigger]
                later.keeps_long_at(first, place) && #[trigger] later.keeps_long_at(second, place)
                    ==> first == second,
            bound_candidate(candidates, self, offset) is Some,
        ensures
            bound_candidate(candidates, later, offset) == bound_candidate(candidates, self, offset),
            self.keeps_long_at(bound_candidate(candidates, self, offset)->0.key, offset),
        decreases candidates.len(),
    {
        assert(self.lookup(candidates[0].key) is Some ==> later.lookup(candidates[0].key)
            == self.lookup(candidates[0].key));
        if !self.keeps_long_at(candidates[0].key, offset) {
            self.lemma_candidate_stays(candidates.skip(1), later, offset);
            let chosen = bound_candidate(candidates.skip(1), self, offset)->0.key;
            assert(later.lookup(chosen) == self.lookup(chosen));
            assert(later.keeps_long_at(chosen, offset));
        }
    }

    /// A connected monitor is well-formed.
    pub proof fn lemma_connected(
        monitor_id: usize,
        target: TargetIdentity,
        memory: Seq<u8>,
        header: PerfHeader,
        index: IndexView,
    )
        requires
            index.wf(),
            index.longs_apart(),
        ensures
            MonitorView::connected(monitor_id, target, memory, header, index).wf(),
    {
        let monitor = MonitorView::connected(monitor_id, target, memory, header, index);
        crate::metrics::lemma_display_order();
        assert forall|metric: BuiltinLongMetric| #[trigger] monitor.binding_holds(metric) by {
            if monitor.offsets[metric.ordinal()] is Some {
                assert(BuiltinLongMetric::ALL@[metric.ordinal()] == metric);
                monitor.lemma_first_long_is_bound(metric.candidates(), index);
            }
        }
        assert forall|first: Seq<char>, second: Seq<char>, offset: usize| #[trigger]
            monitor.keeps_long_at(first, offset) && #[trigger] monitor.keeps_long_at(
                second,
                offset,
            ) implies first == second by {
            assert(index.entries.contains_key(first) && index.entries.contains_key(second));
        }
    }

    /// What makes a monitor well-formed are its indexes and its bindings alone.
    pub proof fn lemma_structure_keeps_wf(self, later: MonitorView)
        requires
            self.wf(),
            later.index == self.index,
            later.dynamic_index == self.dynamic_index,
            later.offsets == self.offsets,
        ensures
            later.wf(),
    {
        assert forall|key: Seq<char>, offset: usize| #[trigger]
            later.keeps_long_at(key, offset) == self.keeps_long_at(key, offset) by {}
        assert forall|metric: BuiltinLongMetric| #[trigger] later.binding_holds(metric) by {
            assert(self.binding_holds(metric));
            if let Some(offset) = self.offsets[metric.ordinal()] {
                self.lemma_candidate_stays(metric.candidates(), later, offset);
            }
        }
    }

    /// What makes a monitor well-formed are its indexes and its bindings alone.
    proof fn lemma_structure_alone(self)
        requires
            self.wf(),
        ensures
            forall|later: MonitorView|
                later.index == self.index && later.dynamic_index == self.dynamic_index
                    && later.offsets == self.offsets ==> #[trigger] later.wf(),
    {
        assert forall|later: MonitorView|
            later.index == self.index && later.dynamic_index == self.dynamic_index
                && later.offsets == self.offsets implies #[trigger] later.wf() by {
            self.lemma_structure_keeps_wf(later);
        }
    }

    /// A later image keeps a monitor well-formed.
    pub proof fn lemma_observed(self, image: Seq<u8>)
        requires
            self.wf(),
        ensures
            (MonitorView { memory: image, ..self }).wf(),
    {
        self.lemma_structure_keeps_wf(MonitorView { memory: image, ..self });
    }

    /// Nothing that a monitor knows is missing from the index, or is elsewhere there.
    pub open spec fn nothing_lost(self, complete: IndexView) -> bool {
        self.index.first_lost(complete) is None && self.dynamic_index.first_lost(complete) is None
    }

    /// After a monitor has taken in a complete index, it knows just the entries of that index.
    pub proof fn lemma_absorbed(self, header: PerfHeader, complete: IndexView)
        requires
            self.wf(),
            complete.wf(),
            complete.longs_apart(),
            self.nothing_lost(complete),
        ensures
            self.absorbed(header, complete).wf(),
            forall|key: Seq<char>| #[trigger]
                self.absorbed(header, complete).lookup(key) == complete.get(key),
            forall|key: Seq<char>| #[trigger]
                self.lookup(key) is Some ==> self.absorbed(header, complete).lookup(key)
                    == self.lookup(key),
    {
        let later = self.absorbed(header, complete);
        self.index.lemma_nothing_lost(complete);
        self.dynamic_index.lemma_nothing_lost(complete);
        self.dynamic_index.lemma_extended(self.index, complete);
        crate::metrics::lemma_display_order();
        assert forall|key: Seq<char>| #[trigger] later.lookup(key) == complete.get(key) by {
            assert(later.dynamic_index.get(key) == self.dynamic_index.extended(
                self.index,
                complete,
            ).get(key));
            if self.index.entries.contains_key(key) {
                assert(complete.get(key) == self.index.get(key));
            } else if self.dynamic_index.entries.contains_key(key) {
                assert(complete.get(key) == self.dynamic_index.get(key));
            }
        }
        assert forall|key: Seq<char>| #[trigger] self.lookup(key) is Some implies later.lookup(key)
            == self.lookup(key) by {
            if self.index.entries.contains_key(key) {
                assert(complete.get(key) == self.index.get(key));
            } else {
                assert(self.dynamic_index.entries.contains_key(key));
                assert(complete.get(key) == self.dynamic_index.get(key));
            }
        }
        assert forall|key: Seq<char>| #[trigger]
            later.dynamic_index.entries.contains_key(
                key,
            ) implies !later.index.entries.contains_key(key) by {
            assert(later.dynamic_index.get(key) is Some);
            if self.dynamic_index.get(key) is Some {
                assert(self.dynamic_index.entries.contains_key(key));
            }
        }
        assert forall|first: Seq<char>, second: Seq<char>, offset: usize| #[trigger]
            later.keeps_long_at(first, offset) && #[trigger] later.keeps_long_at(
                second,
                offset,
            ) implies first == second by {
            assert(later.lookup(first) == complete.get(first));
            assert(later.lookup(second) == complete.get(second));
            assert(complete.entries.contains_key(first) && complete.entries.contains_key(second));
        }
        assert forall|metric: BuiltinLongMetric| #[trigger] later.binding_holds(metric) by {
            assert(BuiltinLongMetric::ALL@[metric.ordinal()] == metric);
            assert(self.binding_holds(metric));
            match self.offsets[metric.ordinal()] {
                Some(offset) => {
                    self.lemma_candidate_stays(metric.candidates(), later, offset);
                },
                None => {
                    if later.offsets[metric.ordinal()] is Some {
                        assert forall|key: Seq<char>| #[trigger]
                            complete.entries.contains_key(key) implies later.lookup(key)
                            == complete.get(key) by {}
                        later.lemma_first_long_is_bound(metric.candidates(), complete);
                    }
                },
            }
        }
    }
}

/// The entries that a monitor knows, and where it reads the logical counters.
struct Known {
    index: PerfIndex,
    dynamic_index: PerfIndex,
    builtin_long_offsets: [Option<usize>; 42],
}

/// The main JVM Monitor instance.
pub struct JvmMonitor {
    monitor_id: usize,
    target: TargetIdentity,
    memory: PerfMemory,
    is_little_endian: bool,
    known: Known,
    refresh_state: RefreshState,
    timer_frequency_hz: usize,
}

impl View for JvmMonitor {
    type V = MonitorView;

    closed spec fn view(&self) -> MonitorView {
        MonitorView {
            monitor_id: self.monitor_id,
            target: self.target,
            memory: self.memory@,
            is_little_endian: self.is_little_endian,
            index: self.known.index@,
            dynamic_index: self.known.dynamic_index@,
            offsets: self.known.builtin_long_offsets@,
            refresh_state: self.refresh_state,
            timer_frequency_hz: self.timer_frequency_hz,
        }
    }
}

impl Known {
    /// No entries, and no counter bound.
    fn nothing() -> (known: Known)
        ensures
            known.index@ == IndexView::empty(),
            known.dynamic_index@ == IndexView::empty(),
            forall|i: int| 0 <= i < 42 ==> (#[trigger] known.builtin_long_offsets@[i]) is None,
    {
        Known {
            index: PerfIndex::new(),
            dynamic_index: PerfIndex::new(),
            builtin_long_offsets: [None;42],
        }
    }
}

impl JvmMonitor {
    /// A monitor is always well-formed.
    #[verifier::type_invariant]
    spec fn sound(self) -> bool {
        self@.wf()
    }

    /// Returns the host PID associated with this monitor.
    pub fn pid(&self) -> (pid: u32)
        ensures
            pid == self@.target.pid,
    {
        self.target.pid
    }

    /// Replaces the image that counters are read from by a later one.
    pub fn observe(&mut self, image: PerfMemory)
        ensures
            final(self)@ == (MonitorView { memory: image@, ..old(self)@ }),
            final(self)@.wf(),
    {
        proof {
            use_type_invariant(&*self);
            self@.lemma_observed(image@);
        }
        self.memory = image;
    }

    fn lookup_meta(&self, key: &str) -> (meta: Option<EntryMeta>)
        ensures
            meta == self@.lookup(key@),
    {
        match self.known.index.get(key) {
            Some(meta) => Some(meta),
            None => self.known.dynamic_index.get(key),
        }
    }

    fn read_resolved_metric(&self, metadata: EntryMeta) -> (value: Option<PerfValue>)
        ensures
            match value {
                Some(value) => self@.value_of(metadata) == Some(value@),
                None => self@.value_of(metadata) is None,
            },
    {
        if metadata.holds_long() {
            match self.memory.read_i64(metadata.data_offset, self.is_little_endian) {
                Some(value) => Some(PerfValue::Long(value)),
                None => None,
            }
        } else if metadata.holds_string() {
            match self.memory.read_string(metadata.data_offset, metadata.vector_length) {
                Some(value) => Some(PerfValue::String(value)),
                None => None,
            }
        } else {
            None
        }
    }

    /// Reads a raw performance counter value by its full internal name (e.g., "sun.gc.cause").
    ///
    /// Returns `None` if the key does not exist or the data type is unsupported.
    pub fn read_metric(&self, key: &str) -> (value: Option<PerfValue>)
        ensures
            match value {
                Some(value) => self@.metric(key@) == Some(value@),
                None => self@.metric(key@) is None,
            },
    {
        match self.lookup_meta(key) {
            Some(metadata) => self.read_resolved_metric(metadata),
            None => None,
        }
    }

    /// Resolves a metric name once for repeated reads.
    pub fn metric_handle(&self, key: &str) -> (handle: Option<MetricHandle>)
        ensures
            match handle {
                Some(handle) => self@.lookup(key@) == Some(handle.entry()) && handle.owner()
                    == self@.monitor_id,
                None => self@.lookup(key@) is None,
            },
    {
        match self.lookup_meta(key) {
            Some(metadata) => Some(MetricHandle { monitor_id: self.monitor_id, metadata }),
            None => None,
        }
    }

    /// Reads a previously resolved metric handle.
    pub fn read_metric_handle(&self, handle: MetricHandle) -> (value: Option<PerfValue>)
        ensures
            match value {
                Some(value) => handle.owner() == self@.monitor_id && self@.value_of(handle.entry())
                    == Some(value@),
                None => handle.owner() != self@.monitor_id || self@.value_of(
                    handle.entry(),
                ) is None,
            },
            match value {
                Some(value) => self@.handled(handle.owner(), handle.entry()) == Some(value@),
                None => self@.handled(handle.owner(), handle.entry()) is None,
            },
    {
        if handle.monitor_id != self.monitor_id {
            return None;
        }
        self.read_resolved_metric(handle.metadata)
    }

    /// Reads a previously resolved long metric without allocation.
    pub fn read_long_handle(&self, handle: MetricHandle) -> (value: Option<i64>)
        ensures
            value == (if handle.owner() == self@.monitor_id && handle.entry().is_long() {
                crate::perfdata::long_at(
                    self@.memory,
                    handle.entry().data_offset as int,
                    self@.is_little_endian,
                )
            } else {
                None
            }),
            value == (match self@.handled(handle.owner(), handle.entry()) {
                Some(ValueView::Long(value)) => Some(value),
                _ => None,
            }),
    {
        if handle.monitor_id != self.monitor_id || !handle.metadata.holds_long() {
            return None;
        }
        self.memory.read_i64(handle.metadata.data_offset, self.is_little_endian)
    }

    /// Reads a logical built-in counter after version/vendor key resolution.
    ///
    /// Unlike [`JvmMonitor::read_long`], this method distinguishes an unsupported counter (`None`)
    /// from a real counter whose value is zero.
    pub fn read_builtin_long(&self, metric: BuiltinLongMetric) -> (value: Option<i64>)
        ensures
            value == self@.builtin(metric),
    {
        match self.known.builtin_long_offsets[metric.position()] {
            Some(offset) => self.memory.read_i64(offset, self.is_little_endian),
            None => None,
        }
    }

    /// Reads a logical built-in counter. Returns `0` where the JVM does not publish it.
    pub fn read_known_long(&self, metric: BuiltinLongMetric) -> (value: i64)
        ensures
            value == self@.builtin_or_zero(metric),
    {
        match self.read_builtin_long(metric) {
            Some(value) => value,
            None => 0,
        }
    }

    /// Reports the exact key selected for a logical built-in counter.
    pub fn metric_resolution(&self, metric: BuiltinLongMetric) -> (resolution: MetricResolution)
        ensures
            resolution.shows(self@.resolution(metric)),
    {
        match self.known.builtin_long_offsets[metric.position()] {
            Some(offset) => {
                let candidates: Vec<MetricCandidate> = builtin_long_candidates(metric);
                let ghost keys = metric.candidates();
                assert(keys.skip(0) =~= keys);
                let mut i: usize = 0;
                while i < candidates.len()
                    invariant
                        i <= candidates@.len(),
                        keys == metric.candidates(),
                        keys == candidates@.map_values(|candidate: MetricCandidate| candidate@),
                        self@.resolution(metric).chosen == bound_candidate(
                            keys.skip(i as int),
                            self@,
                            offset,
                        ),
                    decreases candidates@.len() - i,
                {
                    proof {
                        assert(keys[i as int] == candidates@[i as int]@);
                        assert(keys.skip(i as int)[0] == keys[i as int]);
                        assert(keys.skip(i as int).skip(1) =~= keys.skip(i + 1));
                    }
                    let candidate: MetricCandidate = candidates[i];
                    match self.lookup_meta(candidate.key) {
                        Some(meta) => if meta.holds_long() && meta.data_offset == offset {
                            return MetricResolution {
                                metric,
                                key: Some(candidate.key),
                                source: Some(candidate.source),
                            };
                        },
                        None => {},
                    }
                    i += 1;
                }
                MetricResolution { metric, key: None, source: None }
            },
            None => MetricResolution { metric, key: None, source: None },
        }
    }

    /// Reads a 64-bit integer metric. Returns `0` if the key is missing or not a long.
    pub fn read_long(&self, key: &str) -> (value: i64)
        ensures
            value == self@.long_or_zero(key@),
    {
        match self.read_metric(key) {
            Some(PerfValue::Long(value)) => value,
            _ => 0,
        }
    }

    /// Reads a string metric. Returns `"-"` if the key is missing or not a string.
    pub fn read_string(&self, key: &str) -> (value: String)
        ensures
            value@ == self@.string_or_dash(key@),
    {
        match self.read_optional_string(key) {
            Some(value) => value,
            None => "-".to_owned(),
        }
    }

    /// Reads a string metric.
    pub fn read_optional_string(&self, key: &str) -> (value: Option<String>)
        ensures
            match value {
                Some(value) => self@.string(key@) == Some(value@),
                None => self@.string(key@) is None,
            },
    {
        match self.read_metric(key) {
            Some(PerfValue::String(value)) => Some(value),
            _ => None,
        }
    }

    /// Reads a metric of either type as text. Returns `"-"` if the key is missing.
    pub fn read_display_value(&self, key: &str) -> (value: String)
        ensures
            value@ == self@.display_value(key@),
    {
        match self.read_metric(key) {
            Some(PerfValue::String(value)) => value,
            Some(PerfValue::Long(value)) => signed_decimal(value),
            None => "-".to_owned(),
        }
    }

    /// Ticks per second, or zero where that is not known.
    pub fn timer_frequency_hz(&self) -> (frequency: usize)
        ensures
            frequency == self@.timer_frequency_hz,
    {
        self.timer_frequency_hz
    }
}

impl JvmMonitor {
    /// A monitor of perfdata that were just indexed.
    pub(crate) fn connected(
        monitor_id: usize,
        target: TargetIdentity,
        memory: PerfMemory,
        header: &PerfHeader,
        index: PerfIndex,
    ) -> (monitor: JvmMonitor)
        requires
            index@.wf(),
            index@.longs_apart(),
        ensures
            monitor@ == MonitorView::connected(monitor_id, target, memory@, *header, index@),
            monitor@.wf(),
    {
        proof {
            MonitorView::lemma_connected(monitor_id, target, memory@, *header, index@);
        }
        let mut offsets: [Option<usize>; 42] = [None;42];
        assert(offsets@ =~= Seq::new(
            crate::metrics::BUILTIN_LONG_METRIC_COUNT as nat,
            |i: int| None::<usize>,
        ));
        update_builtin_offsets(&mut offsets, &index);
        let frequency: usize = timer_frequency_from_index(
            &memory,
            &index,
            header.is_little_endian,
        );
        JvmMonitor {
            monitor_id,
            target,
            memory,
            is_little_endian: header.is_little_endian,
            known: Known {
                index,
                dynamic_index: PerfIndex::new(),
                builtin_long_offsets: offsets,
            },
            refresh_state: RefreshState::of_header(header),
            timer_frequency_hz: frequency,
        }
    }

    /// The process and the file that are watched.
    pub fn target(&self) -> (target: TargetIdentity)
        ensures
            target == self@.target,
    {
        self.target
    }

    /// The structure when it was last indexed.
    pub fn refresh_state(&self) -> (state: RefreshState)
        ensures
            state == self@.refresh_state,
    {
        self.refresh_state
    }

    /// Byte order of the perfdata.
    pub fn is_little_endian(&self) -> (little: bool)
        ensures
            little == self@.is_little_endian,
    {
        self.is_little_endian
    }

    /// The length of the mapping.
    pub fn mapping_len(&self) -> (len: usize)
        ensures
            len == self@.memory.len(),
    {
        self.memory.len()
    }

    /// Reads the prologue of the latest image.
    pub fn header(&self) -> (header: Result<PerfHeader, JvmMonitorError>)
        ensures
            match header {
                Ok(header) => crate::perfdata::mapped_header(self@.memory) == Ok::<
                    PerfHeader,
                    Fault,
                >(header),
                Err(error) => crate::perfdata::mapped_header(self@.memory) == Err::<
                    PerfHeader,
                    Fault,
                >(error@),
            },
    {
        self.memory.header()
    }

    /// Notes how many bytes did not fit and how many refreshes in a row have failed.
    pub(crate) fn note(&mut self, overflow: u32, transient_failures: u8)
        ensures
            final(self)@ == (MonitorView {
                refresh_state: RefreshState {
                    overflow,
                    transient_failures,
                    ..old(self)@.refresh_state
                },
                ..old(self)@
            }),
            final(self)@.wf(),
    {
        proof {
            use_type_invariant(&*self);
            self@.lemma_structure_alone();
        }
        self.refresh_state = RefreshState { overflow, transient_failures, ..self.refresh_state };
    }

    /// Reads the timer's frequency where it is not known yet.
    pub(crate) fn pick_up_frequency(&mut self)
        ensures
            final(self)@ == (MonitorView {
                timer_frequency_hz: if old(self)@.timer_frequency_hz == 0 {
                    crate::metrics::frequency_value(
                        old(self)@.memory,
                        old(self)@.lookup(crate::metrics::frequency_key()),
                        old(self)@.is_little_endian,
                    )
                } else {
                    old(self)@.timer_frequency_hz
                },
                ..old(self)@
            }),
            final(self)@.wf(),
    {
        proof {
            use_type_invariant(&*self);
            self@.lemma_structure_alone();
        }
        if self.timer_frequency_hz == 0 {
            let meta: Option<EntryMeta> = self.lookup_meta("sun.os.hrt.frequency");
            self.timer_frequency_hz = read_frequency(&self.memory, meta, self.is_little_endian);
        }
    }

    /// Finds the first entry from the start that a complete index lost.
    pub(crate) fn find_lost_entry(&self, complete: &PerfIndex) -> (lost: Option<String>)
        ensures
            match lost {
                Some(name) => self@.index.first_lost(complete@) == Some(name@),
                None => self@.index.first_lost(complete@) is None,
            },
    {
        self.known.index.find_lost(complete)
    }

    /// Finds the first later entry that a complete index lost.
    pub(crate) fn find_lost_dynamic_entry(&self, complete: &PerfIndex) -> (lost: Option<String>)
        ensures
            match lost {
                Some(name) => self@.dynamic_index.first_lost(complete@) == Some(name@),
                None => self@.dynamic_index.first_lost(complete@) is None,
            },
    {
        self.known.dynamic_index.find_lost(complete)
    }

    /// Takes in a complete index that lost no entry, and counts what is new in it.
    pub(crate) fn absorb(&mut self, header: &PerfHeader, complete: &PerfIndex) -> (added: usize)
        requires
            complete@.wf(),
            complete@.longs_apart(),
            old(self)@.nothing_lost(complete@),
        ensures
            final(self)@ == old(self)@.absorbed(*header, complete@),
            final(self)@.wf(),
            added == final(self)@.dynamic_index.names.len()
                - old(self)@.dynamic_index.names.len(),
    {
        proof {
            use_type_invariant(&*self);
            self@.lemma_absorbed(*header, complete@);
            self@.absorbed(*header, complete@).lemma_structure_alone();
        }
        let mut known: Known = Known::nothing();
        std::mem::swap(&mut known, &mut self.known);
        let added: usize = known.dynamic_index.extend_from(&known.index, complete);
        update_builtin_offsets(&mut known.builtin_long_offsets, complete);
        self.known = known;
        self.timer_frequency_hz = timer_frequency_from_index(
            &self.memory,
            complete,
            self.is_little_endian,
        );
        self.refresh_state = RefreshState::of_header(header);
        added
    }
}

} // verus!
