//! Under which keys the logical counters are read.

use vstd::prelude::*;

use crate::capture::CaptureOutcome;
use crate::connect::{ConnectView, Look};
use crate::index::IndexView;
use crate::laws::{Event, Life};
use crate::metrics::{BuiltinLongMetric, CandidateView};
use crate::monitor::{MonitorView, ValueView};
use crate::perfdata::{EntryMeta, PerfHeader};
use crate::refresh::PendingView;
use crate::target::{TargetIdentity, TargetObservation};

verus! {

/// Whether an entry is one 64-bit counter: it is of type `J` and has no vector.
pub open spec fn is_counter(entry: Option<EntryMeta>) -> bool {
    entry matches Some(meta) && meta.data_type == 0x4a && meta.vector_length == 0
}

proof fn lemma_first_long(candidates: Seq<CandidateView>, index: IndexView, position: int)
    requires
        0 <= position < candidates.len(),
        is_counter(index.get(candidates[position].key)),
        forall|j: int| 0 <= j < position ==> !is_counter(index.get((#[trigger] candidates[j]).key)),
    ensures
        crate::metrics::first_long(candidates, index) == index.get(candidates[position].key),
    decreases position,
{
    if position > 0 {
        let rest = candidates.skip(1);
        assert(!is_counter(index.get(candidates[0].key)));
        assert(rest[position - 1] == candidates[position]);
        assert forall|j: int| 0 <= j < position - 1 implies !is_counter(
            index.get((#[trigger] rest[j]).key),
        ) by {
            assert(rest[j] == candidates[j + 1]);
        }
        lemma_first_long(rest, index, position - 1);
    }
}

proof fn lemma_no_long(candidates: Seq<CandidateView>, index: IndexView)
    requires
        forall|j: int|
            0 <= j < candidates.len() ==> !is_counter(index.get((#[trigger] candidates[j]).key)),
    ensures
        crate::metrics::first_long(candidates, index) is None,
    decreases candidates.len(),
{
    if candidates.len() > 0 {
        let rest = candidates.skip(1);
        assert(!is_counter(index.get(candidates[0].key)));
        assert forall|j: int| 0 <= j < rest.len() implies !is_counter(
            index.get((#[trigger] rest[j]).key),
        ) by {
            assert(rest[j] == candidates[j + 1]);
        }
        lemma_no_long(rest, index);
    }
}

proof fn lemma_bound_at(
    candidates: Seq<CandidateView>,
    monitor: MonitorView,
    position: int,
    offset: usize,
)
    requires
        0 <= position < candidates.len(),
        monitor.keeps_long_at(candidates[position].key, offset),
        forall|j: int|
            0 <= j < position ==> !is_counter(monitor.lookup((#[trigger] candidates[j]).key)),
    ensures
        crate::monitor::bound_candidate(candidates, monitor, offset) == Some(candidates[position]),
    decreases position,
{
    if position > 0 {
        let rest = candidates.skip(1);
        assert(!is_counter(monitor.lookup(candidates[0].key)));
        assert(rest[position - 1] == candidates[position]);
        assert forall|j: int| 0 <= j < position - 1 implies !is_counter(
            monitor.lookup((#[trigger] rest[j]).key),
        ) by {
            assert(rest[j] == candidates[j + 1]);
        }
        lemma_bound_at(rest, monitor, position - 1, offset);
    }
}

impl MonitorView {
    /// Whether a logical counter is resolved to the key at the given position of its candidates,
    /// and reads as that key does.
    pub open spec fn reads_as_candidate(self, metric: BuiltinLongMetric, position: int) -> bool {
        let candidate = metric.candidates()[position];
        &&& self.resolution(metric).metric == metric
        &&& self.resolution(metric).chosen == Some(candidate)
        &&& self.metric(candidate.key) == (match self.builtin(metric) {
            Some(value) => Some(ValueView::Long(value)),
            None => None,
        })
        &&& self.builtin_or_zero(metric) == self.long_or_zero(candidate.key)
    }

    /// Whether a logical counter is not bound.
    pub open spec fn lacks(self, metric: BuiltinLongMetric) -> bool {
        self.resolution(metric).chosen is None && self.builtin(metric) is None
            && self.builtin_or_zero(metric) == 0
    }

    /// However many entries were published before: a logical counter that a monitor lacks is bound
    /// when it takes in an index that holds one of the counter's keys as a counter. It is then
    /// resolved to the first such key and reads as that key does. Where there is none, it is still
    /// lacking.
    pub proof fn law_late_counters_are_bound(
        self,
        header: PerfHeader,
        complete: IndexView,
        metric: BuiltinLongMetric,
    )
        requires
            self.wf(),
            complete.wf(),
            complete.longs_apart(),
            self.nothing_lost(complete),
            self.resolution(metric).chosen is None,
        ensures
            forall|i: int|
                0 <= i < metric.candidates().len() && is_counter(
                    complete.get((#[trigger] metric.candidates()[i]).key),
                ) && (forall|j: int|
                    0 <= j < i ==> !is_counter(
                        complete.get((#[trigger] metric.candidates()[j]).key),
                    )) ==> self.absorbed(header, complete).reads_as_candidate(metric, i),
            (forall|j: int|
                0 <= j < metric.candidates().len() ==> !is_counter(
                    complete.get((#[trigger] metric.candidates()[j]).key),
                )) ==> self.absorbed(header, complete).lacks(metric),
    {
        let later = self.absorbed(header, complete);
        let candidates = metric.candidates();
        self.lemma_absorbed(header, complete);
        assert(self.binding_holds(metric));
        crate::metrics::lemma_display_order();
        assert(BuiltinLongMetric::ALL@[metric.ordinal()] == metric);
        assert forall|i: int|
            0 <= i < candidates.len() && is_counter(complete.get((#[trigger] candidates[i]).key))
                && (forall|j: int|
                0 <= j < i ==> !is_counter(
                    complete.get((#[trigger] candidates[j]).key),
                )) implies later.reads_as_candidate(metric, i) by {
            lemma_first_long(candidates, complete, i);
            assert(later.lookup(candidates[i].key) == complete.get(candidates[i].key));
            assert forall|j: int| 0 <= j < i implies !is_counter(
                later.lookup((#[trigger] candidates[j]).key),
            ) by {
                assert(later.lookup(candidates[j].key) == complete.get(candidates[j].key));
            }
            lemma_bound_at(candidates, later, i, complete.get(candidates[i].key)->0.data_offset);
        }
        if forall|j: int|
            0 <= j < candidates.len() ==> !is_counter(
                complete.get((#[trigger] candidates[j]).key),
            ) {
            lemma_no_long(candidates, complete);
        }
    }

    /// A monitor that connects binds each logical counter to the first of its keys that is
    /// published as a counter, reads it as that key does, and lacks the counters that have no such
    /// key.
    pub proof fn law_counters_are_bound_when_connecting(
        monitor_id: usize,
        target: TargetIdentity,
        memory: Seq<u8>,
        header: PerfHeader,
        index: IndexView,
        metric: BuiltinLongMetric,
    )
        ensures
            ({
                let monitor = MonitorView::connected(monitor_id, target, memory, header, index);
                &&& forall|i: int|
                    0 <= i < metric.candidates().len() && is_counter(
                        index.get((#[trigger] metric.candidates()[i]).key),
                    ) && (forall|j: int|
                        0 <= j < i ==> !is_counter(
                            index.get((#[trigger] metric.candidates()[j]).key),
                        )) ==> monitor.reads_as_candidate(metric, i)
                &&& (forall|j: int|
                    0 <= j < metric.candidates().len() ==> !is_counter(
                        index.get((#[trigger] metric.candidates()[j]).key),
                    )) ==> monitor.lacks(metric)
            }),
    {
        let monitor = MonitorView::connected(monitor_id, target, memory, header, index);
        let candidates = metric.candidates();
        crate::metrics::lemma_display_order();
        assert(BuiltinLongMetric::ALL@[metric.ordinal()] == metric);
        assert forall|key: Seq<char>| #[trigger] monitor.lookup(key) == index.get(key) by {}
        assert forall|i: int|
            0 <= i < candidates.len() && is_counter(index.get((#[trigger] candidates[i]).key)) && (
            forall|j: int|
                0 <= j < i ==> !is_counter(
                    index.get((#[trigger] candidates[j]).key),
                )) implies monitor.reads_as_candidate(metric, i) by {
            lemma_first_long(candidates, index, i);
            assert(monitor.lookup(candidates[i].key) == index.get(candidates[i].key));
            assert forall|j: int| 0 <= j < i implies !is_counter(
                monitor.lookup((#[trigger] candidates[j]).key),
            ) by {
                assert(monitor.lookup(candidates[j].key) == index.get(candidates[j].key));
            }
            lemma_bound_at(candidates, monitor, i, index.get(candidates[i].key)->0.data_offset);
        }
        if forall|j: int|
            0 <= j < candidates.len() ==> !is_counter(index.get((#[trigger] candidates[j]).key)) {
            lemma_no_long(candidates, index);
        }
    }

    /// Whether every logical counter that is not bound has no key that is known as a counter.
    pub open spec fn fully_bound(self) -> bool {
        forall|metric: BuiltinLongMetric, i: int|
            self.offsets[#[trigger] metric.ordinal()] is None && 0 <= i
                < metric.candidates().len() ==> !is_counter(
                self.lookup((#[trigger] metric.candidates()[i]).key),
            )
    }

    /// A monitor that has just connected leaves no counter unbound that it could bind.
    pub proof fn law_connected_monitors_are_fully_bound(
        monitor_id: usize,
        target: TargetIdentity,
        memory: Seq<u8>,
        header: PerfHeader,
        index: IndexView,
    )
        ensures
            MonitorView::connected(monitor_id, target, memory, header, index).fully_bound(),
    {
        let monitor = MonitorView::connected(monitor_id, target, memory, header, index);
        crate::metrics::lemma_display_order();
        assert forall|metric: BuiltinLongMetric, i: int|
            monitor.offsets[#[trigger] metric.ordinal()] is None && 0 <= i
                < metric.candidates().len() implies !is_counter(
            monitor.lookup((#[trigger] metric.candidates()[i]).key),
        ) by {
            assert(BuiltinLongMetric::ALL@[metric.ordinal()] == metric);
            lemma_none_is_counter(metric.candidates(), index, i);
            assert(monitor.lookup(metric.candidates()[i].key) == index.get(
                metric.candidates()[i].key,
            ));
        }
    }

    /// A monitor that has taken in a complete index leaves no counter unbound that it could bind.
    pub proof fn law_absorbed_monitors_are_fully_bound(
        self,
        header: PerfHeader,
        complete: IndexView,
    )
        requires
            self.wf(),
            complete.wf(),
            complete.longs_apart(),
            self.nothing_lost(complete),
        ensures
            self.absorbed(header, complete).fully_bound(),
    {
        let later = self.absorbed(header, complete);
        self.lemma_absorbed(header, complete);
        crate::metrics::lemma_display_order();
        assert forall|metric: BuiltinLongMetric, i: int|
            later.offsets[#[trigger] metric.ordinal()] is None && 0 <= i
                < metric.candidates().len() implies !is_counter(
            later.lookup((#[trigger] metric.candidates()[i]).key),
        ) by {
            assert(BuiltinLongMetric::ALL@[metric.ordinal()] == metric);
            lemma_none_is_counter(metric.candidates(), complete, i);
            assert(later.lookup(metric.candidates()[i].key) == complete.get(
                metric.candidates()[i].key,
            ));
        }
    }

    proof fn lemma_same_bindings(self, later: MonitorView)
        requires
            self.fully_bound(),
            later.index == self.index,
            later.dynamic_index == self.dynamic_index,
            later.offsets == self.offsets,
        ensures
            later.fully_bound(),
    {
        assert forall|metric: BuiltinLongMetric, i: int|
            later.offsets[#[trigger] metric.ordinal()] is None && 0 <= i
                < metric.candidates().len() implies !is_counter(
            later.lookup((#[trigger] metric.candidates()[i]).key),
        ) by {
            assert(later.lookup(metric.candidates()[i].key) == self.lookup(
                metric.candidates()[i].key,
            ));
        }
    }

    /// A step of a refresh leaves no counter unbound that the monitor could bind.
    pub proof fn law_refreshed_monitors_are_fully_bound(
        self,
        seen: TargetObservation,
        pending: PendingView,
    )
        requires
            self.wf(),
            self.fully_bound(),
            pending.wf(),
        ensures
            self.refresh_begun(seen).0.fully_bound(),
            self.refresh_resumed(pending).0.fully_bound(),
    {
        self.lemma_same_bindings(self.refresh_begun(seen).0);
        let later = self.refresh_resumed(pending).0;
        if let PendingView::Capturing(_, capture) = pending {
            capture.lemma_advance(self.memory);
            if let CaptureOutcome::Done(Ok((header, complete))) = capture.advance(self.memory) {
                if self.nothing_lost(complete) {
                    self.law_absorbed_monitors_are_fully_bound(header, complete);
                }
                if later != self.absorbed(header, complete) {
                    self.lemma_same_bindings(later);
                }
            } else {
                self.lemma_same_bindings(later);
            }
        } else {
            self.lemma_same_bindings(later);
        }
    }

    /// A counter that has one key alone reads as that key.
    pub proof fn law_only_key(self, metric: BuiltinLongMetric, key: Seq<char>)
        requires
            self.wf(),
            self.fully_bound(),
            metric.candidates().len() == 1,
            metric.candidates()[0].key == key,
        ensures
            self.builtin_or_zero(metric) == self.long_or_zero(key),
            self.builtin(metric) is Some ==> self.metric(key) == Some(
                ValueView::Long(self.builtin(metric)->0),
            ),
            self.builtin(metric) is None ==> !(self.metric(key) matches Some(
                ValueView::Long(_),
            )),
    {
        assert(self.binding_holds(metric));
        if self.offsets[metric.ordinal()] is None {
            assert(!is_counter(self.lookup(metric.candidates()[0].key)));
        } else {
            let offset = self.offsets[metric.ordinal()]->0;
            assert(metric.candidates().skip(1).len() == 0);
            assert(crate::monitor::bound_candidate(metric.candidates().skip(1), self, offset)
                is None);
            assert(self.keeps_long_at(key, offset));
        }
    }
}

impl Life {
    proof fn lemma_life_stays_bound(self, events: Seq<Event>, len: int)
        requires
            self.within(len),
            self.monitor.fully_bound(),
            forall|i: int| 0 <= i < events.len() ==> (#[trigger] events[i]).image().len() == len,
        ensures
            self.lived(events).monitor.fully_bound(),
        decreases events.len(),
    {
        if events.len() > 0 {
            let event = events[0];
            let rest = events.skip(1);
            let shown = self.monitor.observed(event.image());
            assert forall|i: int| 0 <= i < rest.len() implies (#[trigger] rest[i]).image().len()
                == len by {
                assert(rest[i] == events[i + 1]);
            }
            self.monitor.lemma_observed(event.image());
            self.monitor.lemma_same_bindings(shown);
            match event {
                Event::Observe(_) => {},
                Event::Refresh(seen, _) => {
                    shown.law_refreshed_monitors_are_fully_bound(seen, PendingView::Settling(1));
                },
                Event::Resume(_) => {
                    if let Some(pending) = self.pending {
                        shown.lemma_resumed_stays_bound(pending);
                    }
                },
            }
            assert(events.take(1)[0] == event);
            self.law_life_stays_within(events.take(1), len);
            assert(events.take(1).skip(1) =~= seq![]);
            assert(self.lived(events.take(1)) == self.after(event)) by {
                reveal_with_fuel(Life::lived, 2);
            }
            self.after(event).lemma_life_stays_bound(rest, len);
        }
    }
}

impl MonitorView {
    proof fn lemma_resumed_stays_bound(self, pending: PendingView)
        requires
            self.wf(),
            self.fully_bound(),
            pending.wf(),
        ensures
            self.refresh_resumed(pending).0.fully_bound(),
    {
        let seen = TargetObservation {
            start_time: None,
            path: None,
            file: Ok(self.target.file),
        };
        self.law_refreshed_monitors_are_fully_bound(seen, pending);
    }
}

/// Of every monitor that was connected, whatever happened to it since, with images of one mapping:
/// a logical counter is missing only where none of its keys is known as a counter.
pub proof fn law_every_monitor_binds_what_it_can(
    connecting: ConnectView,
    looks: Seq<Look>,
    memory: Seq<u8>,
    later_start_time: Option<u64>,
    events: Seq<Event>,
)
    requires
        connecting.capture is None,
        connecting.after(looks) is Captured,
        forall|i: int|
            0 <= i < looks.len() ==> (#[trigger] looks[i]).image.len() == memory.len(),
        forall|i: int|
            0 <= i < events.len() ==> (#[trigger] events[i]).image().len() == memory.len(),
    ensures
        ({
            let captured = connecting.after(looks)->Captured_0;
            let start = Life { monitor: captured.monitor(memory, later_start_time), pending: None };
            start.lived(events).monitor.wf() && start.lived(events).monitor.fully_bound()
        }),
{
    let captured = connecting.after(looks)->Captured_0;
    let start = Life { monitor: captured.monitor(memory, later_start_time), pending: None };
    connecting.law_captured_within(looks, memory.len() as int);
    MonitorView::law_connected_values_are_in_reach(captured, memory, later_start_time);
    MonitorView::law_connected_monitors_are_fully_bound(
        captured.monitor_id,
        captured.settled_target(later_start_time),
        memory,
        captured.header,
        captured.index,
    );
    start.law_life_stays_within(events, memory.len() as int);
    start.lemma_life_stays_bound(events, memory.len() as int);
}

proof fn lemma_none_is_counter(candidates: Seq<CandidateView>, index: IndexView, position: int)
    requires
        crate::metrics::first_long(candidates, index) is None,
        0 <= position < candidates.len(),
    ensures
        !is_counter(index.get(candidates[position].key)),
    decreases position,
{
    if position > 0 {
        assert(candidates.skip(1)[position - 1] == candidates[position]);
        lemma_none_is_counter(candidates.skip(1), index, position - 1);
    }
}

} // verus!
