//! What holds of the library as a whole.

use vstd::prelude::*;

use crate::capture::{CaptureOutcome, CaptureView};
use crate::connect::{CapturedView, ConnectView, Look};
use crate::error::Fault;
use crate::index::IndexView;
use crate::metrics::{BuiltinLongMetric, CandidateView};
use crate::monitor::{MonitorHealth, MonitorView, ValueView};
use crate::perfdata::PerfHeader;
use crate::refresh::{PendingView, RefreshOutcome};
use crate::target::{TargetIdentity, TargetObservation};

verus! {

/// How many images a refresh looks at, at most.
pub const MAX_REFRESH_IMAGES: usize = 17;

impl PendingView {
    /// What a refresh waits for comes within the limits that it sets itself.
    pub open spec fn wf(self) -> bool {
        match self {
            PendingView::Settling(looks) => looks <= crate::refresh::SETTLING_LOOKS,
            PendingView::Capturing(_, capture) => capture.wf(),
            PendingView::Failed(_) => true,
        }
    }

    /// Whether what the refresh has taken down fits in a mapping of the given length.
    pub open spec fn within(self, len: int) -> bool {
        self matches PendingView::Capturing(_, capture) ==> capture.within(len)
    }

    /// How many more images the refresh can ask for.
    pub open spec fn patience(self) -> int {
        let captures = 2 * crate::capture::MAX_CAPTURE_ATTEMPTS;
        match self {
            PendingView::Settling(looks) => captures + 1 + (if looks <= 1 {
                1
            } else {
                looks as int
            }),
            PendingView::Capturing(_, capture) => capture.patience() + 1,
            PendingView::Failed(_) => 1,
        }
    }
}

impl MonitorView {
    /// Whether a later state of the monitor still knows all that this one knows, where it was,
    /// and still reads each logical counter where it did.
    pub open spec fn grows_to(self, later: MonitorView) -> bool {
        &&& later.monitor_id == self.monitor_id
        &&& later.target == self.target
        &&& later.is_little_endian == self.is_little_endian
        &&& later.index == self.index
        &&& self.dynamic_index.names.is_prefix_of(later.dynamic_index.names)
        &&& forall|key: Seq<char>| #[trigger]
            self.lookup(key) is Some ==> later.lookup(key) == self.lookup(key)
        &&& forall|metric: BuiltinLongMetric|
            self.offsets[#[trigger] metric.ordinal()] is Some ==> later.offsets[metric.ordinal()]
                == self.offsets[metric.ordinal()]
    }

    /// Whether an outcome is that of a step of a refresh from this state, which is to hold the
    /// image of that step, to a later state: the state grows, a failure and a pause change
    /// nothing, and a success counts the new entries.
    pub open spec fn steps_to(self, later: MonitorView, outcome: RefreshOutcome) -> bool {
        &&& later.wf()
        &&& self.grows_to(later)
        &&& later.memory == self.memory
        &&& match outcome {
            RefreshOutcome::Done(Ok(added)) => later.dynamic_index.names.len()
                == self.dynamic_index.names.len() + added,
            RefreshOutcome::Done(Err(_)) => later == self,
            RefreshOutcome::Pending(pending) => later == self && pending.wf(),
        }
    }

    proof fn lemma_examined(self, current: PerfHeader)
        requires
            self.wf(),
        ensures
            self.steps_to(self.examined(current).0, self.examined(current).1),
            self.examined(current).1 matches RefreshOutcome::Pending(pending) ==> pending.patience()
                <= 2 * crate::capture::MAX_CAPTURE_ATTEMPTS + 1,
    {
        self.lemma_structure_keeps_wf(self.examined(current).0);
        assert(self.dynamic_index.names =~= self.dynamic_index.names.subrange(
            0,
            self.dynamic_index.names.len() as int,
        ));
    }

    proof fn lemma_judged(self, current: PerfHeader, header: PerfHeader, complete: IndexView)
        requires
            self.wf(),
            complete.wf(),
            complete.longs_apart(),
            complete.names.len() <= usize::MAX,
        ensures
            self.steps_to(
                self.judged(current, header, complete).0,
                self.judged(current, header, complete).1,
            ),
            !(self.judged(current, header, complete).1 is Pending),
    {
        let (later, outcome) = self.judged(current, header, complete);
        assert(self.dynamic_index.names =~= self.dynamic_index.names.subrange(
            0,
            self.dynamic_index.names.len() as int,
        ));
        if self.nothing_lost(complete) && later == self.absorbed(header, complete) {
            self.lemma_absorbed(header, complete);
            self.dynamic_index.lemma_extended(self.index, complete);
            assert(later.dynamic_index.names.take(self.dynamic_index.names.len() as int)
                =~= later.dynamic_index.names.subrange(
                0,
                self.dynamic_index.names.len() as int,
            ));
            later.lemma_names_within(complete);
        } else {
            self.lemma_structure_keeps_wf(later);
        }
    }

    /// A monitor that knows just the entries of an index has no more names than the index.
    proof fn lemma_names_within(self, complete: IndexView)
        requires
            self.wf(),
            complete.wf(),
            forall|key: Seq<char>| #[trigger] self.lookup(key) == complete.get(key),
        ensures
            self.dynamic_index.names.len() <= complete.names.len(),
    {
        let names = self.dynamic_index.names;
        names.unique_seq_to_set();
        complete.names.unique_seq_to_set();
        assert(names.to_set().subset_of(complete.names.to_set())) by {
            assert forall|name: Seq<char>| #[trigger]
                names.to_set().contains(name) implies complete.names.to_set().contains(name) by {
                assert(names.contains(name));
                assert(self.dynamic_index.entries.contains_key(name));
                assert(!self.index.entries.contains_key(name));
                assert(self.lookup(name) == complete.get(name));
                assert(complete.entries.contains_key(name));
                assert(complete.names.contains(name));
            }
        }
        vstd::set_lib::lemma_len_subset(names.to_set(), complete.names.to_set());
    }

    /// The first step of a refresh keeps what the monitor knows. It changes nothing where it fails
    /// or pauses, and a success counts the new entries.
    pub proof fn law_refresh_begun(self, seen: TargetObservation)
        requires
            self.wf(),
        ensures
            self.steps_to(self.refresh_begun(seen).0, self.refresh_begun(seen).1),
            self.refresh_begun(seen).1 matches RefreshOutcome::Pending(pending)
                ==> pending.patience() < MAX_REFRESH_IMAGES,
    {
        assert(self.dynamic_index.names =~= self.dynamic_index.names.subrange(
            0,
            self.dynamic_index.names.len() as int,
        ));
        if let Ok(current) = self.live_header(seen) {
            self.lemma_examined(current);
        }
    }

    /// Each later step of a refresh keeps what the monitor knows. It changes nothing where it
    /// fails or pauses, a success counts the new entries, and the refresh comes closer to its end.
    pub proof fn law_refresh_resumed(self, pending: PendingView)
        requires
            self.wf(),
            pending.wf(),
        ensures
            self.steps_to(self.refresh_resumed(pending).0, self.refresh_resumed(pending).1),
            self.refresh_resumed(pending).1 matches RefreshOutcome::Pending(next) ==> 0
                < next.patience() < pending.patience(),
    {
        assert(self.dynamic_index.names =~= self.dynamic_index.names.subrange(
            0,
            self.dynamic_index.names.len() as int,
        ));
        match pending {
            PendingView::Settling(_) => {
                if let Ok(current) = self.sound_header() {
                    self.lemma_examined(current);
                }
            },
            PendingView::Capturing(current, capture) => {
                capture.lemma_advance(self.memory);
                if let CaptureOutcome::Done(Ok((header, complete))) = capture.advance(self.memory) {
                    self.lemma_judged(current, header, complete);
                }
            },
            PendingView::Failed(fault) => {
                self.lemma_structure_keeps_wf(self.excused(fault).0);
            },
        }
    }

    /// A refresh that goes on with images one after the other, until it ends or they run out.
    pub open spec fn refresh_continued(self, pending: PendingView, images: Seq<Seq<u8>>) -> (
        MonitorView,
        RefreshOutcome,
    )
        decreases images.len(),
    {
        if images.len() == 0 {
            (self, RefreshOutcome::Pending(pending))
        } else {
            let (later, outcome) = self.observed(images[0]).refresh_resumed(pending);
            match outcome {
                RefreshOutcome::Pending(next) => later.refresh_continued(next, images.skip(1)),
                RefreshOutcome::Done(_) => (later, outcome),
            }
        }
    }

    /// A refresh that looks at images one after the other, until it ends or they run out.
    pub open spec fn refreshed(self, seen: TargetObservation, images: Seq<Seq<u8>>) -> (
        MonitorView,
        RefreshOutcome,
    ) {
        let (later, outcome) = self.observed(images[0]).refresh_begun(seen);
        match outcome {
            RefreshOutcome::Pending(next) => later.refresh_continued(next, images.skip(1)),
            RefreshOutcome::Done(_) => (later, outcome),
        }
    }

    /// Whether a whole refresh may lead from this state to a later one: as for one step, but for
    /// the image, which is a later one.
    pub open spec fn runs_to(self, later: MonitorView, outcome: RefreshOutcome) -> bool {
        self.observed(later.memory).steps_to(later, outcome)
    }

    proof fn lemma_runs(
        self,
        image: Seq<u8>,
        next: MonitorView,
        later: MonitorView,
        outcome: RefreshOutcome,
    )
        requires
            next == self.observed(image),
            next.runs_to(later, outcome),
        ensures
            self.runs_to(later, outcome),
    {
        assert(next.observed(later.memory) == self.observed(later.memory));
    }

    proof fn lemma_refresh_continued(self, pending: PendingView, images: Seq<Seq<u8>>)
        requires
            self.wf(),
            pending.wf(),
        ensures
            ({
                let (later, outcome) = self.refresh_continued(pending, images);
                &&& self.runs_to(later, outcome)
                &&& images.len() >= pending.patience() && pending.patience() > 0 ==> outcome is Done
            }),
        decreases images.len(),
    {
        self.lemma_observed(self.memory);
        if images.len() == 0 {
            assert(self.dynamic_index.names =~= self.dynamic_index.names.subrange(
                0,
                self.dynamic_index.names.len() as int,
            ));
        } else {
            let seen = self.observed(images[0]);
            self.lemma_observed(images[0]);
            seen.law_refresh_resumed(pending);
            let (later, outcome) = seen.refresh_resumed(pending);
            if let RefreshOutcome::Pending(next) = outcome {
                later.lemma_refresh_continued(next, images.skip(1));
                let (last, last_outcome) = later.refresh_continued(next, images.skip(1));
                self.lemma_runs(images[0], later, last, last_outcome);
            }
        }
    }

    /// A refresh keeps the monitor well-formed and all that it knows: no key is lost or moved, and
    /// no logical counter that was bound is bound elsewhere. A failure changes nothing but the
    /// image. A success counts the entries that are new. And a refresh ends within
    /// `MAX_REFRESH_IMAGES` images.
    pub proof fn law_refresh(self, seen: TargetObservation, images: Seq<Seq<u8>>)
        requires
            self.wf(),
            images.len() > 0,
        ensures
            ({
                let (later, outcome) = self.refreshed(seen, images);
                &&& later.wf()
                &&& self.grows_to(later)
                &&& outcome matches RefreshOutcome::Done(Err(_)) ==> later == self.observed(
                    later.memory,
                )
                &&& outcome matches RefreshOutcome::Done(Ok(added))
                    ==> later.dynamic_index.names.len() == self.dynamic_index.names.len() + added
                &&& images.len() >= MAX_REFRESH_IMAGES ==> outcome is Done
            }),
    {
        let first = self.observed(images[0]);
        self.lemma_observed(images[0]);
        first.law_refresh_begun(seen);
        let (later, outcome) = first.refresh_begun(seen);
        let (last, last_outcome) = self.refreshed(seen, images);
        if let RefreshOutcome::Pending(next) = outcome {
            later.lemma_refresh_continued(next, images.skip(1));
            self.lemma_runs(images[0], later, last, last_outcome);
        }
        let shown = self.observed(last.memory);
        assert(shown.grows_to(last));
        assert forall|key: Seq<char>| #[trigger] self.lookup(key) is Some implies last.lookup(key)
            == self.lookup(key) by {
            assert(shown.lookup(key) == self.lookup(key));
        }
    }

    /// Keys that are known stay readable under a handle: what a handle was made for is what its
    /// key leads to after any refresh, so both read the same.
    pub proof fn law_handles_stay_valid(
        self,
        key: Seq<char>,
        seen: TargetObservation,
        images: Seq<Seq<u8>>,
    )
        requires
            self.wf(),
            images.len() > 0,
            self.lookup(key) is Some,
        ensures
            ({
                let later = self.refreshed(seen, images).0;
                &&& later.monitor_id == self.monitor_id
                &&& later.metric(key) == later.value_of(self.lookup(key)->0)
            }),
    {
        self.law_refresh(seen, images);
    }

    /// The key that a logical counter is read under stays the same for good.
    pub proof fn law_resolution_stays(
        self,
        metric: BuiltinLongMetric,
        seen: TargetObservation,
        images: Seq<Seq<u8>>,
    )
        requires
            self.wf(),
            images.len() > 0,
            self.resolution(metric).chosen is Some,
        ensures
            ({
                let later = self.refreshed(seen, images).0;
                later.resolution(metric) == self.resolution(metric)
            }),
    {
        self.law_refresh(seen, images);
        let later = self.refreshed(seen, images).0;
        self.lemma_candidate_stays(
            metric.candidates(),
            later,
            self.offsets[metric.ordinal()]->0,
        );
    }

    /// Whether the latest image holds still, well-formed perfdata that have grown from what the
    /// monitor indexed, and lost nothing.
    pub open spec fn has_grown_to(self, header: PerfHeader, complete: IndexView) -> bool {
        &&& crate::perfdata::snapshot_value(self.memory) == Ok::<(PerfHeader, IndexView), Fault>(
            (header, complete),
        )
        &&& header.is_little_endian == self.is_little_endian
        &&& self.refresh_state.extended_by(header)
        &&& !self.refresh_state.unchanged_in(header)
        &&& self.nothing_lost(complete)
    }

    /// The outcome of a refresh that takes in a complete index.
    pub open spec fn grown(self, header: PerfHeader, complete: IndexView) -> (
        MonitorView,
        RefreshOutcome,
    ) {
        let absorbed = self.absorbed(header, complete);
        (
            absorbed,
            RefreshOutcome::Done(
                Ok(
                    (absorbed.dynamic_index.names.len()
                        - self.dynamic_index.names.len()) as usize,
                ),
            ),
        )
    }

    proof fn lemma_still_capturing(
        self,
        header: PerfHeader,
        complete: IndexView,
        images: Seq<Seq<u8>>,
    )
        requires
            self.has_grown_to(header, complete),
            images.len() >= 2,
            images[0] == self.memory,
            images[1] == self.memory,
        ensures
            self.refresh_continued(PendingView::Capturing(header, CaptureView::fresh()), images)
                == self.grown(header, complete),
    {
        CaptureView::law_two_looks(self.memory);
        assert(self.observed(self.memory) == self);
        let first = PendingView::Capturing(header, CaptureView::fresh());
        if let CaptureOutcome::Pending(taken) = CaptureView::fresh().advance(self.memory) {
            let second = PendingView::Capturing(header, taken);
            let rest = images.skip(1);
            assert(self.refresh_resumed(first) == (self, RefreshOutcome::Pending(second)));
            assert(rest[0] == self.memory);
            assert(self.refresh_resumed(second) == self.grown(header, complete));
            assert(self.refresh_continued(second, rest) == self.grown(header, complete));
        }
    }

    proof fn lemma_still_settling(
        self,
        looks: u8,
        header: PerfHeader,
        complete: IndexView,
        images: Seq<Seq<u8>>,
    )
        requires
            self.has_grown_to(header, complete),
            self.sound_header() == Ok::<PerfHeader, Fault>(header),
            images.len() >= looks + 3,
            forall|i: int| 0 <= i < images.len() ==> #[trigger] images[i] == self.memory,
        ensures
            self.refresh_continued(PendingView::Settling(looks), images) == self.grown(
                header,
                complete,
            ),
        decreases looks,
    {
        assert(self.observed(self.memory) == self);
        assert(images[0] == self.memory);
        let rest = images.skip(1);
        assert forall|i: int| 0 <= i < rest.len() implies #[trigger] rest[i] == self.memory by {
            assert(rest[i] == images[i + 1]);
        }
        if header.modification_timestamp != self.refresh_state.modification_timestamp || looks
            <= 1 {
            self.lemma_still_capturing(header, complete, rest);
        } else {
            self.lemma_still_settling((looks - 1) as u8, header, complete, rest);
        }
    }

    /// A refresh of a live target whose perfdata have grown and now hold still takes in all that
    /// they hold: the monitor then knows just the entries of their index, even where the
    /// modification timestamp is that of the indexed structure.
    pub proof fn law_refresh_publishes(
        self,
        seen: TargetObservation,
        header: PerfHeader,
        complete: IndexView,
    )
        requires
            self.wf(),
            self.live_header(seen) == Ok::<PerfHeader, Fault>(header),
            self.has_grown_to(header, complete),
        ensures
            self.refreshed(seen, Seq::new(MAX_REFRESH_IMAGES as nat, |i: int| self.memory))
                == self.grown(header, complete),
            forall|key: Seq<char>| #[trigger]
                self.absorbed(header, complete).lookup(key) == complete.get(key),
    {
        let images = Seq::new(MAX_REFRESH_IMAGES as nat, |i: int| self.memory);
        assert(self.observed(self.memory) == self);
        let rest = images.skip(1);
        crate::perfdata::law_index_is_complete(self.memory, header);
        self.lemma_absorbed(header, complete);
        assert(images[0] == self.memory);
        if !self.refresh_state.sized_like(header) && header.modification_timestamp
            == self.refresh_state.modification_timestamp {
            self.lemma_still_settling(crate::refresh::SETTLING_LOOKS, header, complete, rest);
        } else {
            self.lemma_still_capturing(header, complete, rest);
        }
    }

    /// A refresh right after a refresh changes nothing where the perfdata held still.
    pub proof fn law_refresh_is_idempotent(
        self,
        seen: TargetObservation,
        header: PerfHeader,
        complete: IndexView,
    )
        requires
            self.wf(),
            self.live_header(seen) == Ok::<PerfHeader, Fault>(header),
            self.has_grown_to(header, complete),
        ensures
            self.absorbed(header, complete).refreshed(
                seen,
                Seq::new(MAX_REFRESH_IMAGES as nat, |i: int| self.memory),
            ) == (self.absorbed(header, complete), RefreshOutcome::Done(Ok(0))),
    {
        let images = Seq::new(MAX_REFRESH_IMAGES as nat, |i: int| self.memory);
        let later = self.absorbed(header, complete);
        crate::perfdata::law_index_is_complete(self.memory, header);
        self.lemma_absorbed(header, complete);
        assert(images[0] == self.memory);
        assert(later.observed(self.memory) == later);
        assert(later.lookup(crate::metrics::frequency_key()) == complete.get(
            crate::metrics::frequency_key(),
        ));
        assert(later.refresh_begun(seen) == later.examined(header));
    }

    /// A structure of the indexed size and timestamp leaves all but the noted overflow, the count
    /// of failures and a timer frequency that was not known as it was.
    pub proof fn law_unchanged_structure(self, seen: TargetObservation, header: PerfHeader)
        requires
            self.live_header(seen) == Ok::<PerfHeader, Fault>(header),
            self.refresh_state.extended_by(header),
            self.refresh_state.unchanged_in(header),
        ensures
            self.refresh_begun(seen).1 == RefreshOutcome::Done(Ok(0)),
            self.refresh_begun(seen).0 == self.timed().noted(header.overflow, 0),
            self.timer_frequency_hz > 0 ==> self.timed() == self,
    {
    }

    /// A target that is gone or was replaced is reported alike by a health check and by a refresh,
    /// and the refresh changes nothing.
    pub proof fn law_gone_target_is_reported(self, seen: TargetObservation)
        requires
            self.target.identity_fault(seen, self.memory.len() as int) is Some,
        ensures
            ({
                let fault = self.target.identity_fault(seen, self.memory.len() as int)->0;
                &&& self.health(seen) == Err::<MonitorHealth, Fault>(fault)
                &&& self.refresh_begun(seen) == (self, RefreshOutcome::Done(Err(fault)))
                &&& seen.path is None ==> fault == Fault::ProcessNotFound(self.target.pid)
            }),
    {
    }

    /// Failures to read a growing structure are excused a limited number of times in a row: each
    /// excuse is counted, and where the count is full the failure is reported.
    pub proof fn law_excuses_run_out(self, fault: Fault)
        requires
            crate::perfdata::mapped_header(self.memory) is Ok,
        ensures
            ({
                let (later, outcome) = self.excused(fault);
                let failures = self.refresh_state.transient_failures;
                &&& outcome == RefreshOutcome::Done(Ok(0)) ==> failures
                    < crate::refresh::MAX_TRANSIENT_FAILURES
                    && later.refresh_state.transient_failures == failures + 1
                &&& failures >= crate::refresh::MAX_TRANSIENT_FAILURES ==> (later, outcome) == (
                    self,
                    RefreshOutcome::Done(Err::<usize, Fault>(fault)),
                )
            }),
    {
    }

    /// A logical counter reads as the key that it was resolved to, and is missing where it was
    /// resolved to none. So a counter that is published as zero is told from one that is not
    /// published.
    pub proof fn law_resolution_tells_what_is_read(self, metric: BuiltinLongMetric)
        requires
            self.wf(),
        ensures
            match self.resolution(metric).chosen {
                Some(chosen) => {
                    &&& metric.candidates().contains(chosen)
                    &&& self.metric(chosen.key) == (match self.builtin(metric) {
                        Some(value) => Some(ValueView::Long(value)),
                        None => None,
                    })
                },
                None => self.builtin(metric) is None,
            },
    {
        assert(self.binding_holds(metric));
        if let Some(offset) = self.offsets[metric.ordinal()] {
            self.lemma_bound_candidate(metric.candidates(), offset);
        }
    }

    proof fn lemma_bound_candidate(self, candidates: Seq<CandidateView>, offset: usize)
        requires
            crate::monitor::bound_candidate(candidates, self, offset) is Some,
        ensures
            candidates.contains(crate::monitor::bound_candidate(candidates, self, offset)->0),
            self.keeps_long_at(
                crate::monitor::bound_candidate(candidates, self, offset)->0.key,
                offset,
            ),
        decreases candidates.len(),
    {
        let chosen = crate::monitor::bound_candidate(candidates, self, offset)->0;
        if self.keeps_long_at(candidates[0].key, offset) {
            assert(candidates[0] == chosen);
        } else {
            self.lemma_bound_candidate(candidates.skip(1), offset);
            let i = candidates.skip(1).index_of(chosen);
            assert(candidates[i + 1] == chosen);
        }
    }

    /// When a monitor connects, each logical counter is resolved to the first of its keys that is
    /// published as a counter, whatever the value, and so to its canonical key where there is one.
    pub proof fn law_first_key_wins(
        monitor_id: usize,
        target: TargetIdentity,
        memory: Seq<u8>,
        header: PerfHeader,
        index: IndexView,
        metric: BuiltinLongMetric,
    )
        ensures
            MonitorView::connected(
                monitor_id,
                target,
                memory,
                header,
                index,
            ).resolution(metric).chosen == first_published(metric.candidates(), index),
    {
        let monitor = MonitorView::connected(monitor_id, target, memory, header, index);
        crate::metrics::lemma_display_order();
        assert(BuiltinLongMetric::ALL@[metric.ordinal()] == metric);
        monitor.lemma_first_published(metric.candidates());
    }

    proof fn lemma_first_published(self, candidates: Seq<CandidateView>)
        requires
            self.dynamic_index == IndexView::empty(),
        ensures
            match crate::metrics::first_long(candidates, self.index) {
                Some(meta) => crate::monitor::bound_candidate(candidates, self, meta.data_offset)
                    == first_published(candidates, self.index) && first_published(
                    candidates,
                    self.index,
                ) is Some,
                None => first_published(candidates, self.index) is None,
            },
        decreases candidates.len(),
    {
        if candidates.len() > 0 {
            self.lemma_first_published(candidates.skip(1));
        }
    }

    /// Whether each counter and each string that the monitor knows lies within its image.
    pub open spec fn values_in_reach(self) -> bool {
        forall|key: Seq<char>| #[trigger]
            self.lookup(key) is Some ==> self.lookup(key)->0.ends_by(self.memory.len() as int)
    }

    /// Whether each logical counter that is bound lies within the image.
    pub open spec fn counters_in_reach(self) -> bool {
        forall|metric: BuiltinLongMetric|
            self.offsets[#[trigger] metric.ordinal()] matches Some(offset) ==> offset + 8
                <= self.memory.len()
    }

    /// A logical counter is resolved to a key if and only if it can be read, and then it reads as
    /// that key, which is one of its candidates.
    pub proof fn law_resolved_counters_can_be_read(self, metric: BuiltinLongMetric)
        requires
            self.wf(),
            self.counters_in_reach(),
        ensures
            self.resolution(metric).metric == metric,
            self.resolution(metric).chosen is Some <==> self.builtin(metric) is Some,
            self.resolution(metric).chosen matches Some(chosen) ==> metric.candidates().contains(
                chosen,
            ) && self.metric(chosen.key) == Some(ValueView::Long(self.builtin(metric)->0)),
    {
        self.law_resolution_tells_what_is_read(metric);
        assert(self.binding_holds(metric));
    }

    /// Where all that a monitor knows lies within its image, all of it can be read, and so can
    /// each logical counter that is bound.
    pub proof fn law_known_values_can_be_read(self)
        requires
            self.wf(),
            self.values_in_reach(),
        ensures
            self.counters_in_reach(),
            forall|key: Seq<char>| #[trigger]
                self.lookup(key) matches Some(meta) ==> (meta.is_long() || meta.is_string())
                    ==> self.metric(key) is Some,
    {
        assert forall|metric: BuiltinLongMetric|
            self.offsets[#[trigger] metric.ordinal()] is Some implies self.offsets[metric.ordinal()]->0
            + 8 <= self.memory.len() by {
            assert(self.binding_holds(metric));
            let offset = self.offsets[metric.ordinal()]->0;
            self.lemma_bound_candidate(metric.candidates(), offset);
            let chosen = crate::monitor::bound_candidate(metric.candidates(), self, offset)->0;
            assert(self.lookup(chosen.key) is Some);
        }
    }

    /// Right after a monitor has connected with images of the length of the mapping, all that it
    /// knows lies within its image.
    pub proof fn law_connected_values_are_in_reach(
        captured: CapturedView,
        memory: Seq<u8>,
        later_start_time: Option<u64>,
    )
        requires
            captured.within(memory.len() as int),
        ensures
            captured.monitor(memory, later_start_time).wf(),
            captured.monitor(memory, later_start_time).values_in_reach(),
    {
        let monitor = captured.monitor(memory, later_start_time);
        MonitorView::lemma_connected(
            captured.monitor_id,
            captured.settled_target(later_start_time),
            memory,
            captured.header,
            captured.index,
        );
        assert forall|key: Seq<char>| #[trigger] monitor.lookup(key) is Some implies monitor.lookup(
            key,
        )->0.ends_by(memory.len() as int) by {
            assert(captured.index.entries.contains_key(key));
        }
    }

    /// A later image of the same mapping keeps all that is known, and each counter that is bound,
    /// within reach.
    pub proof fn law_later_images_keep_values_in_reach(self, image: Seq<u8>)
        requires
            image.len() == self.memory.len(),
        ensures
            self.values_in_reach() ==> self.observed(image).values_in_reach(),
            self.counters_in_reach() ==> self.observed(image).counters_in_reach(),
    {
        let later = self.observed(image);
        assert forall|key: Seq<char>| #[trigger] later.lookup(key) == self.lookup(key) by {}
    }

    /// Whether a state keeps within reach what another one, which has an image of the same
    /// length, has there.
    pub open spec fn keeps_reach(self, later: MonitorView) -> bool {
        &&& later.memory.len() == self.memory.len()
        &&& self.values_in_reach() ==> later.values_in_reach()
        &&& self.counters_in_reach() ==> later.counters_in_reach()
    }

    proof fn lemma_same_structure_keeps_reach(self, later: MonitorView)
        requires
            later.memory.len() == self.memory.len(),
            later.index == self.index,
            later.dynamic_index == self.dynamic_index,
            later.offsets == self.offsets,
        ensures
            self.keeps_reach(later),
    {
        assert forall|key: Seq<char>| #[trigger] later.lookup(key) == self.lookup(key) by {}
    }

    proof fn lemma_absorbed_reach(self, header: PerfHeader, complete: IndexView)
        requires
            self.wf(),
            complete.wf(),
            complete.longs_apart(),
            complete.values_within(header.used as int),
            self.nothing_lost(complete),
            header.used <= self.memory.len(),
        ensures
            self.keeps_reach(self.absorbed(header, complete)),
    {
        let later = self.absorbed(header, complete);
        self.lemma_absorbed(header, complete);
        assert forall|key: Seq<char>| #[trigger] later.lookup(key) is Some implies later.lookup(
            key,
        )->0.ends_by(later.memory.len() as int) by {
            assert(later.lookup(key) == complete.get(key));
            assert(complete.entries.contains_key(key));
        }
        later.law_known_values_can_be_read();
    }

    proof fn lemma_resumed_reach(self, pending: PendingView)
        requires
            self.wf(),
            pending.wf(),
            pending.within(self.memory.len() as int),
        ensures
            self.keeps_reach(self.refresh_resumed(pending).0),
            self.refresh_resumed(pending).1 matches RefreshOutcome::Pending(next) ==> next.within(
                self.memory.len() as int,
            ),
    {
        let later = self.refresh_resumed(pending).0;
        if let PendingView::Capturing(current, capture) = pending {
            capture.lemma_advance(self.memory);
            capture.lemma_within(self.memory);
            if let CaptureOutcome::Done(Ok((header, complete))) = capture.advance(self.memory) {
                if self.nothing_lost(complete) && later == self.absorbed(header, complete) {
                    self.lemma_absorbed_reach(header, complete);
                } else {
                    self.lemma_same_structure_keeps_reach(later);
                }
            } else {
                self.lemma_same_structure_keeps_reach(later);
            }
        } else {
            self.lemma_same_structure_keeps_reach(later);
        }
    }

    proof fn lemma_continued_reach(self, pending: PendingView, images: Seq<Seq<u8>>)
        requires
            self.wf(),
            pending.wf(),
            pending.within(self.memory.len() as int),
            forall|i: int|
                0 <= i < images.len() ==> (#[trigger] images[i]).len() == self.memory.len(),
        ensures
            self.keeps_reach(self.refresh_continued(pending, images).0),
        decreases images.len(),
    {
        if images.len() > 0 {
            let seen = self.observed(images[0]);
            self.lemma_observed(images[0]);
            self.lemma_same_structure_keeps_reach(seen);
            seen.law_refresh_resumed(pending);
            seen.lemma_resumed_reach(pending);
            let (later, outcome) = seen.refresh_resumed(pending);
            if let RefreshOutcome::Pending(next) = outcome {
                let rest = images.skip(1);
                assert forall|i: int| 0 <= i < rest.len() implies (#[trigger] rest[i]).len()
                    == later.memory.len() by {
                    assert(rest[i] == images[i + 1]);
                }
                later.lemma_continued_reach(next, rest);
            }
        }
    }

    /// A refresh whose images have the length of the mapping keeps all that is known, and each
    /// counter that is bound, within reach, whatever comes of it.
    pub proof fn law_refresh_keeps_values_in_reach(
        self,
        seen: TargetObservation,
        images: Seq<Seq<u8>>,
    )
        requires
            self.wf(),
            images.len() > 0,
            forall|i: int|
                0 <= i < images.len() ==> (#[trigger] images[i]).len() == self.memory.len(),
        ensures
            self.keeps_reach(self.refreshed(seen, images).0),
    {
        let first = self.observed(images[0]);
        self.lemma_observed(images[0]);
        self.lemma_same_structure_keeps_reach(first);
        first.law_refresh_begun(seen);
        let (later, outcome) = first.refresh_begun(seen);
        first.lemma_same_structure_keeps_reach(later);
        if let RefreshOutcome::Pending(next) = outcome {
            let rest = images.skip(1);
            assert forall|i: int| 0 <= i < rest.len() implies (#[trigger] rest[i]).len()
                == later.memory.len() by {
                assert(rest[i] == images[i + 1]);
            }
            later.lemma_continued_reach(next, rest);
        }
    }

    /// The entry that a refresh reports as removed or relocated was known, and the complete index
    /// lacks it or keeps it elsewhere.
    pub proof fn law_reported_entry_is_lost(self, complete: IndexView)
        requires
            self.wf(),
        ensures
            self.index.first_lost(complete) matches Some(name) ==> self.lookup(name) is Some
                && complete.get(name) != self.lookup(name),
            self.dynamic_index.first_lost(complete) matches Some(name) ==> self.lookup(name) is Some
                && complete.get(name) != self.lookup(name),
    {
        if self.index.first_lost(complete) is Some {
            self.index.lemma_lost(complete, 0);
        }
        if let Some(name) = self.dynamic_index.first_lost(complete) {
            self.dynamic_index.lemma_lost(complete, 0);
            assert(self.dynamic_index.entries.contains_key(name));
        }
    }
}

/// The first candidate that an index holds as a 64-bit counter.
pub open spec fn first_published(candidates: Seq<CandidateView>, index: IndexView) -> Option<
    CandidateView,
>
    decreases candidates.len(),
{
    if candidates.len() == 0 {
        None
    } else if index.get(candidates[0].key) matches Some(meta) && meta.is_long() {
        Some(candidates[0])
    } else {
        first_published(candidates.skip(1), index)
    }
}

/// What can happen to a monitor.
pub enum Event {
    /// It is shown a later image, by itself or in a health check.
    Observe(Seq<u8>),
    /// A refresh starts.
    Refresh(TargetObservation, Seq<u8>),
    /// A refresh that has paused goes on.
    Resume(Seq<u8>),
}

impl Event {
    /// The image that comes with the event.
    pub open spec fn image(self) -> Seq<u8> {
        match self {
            Event::Observe(image) => image,
            Event::Refresh(_, image) => image,
            Event::Resume(image) => image,
        }
    }
}

/// A monitor, and the refresh that has paused, if there is one.
pub struct Life {
    pub monitor: MonitorView,
    pub pending: Option<PendingView>,
}

impl Life {
    /// What the outcome of a step of a refresh leaves.
    pub open spec fn stepped(step: (MonitorView, RefreshOutcome)) -> Life {
        Life {
            monitor: step.0,
            pending: match step.1 {
                RefreshOutcome::Pending(pending) => Some(pending),
                RefreshOutcome::Done(_) => None,
            },
        }
    }

    /// What one event leaves.
    pub open spec fn after(self, event: Event) -> Life {
        match event {
            Event::Observe(image) => Life { monitor: self.monitor.observed(image), ..self },
            Event::Refresh(seen, image) => Life::stepped(
                self.monitor.observed(image).refresh_begun(seen),
            ),
            Event::Resume(image) => match self.pending {
                Some(pending) => Life::stepped(
                    self.monitor.observed(image).refresh_resumed(pending),
                ),
                None => self,
            },
        }
    }

    /// What a number of events leave, one after the other.
    pub open spec fn lived(self, events: Seq<Event>) -> Life
        decreases events.len(),
    {
        if events.len() == 0 {
            self
        } else {
            self.after(events[0]).lived(events.skip(1))
        }
    }

    /// Whether the monitor is well-formed and all that it knows, and all that its refresh has
    /// taken down, lies within a mapping of the given length.
    pub open spec fn within(self, len: int) -> bool {
        &&& self.monitor.wf()
        &&& self.monitor.memory.len() == len
        &&& self.monitor.values_in_reach()
        &&& self.pending matches Some(pending) ==> pending.wf() && pending.within(len)
    }

    proof fn lemma_after(self, event: Event, len: int)
        requires
            self.within(len),
            event.image().len() == len,
        ensures
            self.after(event).within(len),
    {
        let seen = self.monitor.observed(event.image());
        self.monitor.lemma_observed(event.image());
        self.monitor.lemma_same_structure_keeps_reach(seen);
        match event {
            Event::Observe(_) => {},
            Event::Refresh(target, _) => {
                seen.law_refresh_begun(target);
                seen.lemma_same_structure_keeps_reach(seen.refresh_begun(target).0);
            },
            Event::Resume(_) => {
                if let Some(pending) = self.pending {
                    seen.law_refresh_resumed(pending);
                    seen.lemma_resumed_reach(pending);
                }
            },
        }
    }

    /// Whatever happens to a monitor whose images are those of one mapping, it stays well-formed,
    /// and all that it knows stays within reach.
    pub proof fn law_life_stays_within(self, events: Seq<Event>, len: int)
        requires
            self.within(len),
            forall|i: int| 0 <= i < events.len() ==> (#[trigger] events[i]).image().len() == len,
        ensures
            self.lived(events).within(len),
        decreases events.len(),
    {
        if events.len() > 0 {
            self.lemma_after(events[0], len);
            let rest = events.skip(1);
            assert forall|i: int| 0 <= i < rest.len() implies (#[trigger] rest[i]).image().len()
                == len by {
                assert(rest[i] == events[i + 1]);
            }
            self.after(events[0]).law_life_stays_within(rest, len);
        }
    }
}

/// Of every monitor that was connected, whatever happened to it since, with images of one mapping:
/// a logical counter is resolved to a key if and only if it can be read. The key is one of its
/// candidates and reads as the counter. And every counter and every string that the monitor knows
/// can be read.
pub proof fn law_every_monitor_reads_what_it_resolves(
    connecting: ConnectView,
    looks: Seq<Look>,
    memory: Seq<u8>,
    later_start_time: Option<u64>,
    events: Seq<Event>,
    metric: BuiltinLongMetric,
)
    requires
        connecting.capture is None,
        connecting.after(looks) is Captured,
        forall|i: int|
            0 <= i < looks.len() ==> (#[trigger] looks[i]).image.len() == memory.len(),
        forall|i: int|
            0 <= i < events.len() ==> (#[trigger] events[i]).image().len() == memory.len(),
    ensures
        ({
            let captured = connecting.after(looks)->Captured_0;
            let start = Life { monitor: captured.monitor(memory, later_start_time), pending: None };
            let monitor = start.lived(events).monitor;
            &&& monitor.wf()
            &&& monitor.resolution(metric).metric == metric
            &&& monitor.resolution(metric).chosen is Some <==> monitor.builtin(metric) is Some
            &&& monitor.resolution(metric).chosen matches Some(chosen)
                ==> metric.candidates().contains(chosen) && monitor.metric(chosen.key) == Some(
                ValueView::Long(monitor.builtin(metric)->0),
            )
            &&& forall|key: Seq<char>| #[trigger]
                monitor.lookup(key) matches Some(meta) ==> (meta.is_long() || meta.is_string())
                    ==> monitor.metric(key) is Some
        }),
{
    let captured = connecting.after(looks)->Captured_0;
    let start = Life { monitor: captured.monitor(memory, later_start_time), pending: None };
    connecting.law_captured_within(looks, memory.len() as int);
    MonitorView::law_connected_values_are_in_reach(captured, memory, later_start_time);
    start.law_life_stays_within(events, memory.len() as int);
    let monitor = start.lived(events).monitor;
    monitor.law_known_values_can_be_read();
    monitor.law_resolved_counters_can_be_read(metric);
}

} // verus!
