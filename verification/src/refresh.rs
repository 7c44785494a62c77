//! Keeping a monitor up to date: checking that its target is alive and taking in the counters that
//! were published since the perfdata were last indexed.
//!
//! The JVM raises the counts of used bytes and of entries before it has finished to write a new
//! entry, and touches the modification timestamp last. A refresh therefore looks at several images
//! of the mapping. The caller takes them and hands them over one by one.

use vstd::prelude::*;
use vstd::string::*;

use crate::capture::{Capture, CaptureOutcome, CaptureProgress, CaptureView};
use crate::connect::CAPTURE_RETRY_MILLIS;
use crate::error::{invalid, Fault, JvmMonitorError};
use crate::index::{IndexView, PerfIndex};
use crate::monitor::{JvmMonitor, MonitorHealth, MonitorView, RefreshState};
use crate::perfdata::{PerfHeader, PerfMemory};
use crate::target::TargetObservation;

verus! {

/// How many more images a refresh looks at while it waits for the modification timestamp.
pub const SETTLING_LOOKS: u8 = 5;

/// How many refreshes in a row may fail to read a growing structure before the failure is reported.
pub const MAX_TRANSIENT_FAILURES: u8 = 3;

/// What a refresh waits for.
pub enum PendingRefresh {
    /// The modification timestamp of a structure that has grown, for a few more images.
    Settling(u8),
    /// The index, the structure having changed to that of the given prologue.
    Capturing(PerfHeader, Capture),
    /// One more look after a capture that failed.
    Failed(JvmMonitorError),
}

/// Where a refresh stands after an image.
pub enum RefreshProgress {
    /// It has ended. A success counts the newly indexed counters.
    Done(Result<usize, JvmMonitorError>),
    /// It needs another image.
    Pending(PendingRefresh),
}

/// What a refresh waits for.
pub enum PendingView {
    Settling(u8),
    Capturing(PerfHeader, CaptureView),
    Failed(Fault),
}

/// Where a refresh stands after an image.
pub enum RefreshOutcome {
    Done(Result<usize, Fault>),
    Pending(PendingView),
}

impl View for PendingRefresh {
    type V = PendingView;

    open spec fn view(&self) -> PendingView {
        match *self {
            PendingRefresh::Settling(looks) => PendingView::Settling(looks),
            PendingRefresh::Capturing(current, capture) => PendingView::Capturing(
                current,
                capture@,
            ),
            PendingRefresh::Failed(error) => PendingView::Failed(error@),
        }
    }
}

impl View for RefreshProgress {
    type V = RefreshOutcome;

    open spec fn view(&self) -> RefreshOutcome {
        match *self {
            RefreshProgress::Done(Ok(added)) => RefreshOutcome::Done(Ok(added)),
            RefreshProgress::Done(Err(error)) => RefreshOutcome::Done(Err(error@)),
            RefreshProgress::Pending(pending) => RefreshOutcome::Pending(pending@),
        }
    }
}

impl RefreshState {
    /// Whether a structure is neither smaller than the indexed one nor starts elsewhere.
    pub open spec fn extended_by(self, header: PerfHeader) -> bool {
        header.entry_offset == self.entry_offset && header.used >= self.used && header.num_entries
            >= self.num_entries
    }

    /// Whether a structure has the size of the indexed one.
    pub open spec fn sized_like(self, header: PerfHeader) -> bool {
        header.used == self.used && header.num_entries == self.num_entries
    }

    /// Whether a structure has the size and the modification timestamp of the indexed one.
    pub open spec fn unchanged_in(self, header: PerfHeader) -> bool {
        self.sized_like(header) && header.modification_timestamp == self.modification_timestamp
    }

    fn is_extended_by(&self, header: &PerfHeader) -> (extended: bool)
        ensures
            extended == self.extended_by(*header),
    {
        header.entry_offset == self.entry_offset && header.used >= self.used && header.num_entries
            >= self.num_entries
    }

    fn is_unchanged_in(&self, header: &PerfHeader) -> (unchanged: bool)
        ensures
            unchanged == self.unchanged_in(*header),
    {
        header.used == self.used && header.num_entries == self.num_entries
            && header.modification_timestamp == self.modification_timestamp
    }
}

/// The error of a structure that has become smaller or has moved.
pub open spec fn moved_backwards(when: Seq<char>) -> Fault {
    crate::perfdata::rejection("perfdata structure moved backwards "@ + when)
}

/// The error of perfdata whose byte order has changed.
pub open spec fn byte_order_changed() -> Fault {
    crate::perfdata::rejection("perfdata byte order changed after connection"@)
}

/// The error of an entry that is gone or has moved.
pub open spec fn entry_lost(kind: Seq<char>, name: Seq<char>) -> Fault {
    crate::perfdata::rejection(kind + " perfdata entry "@ + name + " was removed or relocated"@)
}

/// Rejects a structure that has become smaller or has moved.
fn reject_moved_backwards(when: &str) -> (error: JvmMonitorError)
    ensures
        error@ == moved_backwards(when@),
{
    invalid("perfdata structure moved backwards ".to_owned().concat(when))
}

/// Rejects an index that lost an entry.
fn reject_lost_entry(kind: &str, name: &str) -> (error: JvmMonitorError)
    ensures
        error@ == entry_lost(kind@, name@),
{
    invalid(
        kind.to_owned().concat(" perfdata entry ").concat(name).concat(
            " was removed or relocated",
        ),
    )
}

impl MonitorView {
    /// The prologue of the latest image, where its layout is sound.
    pub open spec fn sound_header(self) -> Result<PerfHeader, Fault> {
        match crate::perfdata::mapped_header(self.memory) {
            Err(fault) => Err(fault),
            Ok(header) => match header.layout_fault(self.memory.len() as int) {
                Some(fault) => Err(fault),
                None => Ok(header),
            },
        }
    }

    /// The prologue of the latest image, where the target is as seen, and alive.
    pub open spec fn live_header(self, seen: TargetObservation) -> Result<PerfHeader, Fault> {
        match self.target.identity_fault(seen, self.memory.len() as int) {
            Some(fault) => Err(fault),
            None => match self.sound_header() {
                Err(fault) => Err(fault),
                Ok(header) => if !header.accessible {
                    Err(self.target.gone())
                } else {
                    Ok(header)
                },
            },
        }
    }

    /// The health that a prologue shows.
    pub open spec fn health(self, seen: TargetObservation) -> Result<MonitorHealth, Fault> {
        match self.live_header(seen) {
            Err(fault) => Err(fault),
            Ok(header) => if header.is_little_endian != self.is_little_endian {
                Err(byte_order_changed())
            } else if !self.refresh_state.extended_by(header) {
                Err(moved_backwards("after connection"@))
            } else {
                Ok(
                    MonitorHealth {
                        pid: self.target.pid,
                        overflow_bytes: header.overflow,
                        num_entries: header.num_entries,
                        modification_timestamp: header.modification_timestamp,
                    },
                )
            },
        }
    }

    /// A monitor that has noted an overflow and a number of failures in a row.
    pub open spec fn noted(self, overflow: u32, transient_failures: u8) -> MonitorView {
        MonitorView {
            refresh_state: RefreshState { overflow, transient_failures, ..self.refresh_state },
            ..self
        }
    }

    /// A monitor that has read the timer's frequency, where it did not know it.
    pub open spec fn timed(self) -> MonitorView {
        MonitorView {
            timer_frequency_hz: if self.timer_frequency_hz == 0 {
                crate::metrics::frequency_value(
                    self.memory,
                    self.lookup(crate::metrics::frequency_key()),
                    self.is_little_endian,
                )
            } else {
                self.timer_frequency_hz
            },
            ..self
        }
    }

    /// A structure that has settled: where it is the indexed one there is nothing to do, else it
    /// is captured.
    pub open spec fn examined(self, current: PerfHeader) -> (MonitorView, RefreshOutcome) {
        if !self.refresh_state.extended_by(current) {
            (self, RefreshOutcome::Done(Err(moved_backwards("during refresh"@))))
        } else if self.refresh_state.unchanged_in(current) {
            (self.timed().noted(current.overflow, 0), RefreshOutcome::Done(Ok(0)))
        } else {
            (self, RefreshOutcome::Pending(PendingView::Capturing(current, CaptureView::fresh())))
        }
    }

    /// A refresh after its first image, which is the latest one.
    pub open spec fn refresh_begun(self, seen: TargetObservation) -> (MonitorView, RefreshOutcome) {
        match self.live_header(seen) {
            Err(fault) => (self, RefreshOutcome::Done(Err(fault))),
            Ok(current) => if !self.refresh_state.extended_by(current) {
                (self, RefreshOutcome::Done(Err(moved_backwards("after connection"@))))
            } else if !self.refresh_state.sized_like(current) && current.modification_timestamp
                == self.refresh_state.modification_timestamp {
                (self, RefreshOutcome::Pending(PendingView::Settling(SETTLING_LOOKS)))
            } else {
                self.examined(current)
            },
        }
    }

    /// A refresh that waited for the modification timestamp, after the latest image.
    pub open spec fn settled(self, looks: u8) -> (MonitorView, RefreshOutcome) {
        match self.sound_header() {
            Err(fault) => (self, RefreshOutcome::Done(Err(fault))),
            Ok(current) => if current.modification_timestamp
                != self.refresh_state.modification_timestamp || looks <= 1 {
                self.examined(current)
            } else {
                (self, RefreshOutcome::Pending(PendingView::Settling((looks - 1) as u8)))
            },
        }
    }

    /// A complete index: it is taken in unless it was published under the timestamp of another
    /// structure, or lost what was known.
    pub open spec fn judged(
        self,
        current: PerfHeader,
        header: PerfHeader,
        complete: IndexView,
    ) -> (MonitorView, RefreshOutcome) {
        if header.modification_timestamp == current.modification_timestamp && (header.used
            != current.used || header.num_entries != current.num_entries) {
            (
                self.noted(header.overflow, self.refresh_state.transient_failures),
                RefreshOutcome::Done(Ok(0)),
            )
        } else if header.is_little_endian != self.is_little_endian {
            (self, RefreshOutcome::Done(Err(byte_order_changed())))
        } else if let Some(name) = self.index.first_lost(complete) {
            (self, RefreshOutcome::Done(Err(entry_lost("existing"@, name))))
        } else if let Some(name) = self.dynamic_index.first_lost(complete) {
            (self, RefreshOutcome::Done(Err(entry_lost("dynamic"@, name))))
        } else {
            let absorbed = self.absorbed(header, complete);
            (
                absorbed,
                RefreshOutcome::Done(
                    Ok(
                        (absorbed.dynamic_index.names.len()
                            - self.dynamic_index.names.len()) as usize,
                    ),
                ),
            )
        }
    }

    /// A capture that failed, after the latest image: a structure that is still growing excuses
    /// it a few times in a row.
    pub open spec fn excused(self, fault: Fault) -> (MonitorView, RefreshOutcome) {
        match crate::perfdata::mapped_header(self.memory) {
            Err(fault) => (self, RefreshOutcome::Done(Err(fault))),
            Ok(after) => if self.refresh_state.extended_by(after)
                && !self.refresh_state.unchanged_in(after)
                && self.refresh_state.transient_failures < MAX_TRANSIENT_FAILURES {
                (
                    self.noted(
                        after.overflow,
                        (self.refresh_state.transient_failures + 1) as u8,
                    ),
                    RefreshOutcome::Done(Ok(0)),
                )
            } else {
                (self, RefreshOutcome::Done(Err(fault)))
            },
        }
    }

    /// A refresh that waited for something, after the latest image.
    pub open spec fn refresh_resumed(self, pending: PendingView) -> (MonitorView, RefreshOutcome) {
        match pending {
            PendingView::Settling(looks) => self.settled(looks),
            PendingView::Capturing(current, capture) => match capture.advance(self.memory) {
                CaptureOutcome::Pending(capture) => (
                    self,
                    RefreshOutcome::Pending(PendingView::Capturing(current, capture)),
                ),
                CaptureOutcome::Done(Ok((header, complete))) => self.judged(
                    current,
                    header,
                    complete,
                ),
                CaptureOutcome::Done(Err(fault)) => (
                    self,
                    RefreshOutcome::Pending(PendingView::Failed(fault)),
                ),
            },
            PendingView::Failed(fault) => self.excused(fault),
        }
    }

    /// The monitor with a later image.
    pub open spec fn observed(self, image: Seq<u8>) -> MonitorView {
        MonitorView { memory: image, ..self }
    }
}

impl PendingView {
    /// How many milliseconds to wait before the next image.
    pub open spec fn pause(self) -> u64 {
        match self {
            PendingView::Capturing(_, capture) => capture.pause(),
            _ => 0,
        }
    }

    /// Whether the JVM should be given a chance to run before the next image.
    pub open spec fn yields(self) -> bool {
        self is Settling
    }
}

impl PendingRefresh {
    /// How many milliseconds to wait before the next image.
    pub fn pause_millis(&self) -> (millis: u64)
        ensures
            millis == (match self@ {
                PendingView::Capturing(_, capture) => if capture.taken is None
                    && capture.attempts_left < crate::capture::MAX_CAPTURE_ATTEMPTS {
                    CAPTURE_RETRY_MILLIS
                } else {
                    0
                },
                _ => 0,
            }),
            millis == self@.pause(),
    {
        match self {
            PendingRefresh::Capturing(_, capture) => if capture.is_retry() {
                CAPTURE_RETRY_MILLIS
            } else {
                0
            },
            _ => 0,
        }
    }

    /// Whether the JVM should be given a chance to run before the next image.
    pub fn should_yield(&self) -> (yields: bool)
        ensures
            yields == (self@ is Settling),
            yields == self@.yields(),
    {
        match self {
            PendingRefresh::Settling(_) => true,
            _ => false,
        }
    }
}

impl JvmMonitor {
    /// Reads the prologue of the latest image and checks its layout.
    fn sound_header(&self) -> (header: Result<PerfHeader, JvmMonitorError>)
        ensures
            match header {
                Ok(header) => self@.sound_header() == Ok::<PerfHeader, Fault>(header),
                Err(error) => self@.sound_header() == Err::<PerfHeader, Fault>(error@),
            },
    {
        let header: PerfHeader = match self.header() {
            Ok(header) => header,
            Err(error) => return Err(error),
        };
        match header.validate_layout(self.mapping_len()) {
            Ok(_) => Ok(header),
            Err(error) => Err(error),
        }
    }

    /// Checks that the target is as seen and alive, and reads the prologue of the latest image.
    fn live_header(&self, seen: TargetObservation) -> (header: Result<PerfHeader, JvmMonitorError>)
        ensures
            match header {
                Ok(header) => self@.live_header(seen) == Ok::<PerfHeader, Fault>(header),
                Err(error) => self@.live_header(seen) == Err::<PerfHeader, Fault>(error@),
            },
    {
        match self.target().validate(seen, self.mapping_len()) {
            Ok(_) => {},
            Err(error) => return Err(error),
        }
        let header: PerfHeader = match self.sound_header() {
            Ok(header) => header,
            Err(error) => return Err(error),
        };
        if !header.accessible {
            return Err(JvmMonitorError::ProcessNotFound(self.pid()));
        }
        Ok(header)
    }

    /// Validates that the mapped file still belongs to the connected JVM and returns the current
    /// hsperfdata prologue health.
    ///
    /// `seen` is what the file system shows of the target, and `image` the latest image of the
    /// mapping. Call it once per sampling cycle or on a slower health cadence, not once per
    /// individual metric.
    pub fn check_health(&mut self, seen: TargetObservation, image: PerfMemory) -> (health: Result<
        MonitorHealth,
        JvmMonitorError,
    >)
        ensures
            final(self)@ == old(self)@.observed(image@),
            final(self)@.wf(),
            match health {
                Ok(health) => final(self)@.health(seen) == Ok::<MonitorHealth, Fault>(health),
                Err(error) => final(self)@.health(seen) == Err::<MonitorHealth, Fault>(error@),
            },
    {
        self.observe(image);
        let header: PerfHeader = match self.live_header(seen) {
            Ok(header) => header,
            Err(error) => return Err(error),
        };
        if header.is_little_endian != self.is_little_endian() {
            return Err(invalid("perfdata byte order changed after connection".to_owned()));
        }
        if !self.refresh_state().is_extended_by(&header) {
            return Err(reject_moved_backwards("after connection"));
        }
        Ok(
            MonitorHealth {
                pid: self.pid(),
                overflow_bytes: header.overflow,
                num_entries: header.num_entries,
                modification_timestamp: header.modification_timestamp,
            },
        )
    }

    /// Goes on with a structure that has settled.
    fn examine(&mut self, current: PerfHeader) -> (progress: RefreshProgress)
        requires
            old(self)@.wf(),
        ensures
            (final(self)@, progress@) == old(self)@.examined(current),
            final(self)@.wf(),
    {
        let state: RefreshState = self.refresh_state();
        if !state.is_extended_by(&current) {
            return RefreshProgress::Done(Err(reject_moved_backwards("during refresh")));
        }
        if state.is_unchanged_in(&current) {
            self.pick_up_frequency();
            self.note(current.overflow, 0);
            return RefreshProgress::Done(Ok(0));
        }
        RefreshProgress::Pending(PendingRefresh::Capturing(current, Capture::new()))
    }

    /// Checks target health and starts to publish the counters that were appended since the
    /// perfdata were last indexed.
    ///
    /// `seen` is what the file system shows of the target, and `image` the latest image of the
    /// mapping. A success counts the newly indexed counters. Existing HotSpot entries are
    /// append-only; a removed or relocated entry is treated as corruption rather than silently
    /// replacing a live offset.
    pub fn refresh(&mut self, seen: TargetObservation, image: PerfMemory) -> (progress:
        RefreshProgress)
        ensures
            (final(self)@, progress@) == old(self)@.observed(image@).refresh_begun(seen),
            final(self)@.wf(),
    {
        self.observe(image);
        let current: PerfHeader = match self.live_header(seen) {
            Ok(header) => header,
            Err(error) => return RefreshProgress::Done(Err(error)),
        };
        let state: RefreshState = self.refresh_state();
        if !state.is_extended_by(&current) {
            return RefreshProgress::Done(Err(reject_moved_backwards("after connection")));
        }
        if (current.used != state.used || current.num_entries != state.num_entries)
            && current.modification_timestamp == state.modification_timestamp {
            return RefreshProgress::Pending(PendingRefresh::Settling(SETTLING_LOOKS));
        }
        self.examine(current)
    }

    /// Goes on with a refresh that has asked for another image.
    pub fn resume_refresh(&mut self, pending: PendingRefresh, image: PerfMemory) -> (progress:
        RefreshProgress)
        ensures
            (final(self)@, progress@) == old(self)@.observed(image@).refresh_resumed(pending@),
            final(self)@.wf(),
    {
        match pending {
            PendingRefresh::Settling(looks) => {
                self.observe(image);
                let current: PerfHeader = match self.sound_header() {
                    Ok(header) => header,
                    Err(error) => return RefreshProgress::Done(Err(error)),
                };
                if current.modification_timestamp != self.refresh_state().modification_timestamp
                    || looks <= 1 {
                    self.examine(current)
                } else {
                    RefreshProgress::Pending(PendingRefresh::Settling(looks - 1))
                }
            },
            PendingRefresh::Capturing(current, capture) => {
                let captured: CaptureProgress = capture.advance(&image);
                self.observe(image);
                match captured {
                    CaptureProgress::Pending(capture) => RefreshProgress::Pending(
                        PendingRefresh::Capturing(current, capture),
                    ),
                    CaptureProgress::Done(Ok((header, complete))) => self.judge(
                        current,
                        header,
                        complete,
                    ),
                    CaptureProgress::Done(Err(error)) => RefreshProgress::Pending(
                        PendingRefresh::Failed(error),
                    ),
                }
            },
            PendingRefresh::Failed(error) => {
                self.observe(image);
                self.excuse(error)
            },
        }
    }

    /// Takes a complete index in, unless it was published under the timestamp of another
    /// structure, or lost what was known.
    fn judge(&mut self, current: PerfHeader, header: PerfHeader, complete: PerfIndex) -> (progress:
        RefreshProgress)
        requires
            old(self)@.wf(),
            complete@.wf(),
            complete@.longs_apart(),
        ensures
            (final(self)@, progress@) == old(self)@.judged(current, header, complete@),
            final(self)@.wf(),
    {
        if header.modification_timestamp == current.modification_timestamp && (header.used
            != current.used || header.num_entries != current.num_entries) {
            let failures: u8 = self.refresh_state().transient_failures;
            self.note(header.overflow, failures);
            return RefreshProgress::Done(Ok(0));
        }
        if header.is_little_endian != self.is_little_endian() {
            return RefreshProgress::Done(
                Err(invalid("perfdata byte order changed after connection".to_owned())),
            );
        }
        if let Some(name) = self.find_lost_entry(&complete) {
            return RefreshProgress::Done(Err(reject_lost_entry("existing", &name)));
        }
        if let Some(name) = self.find_lost_dynamic_entry(&complete) {
            return RefreshProgress::Done(Err(reject_lost_entry("dynamic", &name)));
        }
        let added: usize = self.absorb(&header, &complete);
        RefreshProgress::Done(Ok(added))
    }

    /// Excuses a capture that failed, where the structure is still growing.
    fn excuse(&mut self, error: JvmMonitorError) -> (progress: RefreshProgress)
        requires
            old(self)@.wf(),
        ensures
            (final(self)@, progress@) == old(self)@.excused(error@),
            final(self)@.wf(),
    {
        let after: PerfHeader = match self.header() {
            Ok(header) => header,
            Err(error) => return RefreshProgress::Done(Err(error)),
        };
        let state: RefreshState = self.refresh_state();
        if state.is_extended_by(&after) && !state.is_unchanged_in(&after)
            && state.transient_failures < MAX_TRANSIENT_FAILURES {
            self.note(after.overflow, state.transient_failures + 1);
            return RefreshProgress::Done(Ok(0));
        }
        RefreshProgress::Done(Err(error))
    }
}

} // verus!
