//! What becomes of a monitor when its target changes, field by field.

use vstd::prelude::*;

use crate::capture::{CaptureOutcome, CaptureView};
use crate::connect::{CapturedView, ConnectOutcome, ConnectView};
use crate::error::Fault;
use crate::index::IndexView;
use crate::monitor::{MonitorHealth, MonitorView, ValueView};
use crate::perfdata::PerfHeader;
use crate::refresh::{PendingView, RefreshOutcome};
use crate::target::{FileIdentity, FileKey, TargetIdentity, TargetObservation};

verus! {

/// Files of one length are the same where device and inode are, or where the times of creation
/// are. A time of creation that was not known at first tells no files apart.
pub proof fn law_files_are_told_apart(first: FileIdentity, later: FileIdentity)
    ensures
        first.len != later.len ==> !first.same_file(later),
        first.len == later.len ==> match (first.key, later.key) {
            (
                FileKey::Inode { device, inode },
                FileKey::Inode { device: later_device, inode: later_inode },
            ) => first.same_file(later) <==> device == later_device && inode == later_inode,
            (FileKey::Created { at: None }, _) => first.same_file(later),
            (FileKey::Created { at: Some(time) }, FileKey::Created { at: Some(later_time) }) =>
            first.same_file(later) <==> time == later_time,
            _ => !first.same_file(later),
        },
{
}

/// Whether what is seen shows a process that started when the target did, where that is known, and
/// its file under the path and open, the latter as long as the mapping.
pub open spec fn shows_target(
    target: TargetIdentity,
    seen: TargetObservation,
    mapping_len: int,
) -> bool {
    &&& target.start_time matches Some(time) ==> seen.start_time == Some(time)
    &&& seen.path matches Some(path) && target.file.same_file(path)
    &&& seen.file matches Ok(file) && target.file.same_file(file) && file.len == mapping_len
}

/// A target that is seen as it was is not at fault. Any other is gone, but for one whose open file
/// cannot be looked at: that failure is reported, unless the process or the path is another.
pub proof fn law_target_is_recognised(
    target: TargetIdentity,
    seen: TargetObservation,
    mapping_len: int,
)
    ensures
        target.identity_fault(seen, mapping_len) is None <==> shows_target(
            target,
            seen,
            mapping_len,
        ),
        target.identity_fault(seen, mapping_len) matches Some(fault) ==> fault
            == Fault::ProcessNotFound(target.pid) || (seen.file matches Err(error) && fault
            == Fault::IoError(error)),
        target.start_time is Some && seen.start_time != target.start_time
            ==> target.identity_fault(seen, mapping_len) == Some(Fault::ProcessNotFound(target.pid)),
        seen.path is None || !target.file.same_file(seen.path->0) ==> target.identity_fault(
            seen,
            mapping_len,
        ) == Some(Fault::ProcessNotFound(target.pid)),
        seen.file is Ok && !shows_target(target, seen, mapping_len) ==> target.identity_fault(
            seen,
            mapping_len,
        ) == Some(Fault::ProcessNotFound(target.pid)),
        seen.file is Err && (target.start_time is None || seen.start_time == target.start_time)
            && seen.path is Some && target.file.same_file(seen.path->0) ==> target.identity_fault(
            seen,
            mapping_len,
        ) == Some(Fault::IoError(seen.file->Err_0)),
{
}

/// Whether the used bytes that a prologue names hold it and lie within the buffer, and the entries
/// start among them on a multiple of four and leave 20 bytes to each.
pub open spec fn layout_is_sound(header: PerfHeader, buffer_len: int) -> bool {
    &&& 32 <= header.used <= buffer_len
    &&& 32 <= header.entry_offset <= header.used
    &&& header.entry_offset % 4 == 0
    &&& header.entry_offset + 20 * header.num_entries <= header.used
}

/// A layout is at fault where it is not sound, for the first of its defects.
pub proof fn law_sound_layouts(header: PerfHeader, buffer_len: int)
    ensures
        header.layout_fault(buffer_len) is None <==> layout_is_sound(header, buffer_len),
        !(32 <= header.used <= buffer_len) ==> header.layout_fault(buffer_len) == Some(
            Fault::InvalidFormat(
                "used bytes "@ + crate::text::decimal_text(header.used as nat)
                    + " outside mapping length "@ + crate::text::decimal_text(buffer_len as nat),
            ),
        ),
        32 <= header.used <= buffer_len && !(32 <= header.entry_offset <= header.used
            && header.entry_offset % 4 == 0) ==> header.layout_fault(buffer_len) == Some(
            Fault::InvalidFormat(
                "invalid entry offset "@ + crate::text::decimal_text(header.entry_offset as nat)
                    + " for used size "@ + crate::text::decimal_text(header.used as nat),
            ),
        ),
{
    if 32 <= header.entry_offset <= header.used {
        let room = header.used - header.entry_offset;
        assert(header.num_entries <= room / 20 <==> 20 * header.num_entries <= room);
    }
}

impl MonitorView {
    /// Whether the target is seen as it was, and the latest image starts with a prologue that says
    /// this, within the image.
    pub open spec fn is_live(self, seen: TargetObservation, header: PerfHeader) -> bool {
        &&& shows_target(self.target, seen, self.memory.len() as int)
        &&& crate::layout::prologue_stands(self.memory, header)
        &&& layout_is_sound(header, self.memory.len() as int)
    }

    /// Whether a structure starts elsewhere than the indexed one, or is smaller.
    pub open spec fn has_shrunk(self, header: PerfHeader) -> bool {
        header.entry_offset != self.refresh_state.entry_offset || header.used
            < self.refresh_state.used || header.num_entries < self.refresh_state.num_entries
    }

    /// Whether a structure has neither grown since it was indexed nor was touched.
    pub open spec fn is_untouched(self, header: PerfHeader) -> bool {
        header.used == self.refresh_state.used && header.num_entries
            == self.refresh_state.num_entries && header.modification_timestamp
            == self.refresh_state.modification_timestamp
    }

    proof fn lemma_live(self, seen: TargetObservation, header: PerfHeader)
        requires
            self.is_live(seen, header),
        ensures
            self.sound_header() == Ok::<PerfHeader, Fault>(header),
            header.accessible ==> self.live_header(seen) == Ok::<PerfHeader, Fault>(header),
            !header.accessible ==> self.live_header(seen) == Err::<PerfHeader, Fault>(
                Fault::ProcessNotFound(self.target.pid),
            ),
            crate::perfdata::mapped_header(self.memory) == Ok::<PerfHeader, Fault>(header),
    {
        law_target_is_recognised(self.target, seen, self.memory.len() as int);
        crate::layout::law_prologue_is_read(self.memory, header);
        crate::perfdata::lemma_header_value(self.memory);
        law_sound_layouts(header, self.memory.len() as int);
    }

    /// A target that is not seen as it was, an image without a prologue, and a prologue that names
    /// regions beyond the image or its own end, are not healthy, and no step of a refresh goes on
    /// with them or changes the monitor.
    pub proof fn law_unsound_images_are_refused(
        self,
        seen: TargetObservation,
        header: PerfHeader,
        looks: u8,
    )
        ensures
            !shows_target(self.target, seen, self.memory.len() as int) ==> self.health(seen) is Err
                && self.refresh_begun(seen).0 == self && (self.refresh_begun(seen).1 matches
                RefreshOutcome::Done(Err(_))),
            (forall|any: PerfHeader| !(#[trigger] crate::layout::prologue_stands(self.memory, any)))
                ==> self.refuses(seen, looks),
            crate::layout::prologue_stands(self.memory, header) && !layout_is_sound(
                header,
                self.memory.len() as int,
            ) ==> self.refuses(seen, looks),
    {
        law_target_is_recognised(self.target, seen, self.memory.len() as int);
        crate::layout::law_prologue_is_read(self.memory, header);
        law_sound_layouts(header, self.memory.len() as int);
        if self.memory.len() >= 32 {
            crate::perfdata::lemma_header_value(self.memory);
            if let Ok(read) = crate::perfdata::header_value(self.memory) {
                crate::layout::law_prologue_is_read(self.memory, read);
            }
        }
    }

    /// Whether neither a health check nor a refresh accepts the latest image.
    pub open spec fn refuses(self, seen: TargetObservation, looks: u8) -> bool {
        let (later, outcome) = self.refresh_resumed(PendingView::Settling(looks));
        &&& self.health(seen) is Err
        &&& self.refresh_begun(seen).0 == self
        &&& self.refresh_begun(seen).1 matches RefreshOutcome::Done(Err(_))
        &&& later == self
        &&& outcome matches RefreshOutcome::Done(Err(_))
    }

    /// A later image is all that an observation changes.
    pub proof fn law_observations(self, image: Seq<u8>)
        ensures
            ({
                let later = self.observed(image);
                &&& later.memory == image
                &&& later.monitor_id == self.monitor_id
                &&& later.target == self.target
                &&& later.is_little_endian == self.is_little_endian
                &&& later.index == self.index
                &&& later.dynamic_index == self.dynamic_index
                &&& later.offsets == self.offsets
                &&& later.refresh_state == self.refresh_state
                &&& later.timer_frequency_hz == self.timer_frequency_hz
            }),
    {
    }

    /// The health of a live target is what its prologue says. A target that has shut its perfdata
    /// is gone, and perfdata whose byte order has changed, that have moved or have shrunk, are not
    /// healthy.
    pub proof fn law_health(self, seen: TargetObservation, header: PerfHeader)
        requires
            self.is_live(seen, header),
        ensures
            !header.accessible ==> self.health(seen) == Err::<MonitorHealth, Fault>(
                Fault::ProcessNotFound(self.target.pid),
            ),
            header.accessible && header.is_little_endian != self.is_little_endian ==> self.health(
                seen,
            ) == Err::<MonitorHealth, Fault>(
                Fault::InvalidFormat("perfdata byte order changed after connection"@),
            ),
            header.accessible && header.is_little_endian == self.is_little_endian
                && self.has_shrunk(header) ==> self.health(seen) == Err::<MonitorHealth, Fault>(
                Fault::InvalidFormat("perfdata structure moved backwards "@ + "after connection"@),
            ),
            header.accessible && header.is_little_endian == self.is_little_endian
                && !self.has_shrunk(header) ==> (self.health(seen) matches Ok(health) && health.pid
                == self.target.pid && health.overflow_bytes == header.overflow && health.num_entries
                == header.num_entries && health.modification_timestamp
                == header.modification_timestamp),
    {
        self.lemma_live(seen, header);
    }

    /// The first step of a refresh. A target that has shut its perfdata is gone, and a structure
    /// that has moved or shrunk is refused; neither changes the monitor. An untouched structure
    /// holds nothing new. One that has grown under the timestamp that is known is looked at up to
    /// five more times, and any other is captured.
    pub proof fn law_refresh_starts(self, seen: TargetObservation, header: PerfHeader)
        requires
            self.is_live(seen, header),
        ensures
            !header.accessible ==> self.refresh_begun(seen) == (
                self,
                RefreshOutcome::Done(
                    Err::<usize, Fault>(Fault::ProcessNotFound(self.target.pid)),
                ),
            ),
            header.accessible && self.has_shrunk(header) ==> self.refresh_begun(seen) == (
                self,
                RefreshOutcome::Done(
                    Err::<usize, Fault>(
                        Fault::InvalidFormat(
                            "perfdata structure moved backwards "@ + "after connection"@,
                        ),
                    ),
                ),
            ),
            header.accessible && !self.has_shrunk(header) && self.is_untouched(header) ==> ({
                let (later, outcome) = self.refresh_begun(seen);
                outcome == RefreshOutcome::Done(Ok::<usize, Fault>(0))
                    && later.differs_in_notes_alone(self, header.overflow)
            }),
            header.accessible && !self.has_shrunk(header) && !self.is_untouched(header)
                && header.modification_timestamp == self.refresh_state.modification_timestamp
                ==> self.refresh_begun(seen) == (
                self,
                RefreshOutcome::Pending(PendingView::Settling(5)),
            ),
            header.accessible && !self.has_shrunk(header) && header.modification_timestamp
                != self.refresh_state.modification_timestamp ==> self.refresh_begun(seen) == (
                self,
                RefreshOutcome::Pending(PendingView::Capturing(header, CaptureView::fresh())),
            ),
    {
        self.lemma_live(seen, header);
    }

    /// Whether a monitor is an earlier one with another overflow, no failures, and a timer
    /// frequency where the earlier one knew none.
    pub open spec fn differs_in_notes_alone(self, earlier: MonitorView, overflow: u32) -> bool {
        &&& self.monitor_id == earlier.monitor_id
        &&& self.target == earlier.target
        &&& self.memory == earlier.memory
        &&& self.is_little_endian == earlier.is_little_endian
        &&& self.index == earlier.index
        &&& self.dynamic_index == earlier.dynamic_index
        &&& self.offsets == earlier.offsets
        &&& self.refresh_state.used == earlier.refresh_state.used
        &&& self.refresh_state.entry_offset == earlier.refresh_state.entry_offset
        &&& self.refresh_state.num_entries == earlier.refresh_state.num_entries
        &&& self.refresh_state.modification_timestamp
            == earlier.refresh_state.modification_timestamp
        &&& self.refresh_state.overflow == overflow
        &&& self.refresh_state.transient_failures == 0
        &&& earlier.timer_frequency_hz > 0 ==> self.timer_frequency_hz
            == earlier.timer_frequency_hz
        &&& earlier.timer_frequency_hz == 0 ==> self.timer_frequency_hz
            == earlier.published_frequency()
    }

    /// The frequency of the timer in the latest image, or zero where there is none, or none that
    /// this machine can hold.
    pub open spec fn published_frequency(self) -> int {
        match self.metric("sun.os.hrt.frequency"@) {
            Some(ValueView::Long(frequency)) => if 0 <= frequency <= usize::MAX {
                frequency as int
            } else {
                0
            },
            _ => 0,
        }
    }

    /// The timer's frequency is read from the perfdata: when a monitor connects, when it takes in
    /// a complete index, and whenever it is not known.
    pub proof fn law_timer_frequency(
        self,
        header: PerfHeader,
        complete: IndexView,
        monitor_id: usize,
        target: TargetIdentity,
        memory: Seq<u8>,
    )
        ensures
            ({
                let monitor = MonitorView::connected(monitor_id, target, memory, header, complete);
                monitor.timer_frequency_hz == monitor.published_frequency()
            }),
            self.timer_frequency_hz == 0 ==> self.timed().timer_frequency_hz
                == self.published_frequency(),
            self.timer_frequency_hz > 0 ==> self.timed() == self,
            self.wf() && complete.wf() && complete.longs_apart() && self.nothing_lost(complete)
                ==> self.absorbed(header, complete).timer_frequency_hz == self.absorbed(
                header,
                complete,
            ).published_frequency(),
    {
        let key = "sun.os.hrt.frequency"@;
        let monitor = MonitorView::connected(monitor_id, target, memory, header, complete);
        assert(monitor.lookup(key) == complete.get(key));
        if self.wf() && complete.wf() && complete.longs_apart() && self.nothing_lost(complete) {
            self.lemma_absorbed(header, complete);
            assert(self.absorbed(header, complete).lookup(key) == complete.get(key));
        }
    }

    /// A refresh that waits for the timestamp goes on once that has changed or the looks are used
    /// up. A structure that has moved or shrunk by then is refused, one that is untouched holds
    /// nothing new, and any other is captured.
    pub proof fn law_refresh_settles(self, seen: TargetObservation, header: PerfHeader, looks: u8)
        requires
            self.is_live(seen, header),
        ensures
            header.modification_timestamp == self.refresh_state.modification_timestamp && looks > 1
                ==> self.refresh_resumed(PendingView::Settling(looks)) == (
                self,
                RefreshOutcome::Pending(PendingView::Settling((looks - 1) as u8)),
            ),
            (header.modification_timestamp != self.refresh_state.modification_timestamp || looks
                <= 1) && self.has_shrunk(header) ==> self.refresh_resumed(
                PendingView::Settling(looks),
            ) == (
                self,
                RefreshOutcome::Done(
                    Err::<usize, Fault>(
                        Fault::InvalidFormat(
                            "perfdata structure moved backwards "@ + "during refresh"@,
                        ),
                    ),
                ),
            ),
            looks <= 1 && !self.has_shrunk(header) && self.is_untouched(header) ==> ({
                let (later, outcome) = self.refresh_resumed(PendingView::Settling(looks));
                outcome == RefreshOutcome::Done(Ok::<usize, Fault>(0))
                    && later.differs_in_notes_alone(self, header.overflow)
            }),
            (header.modification_timestamp != self.refresh_state.modification_timestamp || looks
                <= 1) && !self.has_shrunk(header) && !self.is_untouched(header)
                ==> self.refresh_resumed(PendingView::Settling(looks)) == (
                self,
                RefreshOutcome::Pending(PendingView::Capturing(header, CaptureView::fresh())),
            ),
    {
        self.lemma_live(seen, header);
    }

    /// A refresh that captures goes on with each image as its capture does. An index that was
    /// captured is judged, and a capture that failed gets one more look.
    pub proof fn law_refresh_captures(self, current: PerfHeader, capture: CaptureView)
        ensures
            ({
                let step = self.refresh_resumed(PendingView::Capturing(current, capture));
                match capture.advance(self.memory) {
                    CaptureOutcome::Pending(next) => step == (
                        self,
                        RefreshOutcome::Pending(PendingView::Capturing(current, next)),
                    ),
                    CaptureOutcome::Done(Ok((header, complete))) => step == self.judged(
                        current,
                        header,
                        complete,
                    ),
                    CaptureOutcome::Done(Err(fault)) => step == (
                        self,
                        RefreshOutcome::Pending(PendingView::Failed(fault)),
                    ),
                }
            }),
    {
    }

    /// Whether an index keeps every entry that the monitor knows as it is.
    pub open spec fn is_kept_by(self, complete: IndexView) -> bool {
        forall|key: Seq<char>| #[trigger]
            self.lookup(key) is Some ==> complete.get(key) == self.lookup(key)
    }

    /// Nothing is lost to an index that keeps every entry.
    proof fn lemma_kept(self, complete: IndexView)
        requires
            self.wf(),
        ensures
            self.nothing_lost(complete) <==> self.is_kept_by(complete),
    {
        self.law_reported_entry_is_lost(complete);
        if self.nothing_lost(complete) {
            self.index.lemma_nothing_lost(complete);
            self.dynamic_index.lemma_nothing_lost(complete);
            assert forall|key: Seq<char>| #[trigger] self.lookup(key) is Some implies complete.get(
                key,
            ) == self.lookup(key) by {
                if self.index.entries.contains_key(key) {
                } else {
                    assert(self.dynamic_index.entries.contains_key(key));
                }
            }
        }
        if self.is_kept_by(complete) {
            if let Some(name) = self.index.first_lost(complete) {
                assert(self.lookup(name) is Some);
            }
            if let Some(name) = self.dynamic_index.first_lost(complete) {
                assert(self.lookup(name) is Some);
            }
        }
    }

    /// The number of entries that a monitor knows.
    pub open spec fn known_entries(self) -> nat {
        self.index.names.len() + self.dynamic_index.names.len()
    }

    /// A monitor that knows just the entries of an index knows as many as it has.
    proof fn lemma_known_entries(self, complete: IndexView)
        requires
            self.wf(),
            complete.wf(),
            forall|key: Seq<char>| #[trigger] self.lookup(key) == complete.get(key),
        ensures
            self.known_entries() == complete.names.len(),
    {
        let old_names = self.index.names;
        let new_names = self.dynamic_index.names;
        old_names.unique_seq_to_set();
        new_names.unique_seq_to_set();
        complete.names.unique_seq_to_set();
        assert(old_names.to_set().disjoint(new_names.to_set())) by {
            assert forall|name: Seq<char>| old_names.to_set().contains(name) implies !#[trigger]
                new_names.to_set().contains(name) by {
                assert(old_names.contains(name));
                if new_names.contains(name) {
                    assert(self.dynamic_index.entries.contains_key(name));
                }
            }
        }
        vstd::set_lib::lemma_set_disjoint_lens(old_names.to_set(), new_names.to_set());
        assert(old_names.to_set() + new_names.to_set() =~= complete.names.to_set()) by {
            assert forall|name: Seq<char>|
                (old_names.to_set() + new_names.to_set()).contains(name)
                    == #[trigger] complete.names.to_set().contains(name) by {
                assert(self.lookup(name) == complete.get(name));
                assert(old_names.contains(name) == self.index.entries.contains_key(name));
                assert(new_names.contains(name) == self.dynamic_index.entries.contains_key(name));
                assert(complete.names.contains(name) == complete.entries.contains_key(name));
            }
        }
    }

    /// Whether a monitor is an earlier one that has taken in a complete index under a prologue: it
    /// knows just the entries of that index, has noted the fields of the prologue, counts no
    /// failures, and is otherwise the same.
    pub open spec fn has_taken_in(
        self,
        earlier: MonitorView,
        header: PerfHeader,
        complete: IndexView,
    ) -> bool {
        &&& self.wf()
        &&& self.fully_bound()
        &&& self.monitor_id == earlier.monitor_id
        &&& self.target == earlier.target
        &&& self.memory == earlier.memory
        &&& self.is_little_endian == earlier.is_little_endian
        &&& self.index == earlier.index
        &&& forall|key: Seq<char>| #[trigger] self.lookup(key) == complete.get(key)
        &&& self.refresh_state.used == header.used
        &&& self.refresh_state.entry_offset == header.entry_offset
        &&& self.refresh_state.num_entries == header.num_entries
        &&& self.refresh_state.modification_timestamp == header.modification_timestamp
        &&& self.refresh_state.overflow == header.overflow
        &&& self.refresh_state.transient_failures == 0
        &&& self.timer_frequency_hz == self.published_frequency()
    }

    proof fn lemma_taken_in(self, header: PerfHeader, complete: IndexView)
        requires
            self.wf(),
            complete.wf(),
            complete.longs_apart(),
            self.is_kept_by(complete),
        ensures
            self.nothing_lost(complete),
            self.absorbed(header, complete).has_taken_in(self, header, complete),
            self.absorbed(header, complete).dynamic_index.names.len()
                - self.dynamic_index.names.len() == complete.names.len() - self.known_entries(),
            complete.names.len() >= self.known_entries(),
    {
        self.lemma_kept(complete);
        self.dynamic_index.lemma_extended(self.index, complete);
        self.lemma_absorbed(header, complete);
        self.law_absorbed_monitors_are_fully_bound(header, complete);
        self.law_timer_frequency(header, complete, 0, self.target, self.memory);
        self.absorbed(header, complete).lemma_known_entries(complete);
    }

    proof fn lemma_grown(self, header: PerfHeader, complete: IndexView)
        requires
            self.wf(),
            complete.wf(),
            complete.longs_apart(),
            complete.names.len() <= usize::MAX,
            self.is_kept_by(complete),
        ensures
            self.nothing_lost(complete),
            self.grown(header, complete).0.has_taken_in(self, header, complete),
            self.grown(header, complete).1 matches RefreshOutcome::Done(Ok(added)) && added
                == complete.names.len() - self.known_entries(),
    {
        self.lemma_taken_in(header, complete);
    }

    proof fn lemma_live_copy(self, seen: TargetObservation, header: PerfHeader, complete: IndexView)
        requires
            shows_target(self.target, seen, self.memory.len() as int),
            crate::perfdata::snapshot_value(self.memory) == Ok::<(PerfHeader, IndexView), Fault>(
                (header, complete),
            ),
        ensures
            self.live_header(seen) == Ok::<PerfHeader, Fault>(header),
    {
        law_target_is_recognised(self.target, seen, self.memory.len() as int);
        crate::perfdata::lemma_header_value(self.memory);
    }

    /// A refresh of a live target whose perfdata have grown or were touched, and then hold still,
    /// takes in all that they hold, and counts the entries that the monitor did not know. That no
    /// known entry was lost is all that it asks.
    pub proof fn law_growth_is_taken_in(
        self,
        seen: TargetObservation,
        header: PerfHeader,
        complete: IndexView,
    )
        requires
            self.wf(),
            shows_target(self.target, seen, self.memory.len() as int),
            crate::perfdata::snapshot_value(self.memory) == Ok::<(PerfHeader, IndexView), Fault>(
                (header, complete),
            ),
            header.is_little_endian == self.is_little_endian,
            !self.has_shrunk(header),
            !self.is_untouched(header),
            self.is_kept_by(complete),
        ensures
            ({
                let (later, outcome) = self.refreshed(seen, Seq::new(17, |i: int| self.memory));
                &&& outcome matches RefreshOutcome::Done(Ok(added))
                &&& added == complete.names.len() - self.known_entries()
                &&& later.has_taken_in(self, header, complete)
            }),
    {
        crate::perfdata::law_index_is_complete(self.memory, header);
        self.lemma_grown(header, complete);
        self.lemma_live_copy(seen, header, complete);
        assert(self.has_grown_to(header, complete));
        self.law_refresh_publishes(seen, header, complete);
        assert(Seq::new(17, |i: int| self.memory) =~= Seq::new(
            crate::laws::MAX_REFRESH_IMAGES as nat,
            |i: int| self.memory,
        ));
    }

    /// A refresh that finds a known entry missing or elsewhere is refused, names such an entry, and
    /// changes nothing.
    pub proof fn law_lost_entries_are_refused(
        self,
        current: PerfHeader,
        header: PerfHeader,
        complete: IndexView,
    )
        requires
            self.wf(),
            header.modification_timestamp != current.modification_timestamp || (header.used
                == current.used && header.num_entries == current.num_entries),
            header.is_little_endian == self.is_little_endian,
            !self.is_kept_by(complete),
        ensures
            ({
                let (later, outcome) = self.judged(current, header, complete);
                &&& later == self
                &&& exists|name: Seq<char>| #[trigger]
                    self.lookup(name) is Some && complete.get(name) != self.lookup(name) && outcome
                        == RefreshOutcome::Done(
                        Err::<usize, Fault>(
                            Fault::InvalidFormat(
                                (if self.index.get(name) is Some {
                                    "existing"@
                                } else {
                                    "dynamic"@
                                }) + " perfdata entry "@ + name + " was removed or relocated"@,
                            ),
                        ),
                    )
            }),
    {
        self.lemma_kept(complete);
        self.law_reported_entry_is_lost(complete);
        if let Some(name) = self.index.first_lost(complete) {
            self.index.lemma_lost(complete, 0);
            assert(self.lookup(name) is Some);
        } else {
            let name = self.dynamic_index.first_lost(complete)->0;
            self.dynamic_index.lemma_lost(complete, 0);
            assert(self.dynamic_index.entries.contains_key(name));
            assert(self.lookup(name) is Some);
        }
    }

    /// A complete index whose structure differs from that of the first image, under the same
    /// timestamp, is not finished and is left for a later refresh: nothing but the overflow is
    /// noted. Otherwise a changed byte order is refused, and what keeps all that is known is taken
    /// in.
    pub proof fn law_indexes_are_judged(
        self,
        current: PerfHeader,
        header: PerfHeader,
        complete: IndexView,
    )
        requires
            self.wf(),
            complete.wf(),
            complete.longs_apart(),
            complete.names.len() <= usize::MAX,
        ensures
            ({
                let (later, outcome) = self.judged(current, header, complete);
                let unfinished = header.modification_timestamp == current.modification_timestamp
                    && (header.used != current.used || header.num_entries != current.num_entries);
                &&& unfinished ==> outcome == RefreshOutcome::Done(Ok::<usize, Fault>(0)) && later
                    == self.noted(header.overflow, self.refresh_state.transient_failures)
                &&& !unfinished && header.is_little_endian != self.is_little_endian ==> outcome
                    == RefreshOutcome::Done(
                    Err::<usize, Fault>(
                        Fault::InvalidFormat("perfdata byte order changed after connection"@),
                    ),
                ) && later == self
                &&& !unfinished && header.is_little_endian == self.is_little_endian
                    && self.is_kept_by(complete) ==> (outcome matches RefreshOutcome::Done(
                    Ok(added),
                ) && added == complete.names.len() - self.known_entries() && later.has_taken_in(
                    self,
                    header,
                    complete,
                ))
            }),
    {
        if self.is_kept_by(complete) {
            self.lemma_grown(header, complete);
            assert(self.judged(current, header, complete) == self.grown(header, complete) || (
            header.modification_timestamp == current.modification_timestamp && (header.used
                != current.used || header.num_entries != current.num_entries))
                || header.is_little_endian != self.is_little_endian);
        }
    }

    /// A failure to capture is excused three times in a row while the structure grows or is
    /// touched: the excuse is counted and nothing else is changed but the overflow. The fourth, and
    /// any that meets a structure that is untouched, has moved or has shrunk, is reported.
    pub proof fn law_failures_are_excused(self, header: PerfHeader, fault: Fault)
        requires
            crate::layout::prologue_stands(self.memory, header),
        ensures
            ({
                let (later, outcome) = self.refresh_resumed(PendingView::Failed(fault));
                let growing = !self.has_shrunk(header) && !self.is_untouched(header);
                let failures = self.refresh_state.transient_failures;
                &&& growing && failures < 3 ==> outcome == RefreshOutcome::Done(
                    Ok::<usize, Fault>(0),
                ) && later == self.noted(header.overflow, (failures + 1) as u8)
                &&& !growing || failures >= 3 ==> outcome == RefreshOutcome::Done(
                    Err::<usize, Fault>(fault),
                ) && later == self
            }),
    {
        crate::layout::law_prologue_is_read(self.memory, header);
        crate::perfdata::lemma_header_value(self.memory);
    }

    /// A failure to capture is not excused where the latest image has no prologue, and changes
    /// nothing.
    pub proof fn law_failures_need_a_prologue(self, fault: Fault)
        requires
            forall|header: PerfHeader|
                !(#[trigger] crate::layout::prologue_stands(self.memory, header)),
        ensures
            self.refresh_resumed(PendingView::Failed(fault)).0 == self,
            self.refresh_resumed(PendingView::Failed(fault)).1 matches RefreshOutcome::Done(Err(_)),
    {
        if self.memory.len() >= 32 {
            crate::perfdata::lemma_header_value(self.memory);
            if let Ok(read) = crate::perfdata::header_value(self.memory) {
                crate::layout::law_prologue_is_read(self.memory, read);
            }
        }
    }

    /// What is noted are the overflow and the failures, and nothing else.
    pub proof fn law_notes(self, overflow: u32, failures: u8)
        ensures
            ({
                let later = self.noted(overflow, failures);
                &&& later.refresh_state.overflow == overflow
                &&& later.refresh_state.transient_failures == failures
                &&& later.refresh_state.used == self.refresh_state.used
                &&& later.refresh_state.entry_offset == self.refresh_state.entry_offset
                &&& later.refresh_state.num_entries == self.refresh_state.num_entries
                &&& later.refresh_state.modification_timestamp
                    == self.refresh_state.modification_timestamp
                &&& later.monitor_id == self.monitor_id
                &&& later.target == self.target
                &&& later.memory == self.memory
                &&& later.is_little_endian == self.is_little_endian
                &&& later.index == self.index
                &&& later.dynamic_index == self.dynamic_index
                &&& later.offsets == self.offsets
                &&& later.timer_frequency_hz == self.timer_frequency_hz
            }),
    {
    }

    /// A monitor that has just connected has noted the fields of the prologue, knows just the
    /// entries of the index, and counts no failures.
    pub proof fn law_connected_monitors(
        monitor_id: usize,
        target: TargetIdentity,
        memory: Seq<u8>,
        header: PerfHeader,
        index: IndexView,
    )
        ensures
            ({
                let monitor = MonitorView::connected(monitor_id, target, memory, header, index);
                &&& monitor.monitor_id == monitor_id
                &&& monitor.target == target
                &&& monitor.memory == memory
                &&& monitor.is_little_endian == header.is_little_endian
                &&& monitor.index == index
                &&& monitor.dynamic_index.names.len() == 0
                &&& forall|key: Seq<char>| #[trigger] monitor.lookup(key) == index.get(key)
                &&& monitor.refresh_state.used == header.used
                &&& monitor.refresh_state.entry_offset == header.entry_offset
                &&& monitor.refresh_state.num_entries == header.num_entries
                &&& monitor.refresh_state.modification_timestamp == header.modification_timestamp
                &&& monitor.refresh_state.overflow == header.overflow
                &&& monitor.refresh_state.transient_failures == 0
                &&& monitor.timer_frequency_hz == monitor.published_frequency()
            }),
    {
        let monitor = MonitorView::connected(monitor_id, target, memory, header, index);
        monitor.law_timer_frequency(header, index, monitor_id, target, memory);
    }

    /// The health that was noted is that of the structure when it was last indexed.
    pub proof fn law_noted_health(self)
        ensures
            self.noted_health().pid == self.target.pid,
            self.noted_health().overflow_bytes == self.refresh_state.overflow,
            self.noted_health().num_entries == self.refresh_state.num_entries,
            self.noted_health().modification_timestamp
                == self.refresh_state.modification_timestamp,
    {
    }
}

impl IndexView {
    /// The names that are new in a later index are added behind those that are there, in the order
    /// in which they were published.
    pub proof fn law_new_names_keep_their_order(
        self,
        base: IndexView,
        later: IndexView,
        position: int,
    )
        requires
            self.wf(),
            later.wf(),
            0 <= position <= later.names.len(),
        ensures
            ({
                let names = self.extended_from(base, later, position).names;
                &&& names.take(self.names.len() as int) == self.names
                &&& forall|i: int|
                    self.names.len() <= i < names.len() ==> later.names.contains(
                        #[trigger] names[i],
                    ) && position <= later.names.index_of(names[i]) < later.names.len()
                &&& forall|i: int, j: int|
                    self.names.len() <= i < j < names.len() ==> later.names.index_of(
                        #[trigger] names[i],
                    ) < later.names.index_of(#[trigger] names[j])
            }),
        decreases later.names.len() - position,
    {
        self.lemma_extended_from(base, later, position);
        if position < later.names.len() {
            let fresh = later.names[position];
            assert(later.names.contains(fresh));
            assert(later.names.index_of(fresh) == position);
            if base.get(fresh) is None && self.get(fresh) is None {
                let pushed = self.push(fresh, later.entries[fresh]);
                self.lemma_push(fresh, later.entries[fresh]);
                pushed.law_new_names_keep_their_order(base, later, position + 1);
                pushed.lemma_extended_from(base, later, position + 1);
                let names = pushed.extended_from(base, later, position + 1).names;
                let first = self.names.len() as int;
                assert(names.take(first + 1)[first] == pushed.names[first]);
                assert(names[first] == fresh);
            } else {
                self.law_new_names_keep_their_order(base, later, position + 1);
            }
        }
    }
}

/// Whether two prologues say the same, but for the overflow.
pub open spec fn agree(first: PerfHeader, second: PerfHeader) -> bool {
    &&& first.is_little_endian == second.is_little_endian
    &&& first.accessible == second.accessible
    &&& first.used == second.used
    &&& first.modification_timestamp == second.modification_timestamp
    &&& first.entry_offset == second.entry_offset
    &&& first.num_entries == second.num_entries
}

impl CaptureView {
    /// A capture starts with five attempts.
    pub proof fn law_five_attempts()
        ensures
            CaptureView::fresh().attempts_left == 5,
            CaptureView::fresh().last_error is None,
            CaptureView::fresh().taken is None,
    {
    }

    /// The first image of an attempt is taken down, its used bytes alone, where it is accessible
    /// and its layout is sound.
    pub proof fn law_first_image_is_taken_down(self, image: Seq<u8>, header: PerfHeader)
        requires
            self.taken is None,
            crate::layout::prologue_stands(image, header),
        ensures
            header.accessible && layout_is_sound(header, image.len() as int) ==> self.advance(
                image,
            ) == CaptureOutcome::Pending(
                CaptureView {
                    attempts_left: self.attempts_left,
                    last_error: self.last_error,
                    taken: Some((header, image.subrange(0, header.used as int))),
                },
            ),
            !header.accessible ==> self.advance(image) == CaptureOutcome::Done(
                Err::<(PerfHeader, IndexView), Fault>(
                    Fault::InvalidFormat("target perfdata is not accessible"@),
                ),
            ),
            header.accessible && !layout_is_sound(header, image.len() as int) ==> self.advance(
                image,
            ) == CaptureOutcome::Done(
                Err::<(PerfHeader, IndexView), Fault>(
                    header.layout_fault(image.len() as int)->0,
                ),
            ),
    {
        crate::layout::law_prologue_is_read(image, header);
        crate::perfdata::lemma_header_value(image);
        law_sound_layouts(header, image.len() as int);
    }

    /// An image without a prologue ends a capture at once.
    pub proof fn law_prologues_are_needed(self, image: Seq<u8>)
        requires
            forall|header: PerfHeader| !(#[trigger] crate::layout::prologue_stands(image, header)),
        ensures
            self.advance(image) matches CaptureOutcome::Done(Err(_)),
    {
        if image.len() >= 32 {
            crate::perfdata::lemma_header_value(image);
            if let Ok(read) = crate::perfdata::header_value(image) {
                crate::layout::law_prologue_is_read(image, read);
            }
        }
    }

    /// An index is taken only where the prologues of the two images of an attempt agree, and it is
    /// that of the first image. Where they do not, or where the entries cannot be read, there is
    /// another attempt, or the last fault of the entries, or that the structure kept changing.
    pub proof fn law_images_must_agree(
        self,
        first: PerfHeader,
        bytes: Seq<u8>,
        image: Seq<u8>,
        second: PerfHeader,
    )
        requires
            self.taken == Some((first, bytes)),
            crate::layout::prologue_stands(image, second),
        ensures
            ({
                let read = crate::perfdata::index_value(bytes, first);
                let fault = if agree(first, second) {
                    Some(read->Err_0)
                } else {
                    self.last_error
                };
                &&& agree(first, second) && read is Ok ==> self.advance(image)
                    == CaptureOutcome::Done(
                    Ok::<(PerfHeader, IndexView), Fault>((first, read->Ok_0)),
                )
                &&& (!agree(first, second) || read is Err) && self.attempts_left > 1
                    ==> self.advance(image) == CaptureOutcome::Pending(
                    CaptureView {
                        attempts_left: self.attempts_left - 1,
                        last_error: fault,
                        taken: None,
                    },
                )
                &&& (!agree(first, second) || read is Err) && self.attempts_left <= 1
                    ==> self.advance(image) == CaptureOutcome::Done(
                    Err::<(PerfHeader, IndexView), Fault>(
                        match fault {
                            Some(fault) => fault,
                            None => Fault::InvalidFormat(
                                "perfdata structure kept changing while the index was captured"@,
                            ),
                        },
                    ),
                )
            }),
    {
        crate::layout::law_prologue_is_read(image, second);
        crate::perfdata::lemma_header_value(image);
        assert(first.describes_same(second) <==> agree(first, second));
    }
}

/// A fault is told in these words, but for what the operating system says of an I/O error.
pub proof fn law_messages(pid: u32, reason: Seq<char>, message: Seq<char>)
    ensures
        Fault::ProcessNotFound(pid).is_told_by(message) <==> message == "JVM process "@
            + crate::text::decimal_text(pid as nat) + " not found or access denied"@,
        Fault::InvalidFormat(reason).is_told_by(message) <==> message
            == "Invalid hsperfdata format: "@ + reason,
{
}

/// Perfdata files and mappings of 32 bytes to 64 MiB are supported.
pub proof fn law_supported_sizes(len: int)
    ensures
        crate::perfdata::supported_size(len) <==> 32 <= len <= 67_108_864,
{
}

impl CaptureView {
    /// Between two attempts there is a pause of one millisecond, and between the two images of an
    /// attempt, and before the first, there is none.
    pub proof fn law_pause_between_attempts(self)
        requires
            self.wf(),
        ensures
            self.taken is None && self.attempts_left < 5 ==> self.pause() == 1,
            self.taken is None && self.attempts_left == 5 ==> self.pause() == 0,
            self.taken is Some ==> self.pause() == 0,
    {
    }
}

impl PendingView {
    /// A refresh pauses as its capture does. While it waits for the timestamp it lets the JVM run.
    pub proof fn law_pause_of_a_refresh(self)
        ensures
            self matches PendingView::Capturing(_, capture) ==> self.pause() == capture.pause()
                && !self.yields(),
            self is Settling ==> self.pause() == 0 && self.yields(),
            self is Failed ==> self.pause() == 0 && !self.yields(),
    {
    }
}

impl ConnectView {
    /// Perfdata that are not accessible are looked at every 20 milliseconds. Once they are, the
    /// connection pauses as its capture does.
    pub proof fn law_pause_of_a_connection(self)
        ensures
            self.capture is None ==> self.pause() == 20,
            self.capture matches Some(capture) ==> self.pause() == capture.pause(),
    {
    }

    /// A connection starts where there is a file of 32 bytes to 64 MiB that can be opened. It
    /// watches that process and that file, and has captured nothing.
    pub proof fn law_connections_start(
        monitor_id: usize,
        pid: u32,
        file: FileIdentity,
        cause: std::io::Error,
        start_time: Option<u64>,
    )
        ensures
            ConnectView::started(monitor_id, pid, None, start_time) == Err::<ConnectView, Fault>(
                Fault::ProcessNotFound(pid),
            ),
            ConnectView::started(monitor_id, pid, Some(Err(cause)), start_time) == Err::<
                ConnectView,
                Fault,
            >(Fault::IoError(cause)),
            32 <= file.len <= 67_108_864 ==> (ConnectView::started(
                monitor_id,
                pid,
                Some(Ok(file)),
                start_time,
            ) matches Ok(started) && started.monitor_id == monitor_id && started.target.pid == pid
                && started.target.start_time == start_time && started.target.file == file
                && started.capture is None),
            !(32 <= file.len <= 67_108_864) ==> ConnectView::started(
                monitor_id,
                pid,
                Some(Ok(file)),
                start_time,
            ) == Err::<ConnectView, Fault>(
                Fault::InvalidFormat(
                    "perfdata file size "@ + crate::text::decimal_text(file.len as nat)
                        + " is outside the supported range"@,
                ),
            ),
    {
    }

    /// Perfdata whose eighth byte is zero, or that have none, are waited for: as long as the file
    /// is still the one that was mapped, and for five seconds. All others are captured.
    pub proof fn law_perfdata_are_waited_for(
        self,
        image: Seq<u8>,
        path: Option<FileIdentity>,
        timed_out: bool,
    )
        requires
            self.capture is None,
        ensures
            ({
                let accessible = image.len() >= 8 && image[7] != 0;
                let same = path is Some && self.target.file.same_file(path->0);
                &&& accessible ==> self.advance(image, path, timed_out) == ConnectOutcome::Pending(
                    ConnectView {
                        monitor_id: self.monitor_id,
                        target: self.target,
                        capture: Some(CaptureView::fresh()),
                    },
                )
                &&& !accessible && !same ==> self.advance(image, path, timed_out)
                    == ConnectOutcome::Failed(Fault::ProcessNotFound(self.target.pid))
                &&& !accessible && same && timed_out ==> self.advance(image, path, timed_out)
                    == ConnectOutcome::Failed(
                    Fault::InvalidFormat(
                        "JVM "@ + crate::text::decimal_text(self.target.pid as nat)
                            + " perfdata did not become accessible within "@
                            + crate::text::decimal_text(5) + " seconds"@,
                    ),
                )
                &&& !accessible && same && !timed_out ==> self.advance(image, path, timed_out)
                    == ConnectOutcome::Pending(self)
            }),
    {
    }

    /// A capture under way goes on with each image, and its end is that of the connection.
    pub proof fn law_captures_end_connections(
        self,
        image: Seq<u8>,
        path: Option<FileIdentity>,
        timed_out: bool,
    )
        requires
            self.capture is Some,
        ensures
            match self.capture->0.advance(image) {
                CaptureOutcome::Pending(next) => self.advance(image, path, timed_out)
                    == ConnectOutcome::Pending(
                    ConnectView {
                        monitor_id: self.monitor_id,
                        target: self.target,
                        capture: Some(next),
                    },
                ),
                CaptureOutcome::Done(Ok((header, index))) => self.advance(image, path, timed_out)
                    == ConnectOutcome::Captured(
                    CapturedView {
                        monitor_id: self.monitor_id,
                        target: self.target,
                        header,
                        index,
                    },
                ),
                CaptureOutcome::Done(Err(fault)) => self.advance(image, path, timed_out)
                    == ConnectOutcome::Failed(fault),
            },
    {
    }
}

impl CapturedView {
    /// A connection is made where the process and the file are still seen as they were, the start
    /// time being the one that was known or else the one that was read later. Otherwise the
    /// process is gone, but for an open file that cannot be looked at while the path leads
    /// somewhere.
    pub proof fn law_connections_are_checked(
        self,
        mapping_len: int,
        later_start_time: Option<u64>,
        seen: TargetObservation,
    )
        ensures
            ({
                let target = self.settled_target(later_start_time);
                let fault = self.finish_fault(mapping_len, later_start_time, seen);
                &&& target.pid == self.target.pid && target.file == self.target.file
                &&& self.target.start_time is Some ==> target.start_time == self.target.start_time
                &&& self.target.start_time is None ==> target.start_time == later_start_time
                &&& fault is None <==> shows_target(target, seen, mapping_len)
                &&& seen.path is Some && seen.file is Err ==> fault == Some(
                    Fault::IoError(seen.file->Err_0),
                )
                &&& (seen.path is None || seen.file is Ok) && !shows_target(
                    target,
                    seen,
                    mapping_len,
                ) ==> fault == Some(Fault::ProcessNotFound(self.target.pid))
            }),
    {
    }

    /// The monitor of a connection that was made: of the target as it was settled, with the index
    /// that was captured and the image that is shown.
    pub proof fn law_connections_make_monitors(
        self,
        memory: Seq<u8>,
        later_start_time: Option<u64>,
    )
        ensures
            ({
                let monitor = self.monitor(memory, later_start_time);
                &&& monitor.monitor_id == self.monitor_id
                &&& monitor.target == self.settled_target(later_start_time)
                &&& monitor.memory == memory
                &&& monitor.is_little_endian == self.header.is_little_endian
                &&& forall|key: Seq<char>| #[trigger] monitor.lookup(key) == self.index.get(key)
                &&& monitor.fully_bound()
            }),
    {
        MonitorView::law_connected_monitors_are_fully_bound(
            self.monitor_id,
            self.settled_target(later_start_time),
            memory,
            self.header,
            self.index,
        );
    }
}

} // verus!
