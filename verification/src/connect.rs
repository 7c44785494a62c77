//! Connecting to a JVM: waiting until its perfdata are set up, indexing them, and making sure that
//! they still belong to the process.
//!
//! The caller looks at the mapping and at the file system and hands over what it sees.

use vstd::prelude::*;
use vstd::string::*;

use crate::capture::{Capture, CaptureOutcome, CaptureProgress, CaptureView};
use crate::error::{invalid, Fault, JvmMonitorError};
use crate::index::{IndexView, PerfIndex};
use crate::monitor::{JvmMonitor, MonitorView};
use crate::perfdata::{PerfHeader, PerfMemory};
use crate::target::{FileIdentity, TargetIdentity, TargetObservation};
use crate::text::decimal;

verus! {

/// How many seconds perfdata may take to become accessible.
pub const ACCESSIBLE_WAIT_SECONDS: u64 = 5;

/// Milliseconds between two looks at perfdata that are not accessible yet.
pub const ACCESSIBLE_POLL_MILLIS: u64 = 20;

/// Milliseconds between two attempts to capture a changing structure.
pub const CAPTURE_RETRY_MILLIS: u64 = 1;

/// A connection that waits for the next image of the mapping.
pub struct Connecting {
    monitor_id: usize,
    target: TargetIdentity,
    capture: Option<Capture>,
}

/// A connection whose index has been captured.
pub struct Captured {
    monitor_id: usize,
    target: TargetIdentity,
    header: PerfHeader,
    index: PerfIndex,
}

/// Where a connection stands after an image.
pub enum ConnectProgress {
    /// It has failed.
    Failed(JvmMonitorError),
    /// It needs another image.
    Pending(Connecting),
    /// It has its index.
    Captured(Captured),
}

/// What a connection has seen so far.
pub struct ConnectView {
    pub monitor_id: usize,
    pub target: TargetIdentity,
    /// The capture, once the perfdata are accessible.
    pub capture: Option<CaptureView>,
}

/// A connection whose index has been captured.
pub struct CapturedView {
    pub monitor_id: usize,
    pub target: TargetIdentity,
    pub header: PerfHeader,
    pub index: IndexView,
}

/// Where a connection stands after an image.
pub enum ConnectOutcome {
    Failed(Fault),
    Pending(ConnectView),
    Captured(CapturedView),
}

impl View for Connecting {
    type V = ConnectView;

    closed spec fn view(&self) -> ConnectView {
        ConnectView {
            monitor_id: self.monitor_id,
            target: self.target,
            capture: match self.capture {
                Some(capture) => Some(capture@),
                None => None,
            },
        }
    }
}

impl View for Captured {
    type V = CapturedView;

    closed spec fn view(&self) -> CapturedView {
        CapturedView {
            monitor_id: self.monitor_id,
            target: self.target,
            header: self.header,
            index: self.index@,
        }
    }
}

impl View for ConnectProgress {
    type V = ConnectOutcome;

    open spec fn view(&self) -> ConnectOutcome {
        match *self {
            ConnectProgress::Failed(error) => ConnectOutcome::Failed(error@),
            ConnectProgress::Pending(connecting) => ConnectOutcome::Pending(connecting@),
            ConnectProgress::Captured(captured) => ConnectOutcome::Captured(captured@),
        }
    }
}

impl ConnectView {
    /// Perfdata that are not accessible: the file must still be the one that was mapped, and the
    /// time must not be up.
    pub open spec fn wait(self, path: Option<FileIdentity>, timed_out: bool) -> ConnectOutcome {
        if path is None || !self.target.file.same_file(path->0) {
            ConnectOutcome::Failed(self.target.gone())
        } else if timed_out {
            ConnectOutcome::Failed(
                crate::perfdata::rejection(
                    "JVM "@ + crate::text::decimal_text(self.target.pid as nat)
                        + " perfdata did not become accessible within "@
                        + crate::text::decimal_text(ACCESSIBLE_WAIT_SECONDS as nat) + " seconds"@,
                ),
            )
        } else {
            ConnectOutcome::Pending(self)
        }
    }

    /// Where the connection stands after the given image. The path and the time matter only as
    /// long as the perfdata are not accessible.
    pub open spec fn advance(
        self,
        image: Seq<u8>,
        path: Option<FileIdentity>,
        timed_out: bool,
    ) -> ConnectOutcome {
        match self.capture {
            None => if image.len() > 7 && image[7] != 0 {
                ConnectOutcome::Pending(
                    ConnectView { capture: Some(CaptureView::fresh()), ..self },
                )
            } else {
                self.wait(path, timed_out)
            },
            Some(capture) => match capture.advance(image) {
                CaptureOutcome::Pending(capture) => ConnectOutcome::Pending(
                    ConnectView { capture: Some(capture), ..self },
                ),
                CaptureOutcome::Done(Ok((header, index))) => ConnectOutcome::Captured(
                    CapturedView {
                        monitor_id: self.monitor_id,
                        target: self.target,
                        header,
                        index,
                    },
                ),
                CaptureOutcome::Done(Err(fault)) => ConnectOutcome::Failed(fault),
            },
        }
    }
}

/// What a connection sees at one look.
pub struct Look {
    pub image: Seq<u8>,
    pub path: Option<FileIdentity>,
    pub timed_out: bool,
}

impl ConnectView {
    /// Where a connection stands after a number of looks. Looks after its end do not matter.
    pub open spec fn after(self, looks: Seq<Look>) -> ConnectOutcome
        decreases looks.len(),
    {
        if looks.len() == 0 {
            ConnectOutcome::Pending(self)
        } else {
            match self.advance(looks[0].image, looks[0].path, looks[0].timed_out) {
                ConnectOutcome::Pending(next) => next.after(looks.skip(1)),
                ended => ended,
            }
        }
    }
}

impl CapturedView {
    /// The target, with the start time of the process that was read later where none was known.
    pub open spec fn settled_target(self, later_start_time: Option<u64>) -> TargetIdentity {
        TargetIdentity {
            start_time: if self.target.start_time is Some {
                self.target.start_time
            } else {
                later_start_time
            },
            ..self.target
        }
    }

    /// Why what is seen is no longer the process and the file that the index was captured from.
    pub open spec fn finish_fault(
        self,
        mapping_len: int,
        later_start_time: Option<u64>,
        seen: TargetObservation,
    ) -> Option<Fault> {
        let target = self.settled_target(later_start_time);
        if seen.path is None {
            Some(target.gone())
        } else {
            match seen.file {
                Err(error) => Some(Fault::IoError(error)),
                Ok(file) => if !target.file.same_file(seen.path->0) || !target.file.same_file(file)
                    || file.len != mapping_len || (target.start_time is Some && seen.start_time
                    != target.start_time) {
                    Some(target.gone())
                } else {
                    None
                },
            }
        }
    }

    /// Whether each counter and each string that was captured fits in a mapping of the given length.
    pub open spec fn within(self, len: int) -> bool {
        &&& self.index.wf()
        &&& self.index.longs_apart()
        &&& self.index.values_within(self.header.used as int)
        &&& self.header.used <= len
    }

    /// The connected monitor.
    pub open spec fn monitor(self, memory: Seq<u8>, later_start_time: Option<u64>) -> MonitorView {
        MonitorView::connected(
            self.monitor_id,
            self.settled_target(later_start_time),
            memory,
            self.header,
            self.index,
        )
    }
}

impl ConnectView {
    /// Whether what a connection has taken down fits in a mapping of the given length.
    pub open spec fn within(self, len: int) -> bool {
        self.capture matches Some(capture) ==> capture.wf() && capture.within(len)
    }

    /// A connection whose images have the length of the mapping takes nothing beyond it.
    pub proof fn law_connection_stays_within(
        self,
        image: Seq<u8>,
        path: Option<FileIdentity>,
        timed_out: bool,
    )
        requires
            self.within(image.len() as int),
        ensures
            match self.advance(image, path, timed_out) {
                ConnectOutcome::Pending(next) => next.within(image.len() as int),
                ConnectOutcome::Captured(captured) => captured.within(image.len() as int),
                ConnectOutcome::Failed(_) => true,
            },
    {
        if let Some(capture) = self.capture {
            capture.lemma_advance(image);
            capture.lemma_within(image);
        }
    }

    /// A connection all of whose images have the length of the mapping captures what lies within
    /// it.
    pub proof fn law_captured_within(self, looks: Seq<Look>, len: int)
        requires
            self.within(len),
            forall|i: int| 0 <= i < looks.len() ==> (#[trigger] looks[i]).image.len() == len,
        ensures
            self.after(looks) matches ConnectOutcome::Captured(captured) ==> captured.within(len),
        decreases looks.len(),
    {
        if looks.len() > 0 {
            let look = looks[0];
            self.law_connection_stays_within(look.image, look.path, look.timed_out);
            if let ConnectOutcome::Pending(next) = self.advance(
                look.image,
                look.path,
                look.timed_out,
            ) {
                let rest = looks.skip(1);
                assert forall|i: int| 0 <= i < rest.len() implies (
                #[trigger] rest[i]).image.len() == len by {
                    assert(rest[i] == looks[i + 1]);
                }
                next.law_captured_within(rest, len);
            }
        }
    }

    /// A connection to well-formed, accessible perfdata that hold still takes their index on the
    /// third look, whatever the path leads to and however long it took.
    pub proof fn law_still_connection(
        self,
        image: Seq<u8>,
        path: Option<FileIdentity>,
        timed_out: bool,
    )
        requires
            self.capture is None,
            crate::perfdata::snapshot_value(image) is Ok,
        ensures
            ({
                let (header, index) = crate::perfdata::snapshot_value(image)->Ok_0;
                &&& self.advance(image, path, timed_out) matches ConnectOutcome::Pending(second)
                &&& second.advance(image, path, timed_out) matches ConnectOutcome::Pending(third)
                &&& third.advance(image, path, timed_out) == ConnectOutcome::Captured(
                    CapturedView {
                        monitor_id: self.monitor_id,
                        target: self.target,
                        header,
                        index,
                    },
                )
            }),
    {
        CaptureView::law_two_looks(image);
    }
}

impl JvmMonitor {
    /// Starts to connect to a running JVM process by its PID.
    ///
    /// `file` is the open perfdata file, or `None` where none was found for the process.
    /// `monitor_id` tells the monitor from the others of this program.
    ///
    /// # Errors
    /// Returns `JvmMonitorError::ProcessNotFound` if there is no file, the error of a file that
    /// cannot be opened, and `JvmMonitorError::InvalidFormat` for a file of unsupported size.
    pub fn connect(
        monitor_id: usize,
        host_pid: u32,
        file: Option<Result<FileIdentity, std::io::Error>>,
        process_start_time: Option<u64>,
    ) -> (connecting: Result<Connecting, JvmMonitorError>)
        ensures
            match file {
                None => connecting matches Err(error) && error@ == Fault::ProcessNotFound(host_pid),
                Some(Err(cause)) => connecting matches Err(error) && error@ == Fault::IoError(
                    cause,
                ),
                Some(Ok(file)) => match connecting {
                    Ok(connecting) => crate::perfdata::supported_size(file.len as int)
                        && connecting@ == (ConnectView {
                        monitor_id,
                        target: TargetIdentity {
                            pid: host_pid,
                            start_time: process_start_time,
                            file,
                        },
                        capture: None,
                    }),
                    Err(error) => !crate::perfdata::supported_size(file.len as int) && error@
                        == crate::perfdata::file_size_rejection(file.len as nat),
                },
            },
            match connecting {
                Ok(connecting) => ConnectView::started(
                    monitor_id,
                    host_pid,
                    file,
                    process_start_time,
                ) == Ok::<ConnectView, Fault>(connecting@),
                Err(error) => ConnectView::started(
                    monitor_id,
                    host_pid,
                    file,
                    process_start_time,
                ) == Err::<ConnectView, Fault>(error@),
            },
    {
        let file: FileIdentity = match file {
            None => return Err(JvmMonitorError::ProcessNotFound(host_pid)),
            Some(Err(cause)) => return Err(JvmMonitorError::from(cause)),
            Some(Ok(file)) => file,
        };
        match PerfMemory::check_file_size(file.len) {
            Ok(_) => {},
            Err(error) => return Err(error),
        }
        Ok(
            Connecting {
                monitor_id,
                target: TargetIdentity { pid: host_pid, start_time: process_start_time, file },
                capture: None,
            },
        )
    }
}

impl ConnectView {
    /// How many milliseconds to wait before the next image.
    pub open spec fn pause(self) -> u64 {
        match self.capture {
            None => ACCESSIBLE_POLL_MILLIS,
            Some(capture) => capture.pause(),
        }
    }

    /// The start of a connection to a process whose perfdata file is this one, if any.
    pub open spec fn started(
        monitor_id: usize,
        host_pid: u32,
        file: Option<Result<FileIdentity, std::io::Error>>,
        process_start_time: Option<u64>,
    ) -> Result<ConnectView, Fault> {
        match file {
            None => Err(Fault::ProcessNotFound(host_pid)),
            Some(Err(cause)) => Err(Fault::IoError(cause)),
            Some(Ok(file)) => if crate::perfdata::supported_size(file.len as int) {
                Ok(
                    ConnectView {
                        monitor_id,
                        target: TargetIdentity {
                            pid: host_pid,
                            start_time: process_start_time,
                            file,
                        },
                        capture: None,
                    },
                )
            } else {
                Err(crate::perfdata::file_size_rejection(file.len as nat))
            },
        }
    }
}

impl Connecting {
    /// How many milliseconds to wait before the next image.
    pub fn pause_millis(&self) -> (millis: u64)
        ensures
            millis == (match self@.capture {
                None => ACCESSIBLE_POLL_MILLIS,
                Some(capture) => if capture.taken is None && capture.attempts_left
                    < crate::capture::MAX_CAPTURE_ATTEMPTS {
                    CAPTURE_RETRY_MILLIS
                } else {
                    0
                },
            }),
            millis == self@.pause(),
    {
        match &self.capture {
            None => ACCESSIBLE_POLL_MILLIS,
            Some(capture) => if capture.is_retry() {
                CAPTURE_RETRY_MILLIS
            } else {
                0
            },
        }
    }

    /// Goes on with the next image of the mapping, what the path now leads to, and whether the
    /// time to wait is up.
    pub fn advance(
        self,
        image: &PerfMemory,
        path: Option<FileIdentity>,
        timed_out: bool,
    ) -> (progress: ConnectProgress)
        ensures
            progress@ == self@.advance(image@, path, timed_out),
    {
        let Connecting { monitor_id, target, capture } = self;
        match capture {
            None => {
                if let Some(true) = image.is_accessible() {
                    return ConnectProgress::Pending(
                        Connecting { monitor_id, target, capture: Some(Capture::new()) },
                    );
                }
                match path {
                    Some(path) => if !target.file.matches(&path) {
                        return ConnectProgress::Failed(JvmMonitorError::ProcessNotFound(target.pid));
                    },
                    None => return ConnectProgress::Failed(
                        JvmMonitorError::ProcessNotFound(target.pid),
                    ),
                }
                if timed_out {
                    return ConnectProgress::Failed(
                        invalid(
                            "JVM ".to_owned().concat(&decimal(target.pid as u64)).concat(
                                " perfdata did not become accessible within ",
                            ).concat(&decimal(ACCESSIBLE_WAIT_SECONDS)).concat(" seconds"),
                        ),
                    );
                }
                ConnectProgress::Pending(Connecting { monitor_id, target, capture: None })
            },
            Some(capture) => match capture.advance(image) {
                CaptureProgress::Pending(capture) => ConnectProgress::Pending(
                    Connecting { monitor_id, target, capture: Some(capture) },
                ),
                CaptureProgress::Done(Ok((header, index))) => ConnectProgress::Captured(
                    Captured { monitor_id, target, header, index },
                ),
                CaptureProgress::Done(Err(error)) => ConnectProgress::Failed(error),
            },
        }
    }
}

impl Captured {
    #[verifier::type_invariant]
    spec fn sound(self) -> bool {
        self.index@.wf() && self.index@.longs_apart()
    }

    /// Makes the monitor, where what is seen is still the process and the file that the index was
    /// captured from.
    ///
    /// `image` is the latest image of the mapping. `later_start_time` is the start time of the
    /// process, read again in case it was not known before.
    pub fn finish(
        self,
        image: PerfMemory,
        later_start_time: Option<u64>,
        seen: TargetObservation,
    ) -> (monitor: Result<JvmMonitor, JvmMonitorError>)
        ensures
            match monitor {
                Ok(monitor) => {
                    &&& self@.finish_fault(image@.len() as int, later_start_time, seen) is None
                    &&& monitor@ == self@.monitor(image@, later_start_time)
                    &&& monitor@.wf()
                },
                Err(error) => self@.finish_fault(image@.len() as int, later_start_time, seen)
                    == Some(error@),
            },
    {
        proof {
            use_type_invariant(&self);
        }
        let Captured { monitor_id, target, header, index } = self;
        let TargetObservation { start_time: seen_start_time, path, file } = seen;
        let path: FileIdentity = match path {
            Some(path) => path,
            None => return Err(JvmMonitorError::ProcessNotFound(target.pid)),
        };
        let file: FileIdentity = match file {
            Ok(file) => file,
            Err(error) => return Err(JvmMonitorError::from(error)),
        };
        if !target.file.matches(&path) || !target.file.matches(&file) || file.len
            != image.len() as u64 {
            return Err(JvmMonitorError::ProcessNotFound(target.pid));
        }
        let start_time: Option<u64> = match target.start_time {
            Some(start_time) => Some(start_time),
            None => later_start_time,
        };
        if let Some(expected) = start_time {
            match seen_start_time {
                Some(actual) => if actual != expected {
                    return Err(JvmMonitorError::ProcessNotFound(target.pid));
                },
                None => return Err(JvmMonitorError::ProcessNotFound(target.pid)),
            }
        }
        Ok(
            JvmMonitor::connected(
                monitor_id,
                TargetIdentity { start_time, ..target },
                image,
                &header,
                index,
            ),
        )
    }
}

} // verus!
