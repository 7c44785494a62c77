//! Taking a consistent index out of perfdata that the JVM keeps changing.
//!
//! One attempt looks at the mapping twice. The first image gives the prologue and the entries, the
//! second tells whether the structure held still in between.

use vstd::prelude::*;
use vstd::string::*;

use crate::error::{invalid, Fault, JvmMonitorError};
use crate::index::{IndexView, PerfIndex};
use crate::perfdata::{parse_index, PerfHeader, PerfMemory};

verus! {

/// How many times a capture is attempted.
pub const MAX_CAPTURE_ATTEMPTS: u8 = 5;

/// A capture that waits for the next image of the mapping.
pub struct Capture {
    attempts_left: u8,
    last_error: Option<JvmMonitorError>,
    taken: Option<(PerfHeader, Vec<u8>)>,
}

/// What a capture has seen so far.
pub struct CaptureView {
    /// Attempts left, the one under way included.
    pub attempts_left: int,
    /// Why the entries of the last still image could not be read.
    pub last_error: Option<Fault>,
    /// The prologue and the used bytes of the first image of this attempt.
    pub taken: Option<(PerfHeader, Seq<u8>)>,
}

/// Where a capture stands after an image.
pub enum CaptureProgress {
    /// It has ended.
    Done(Result<(PerfHeader, PerfIndex), JvmMonitorError>),
    /// It needs another image.
    Pending(Capture),
}

/// Where a capture stands after an image.
pub enum CaptureOutcome {
    Done(Result<(PerfHeader, IndexView), Fault>),
    Pending(CaptureView),
}

impl View for CaptureProgress {
    type V = CaptureOutcome;

    open spec fn view(&self) -> CaptureOutcome {
        match *self {
            CaptureProgress::Done(Ok((header, index))) => CaptureOutcome::Done(
                Ok((header, index@)),
            ),
            CaptureProgress::Done(Err(error)) => CaptureOutcome::Done(Err(error@)),
            CaptureProgress::Pending(capture) => CaptureOutcome::Pending(capture@),
        }
    }
}

impl View for Capture {
    type V = CaptureView;

    closed spec fn view(&self) -> CaptureView {
        CaptureView {
            attempts_left: self.attempts_left as int,
            last_error: match self.last_error {
                Some(error) => Some(error@),
                None => None,
            },
            taken: match self.taken {
                Some((header, bytes)) => Some((header, bytes@)),
                None => None,
            },
        }
    }
}

impl CaptureView {
    /// A capture that has seen nothing.
    pub open spec fn fresh() -> CaptureView {
        CaptureView { attempts_left: MAX_CAPTURE_ATTEMPTS as int, last_error: None, taken: None }
    }

    /// The used bytes of a first image fill what its prologue says.
    pub open spec fn wf(self) -> bool {
        &&& 1 <= self.attempts_left <= MAX_CAPTURE_ATTEMPTS
        &&& self.taken is Some ==> {
            let (header, bytes) = self.taken->0;
            bytes.len() == header.used && header.accessible && header.layout_fault(
                bytes.len() as int,
            ) is None
        }
    }

    /// The first image of an attempt: an accessible mapping with a sound layout is taken down.
    pub open spec fn take_first(self, image: Seq<u8>) -> CaptureOutcome {
        match crate::perfdata::mapped_header(image) {
            Err(fault) => CaptureOutcome::Done(Err(fault)),
            Ok(header) => if !header.accessible {
                CaptureOutcome::Done(
                    Err(crate::perfdata::rejection("target perfdata is not accessible"@)),
                )
            } else {
                match header.layout_fault(image.len() as int) {
                    Some(fault) => CaptureOutcome::Done(Err(fault)),
                    None => CaptureOutcome::Pending(
                        CaptureView {
                            taken: Some((header, image.subrange(0, header.used as int))),
                            ..self
                        },
                    ),
                }
            },
        }
    }

    /// The end of an attempt without an index: the next one, or the last error.
    pub open spec fn give_up(self, last_error: Option<Fault>) -> CaptureOutcome {
        if self.attempts_left > 1 {
            CaptureOutcome::Pending(
                CaptureView { attempts_left: self.attempts_left - 1, last_error, taken: None },
            )
        } else {
            CaptureOutcome::Done(
                Err(
                    match last_error {
                        Some(fault) => fault,
                        None => crate::perfdata::rejection(
                            "perfdata structure kept changing while the index was captured"@,
                        ),
                    },
                ),
            )
        }
    }

    /// The second image of an attempt: where the structure held still, the entries are read.
    pub open spec fn confirm(self, header: PerfHeader, bytes: Seq<u8>, image: Seq<u8>) -> CaptureOutcome {
        match crate::perfdata::mapped_header(image) {
            Err(fault) => CaptureOutcome::Done(Err(fault)),
            Ok(after) => if header.describes_same(after) {
                match crate::perfdata::index_value(bytes, header) {
                    Ok(index) => CaptureOutcome::Done(Ok((header, index))),
                    Err(fault) => self.give_up(Some(fault)),
                }
            } else {
                self.give_up(self.last_error)
            },
        }
    }

    /// How many milliseconds to wait before the next image: a little after an attempt that failed.
    pub open spec fn pause(self) -> u64 {
        if self.taken is None && self.attempts_left < MAX_CAPTURE_ATTEMPTS {
            crate::connect::CAPTURE_RETRY_MILLIS
        } else {
            0
        }
    }

    /// Where the capture stands after the given image.
    pub open spec fn advance(self, image: Seq<u8>) -> CaptureOutcome {
        match self.taken {
            None => self.take_first(image),
            Some((header, bytes)) => self.confirm(header, bytes, image),
        }
    }

    /// How many more images the capture can ask for.
    pub open spec fn patience(self) -> int {
        2 * self.attempts_left - (if self.taken is Some {
            1int
        } else {
            0int
        })
    }

    /// A capture asks for finitely many images, and only an accessible mapping with a sound layout
    /// and an index free of clashes ends it well.
    pub proof fn lemma_advance(self, image: Seq<u8>)
        requires
            self.wf(),
        ensures
            match self.advance(image) {
                CaptureOutcome::Pending(next) => next.wf() && 0 < next.patience()
                    < self.patience(),
                CaptureOutcome::Done(Ok((header, index))) => {
                    &&& header.accessible
                    &&& header.layout_fault(header.used as int) is None
                    &&& index.wf()
                    &&& index.longs_apart()
                    &&& index.values_within(header.used as int)
                    &&& index.names.len() == header.num_entries
                },
                CaptureOutcome::Done(Err(_)) => true,
            },
    {
        if let Some((header, bytes)) = self.taken {
            if crate::perfdata::index_value(bytes, header) is Ok {
                crate::perfdata::law_index_is_complete(bytes, header);
            }
        }
    }
}

impl CaptureView {
    /// Whether what was taken down fits in a mapping of the given length.
    pub open spec fn within(self, len: int) -> bool {
        match self.taken {
            Some((_, bytes)) => bytes.len() <= len,
            None => true,
        }
    }

    /// A capture whose images have the length of the mapping takes nothing beyond it.
    pub proof fn lemma_within(self, image: Seq<u8>)
        requires
            self.wf(),
            self.within(image.len() as int),
        ensures
            match self.advance(image) {
                CaptureOutcome::Pending(next) => next.within(image.len() as int),
                CaptureOutcome::Done(Ok((header, _))) => header.used <= image.len(),
                CaptureOutcome::Done(Err(_)) => true,
            },
    {
    }

    /// What a capture comes to that sees the same image again and again.
    pub open spec fn run_still(self, image: Seq<u8>) -> Result<(PerfHeader, IndexView), Fault>
        decreases self.patience(),
        when self.wf()
    {
        proof {
            self.lemma_advance(image);
        }
        match self.advance(image) {
            CaptureOutcome::Pending(next) => next.run_still(image),
            CaptureOutcome::Done(captured) => captured,
        }
    }

    /// The first image of an attempt either ends a capture of still perfdata as they are read, or
    /// is taken down for the second.
    proof fn lemma_still_first(self, image: Seq<u8>)
        requires
            self.taken is None,
            image.len() >= crate::perfdata::PROLOGUE_SIZE,
        ensures
            match self.advance(image) {
                CaptureOutcome::Done(captured) => captured == crate::perfdata::snapshot_value(
                    image,
                ),
                CaptureOutcome::Pending(next) => {
                    &&& next.taken is Some
                    &&& next.attempts_left == self.attempts_left
                    &&& next.last_error == self.last_error
                    &&& match next.advance(image) {
                        CaptureOutcome::Done(Ok(captured)) => crate::perfdata::snapshot_value(image)
                            == Ok::<(PerfHeader, IndexView), Fault>(captured),
                        CaptureOutcome::Done(Err(fault)) => crate::perfdata::snapshot_value(image)
                            == Err::<(PerfHeader, IndexView), Fault>(fault),
                        CaptureOutcome::Pending(again) => {
                            &&& again.taken is None
                            &&& again.attempts_left == self.attempts_left - 1
                            &&& again.last_error is Some
                            &&& crate::perfdata::snapshot_value(image) == Err::<
                                (PerfHeader, IndexView),
                                Fault,
                            >(again.last_error->0)
                        },
                    }
                },
            },
    {
        crate::perfdata::lemma_header_value(image);
        if let CaptureOutcome::Pending(next) = self.advance(image) {
            let (header, _) = next.taken->0;
            crate::perfdata::lemma_index_of_used(image, header);
        }
    }

    proof fn lemma_run_still(self, image: Seq<u8>)
        requires
            self.wf(),
            self.taken is None,
            image.len() >= crate::perfdata::PROLOGUE_SIZE,
        ensures
            self.run_still(image) == crate::perfdata::snapshot_value(image),
        decreases self.attempts_left,
    {
        self.lemma_still_first(image);
        self.lemma_advance(image);
        if let CaptureOutcome::Pending(next) = self.advance(image) {
            next.lemma_advance(image);
            assert(self.run_still(image) == next.run_still(image));
            if let CaptureOutcome::Pending(again) = next.advance(image) {
                again.lemma_run_still(image);
                assert(next.run_still(image) == again.run_still(image));
            }
        }
    }

    /// A capture of perfdata that hold still reads just what a copy of them holds, and fails just
    /// where they are malformed.
    pub proof fn law_still_capture(image: Seq<u8>)
        requires
            image.len() >= crate::perfdata::PROLOGUE_SIZE,
        ensures
            CaptureView::fresh().run_still(image) == crate::perfdata::snapshot_value(image),
    {
        CaptureView::fresh().lemma_run_still(image);
    }

    /// Two looks at well-formed perfdata that hold still are enough.
    pub proof fn law_two_looks(image: Seq<u8>)
        requires
            crate::perfdata::snapshot_value(image) is Ok,
        ensures
            CaptureView::fresh().advance(image) matches CaptureOutcome::Pending(taken)
                && taken.advance(image) == CaptureOutcome::Done(
                Ok(crate::perfdata::snapshot_value(image)->Ok_0),
            ),
    {
        crate::perfdata::lemma_header_value(image);
        let (header, _) = crate::perfdata::snapshot_value(image)->Ok_0;
        crate::perfdata::lemma_index_of_used(image, header);
    }
}

impl Capture {
    #[verifier::type_invariant]
    spec fn sound(self) -> bool {
        self@.wf()
    }

    /// Starts a capture.
    pub fn new() -> (capture: Capture)
        ensures
            capture@ == CaptureView::fresh(),
            capture@.wf(),
    {
        Capture { attempts_left: MAX_CAPTURE_ATTEMPTS, last_error: None, taken: None }
    }

    /// Whether an attempt has just failed. The next image is then worth a short wait.
    pub fn is_retry(&self) -> (retry: bool)
        ensures
            retry == (self@.taken is None && self@.attempts_left < MAX_CAPTURE_ATTEMPTS),
    {
        self.taken.is_none() && self.attempts_left < MAX_CAPTURE_ATTEMPTS
    }

    /// Goes on with the next image of the mapping.
    pub fn advance(self, image: &PerfMemory) -> (progress: CaptureProgress)
        ensures
            progress@ == self@.advance(image@),
            progress matches CaptureProgress::Pending(capture) ==> capture@.wf(),
            progress matches CaptureProgress::Done(Ok((_, index))) ==> index@.wf()
                && index@.longs_apart(),
    {
        proof {
            use_type_invariant(&self);
            self@.lemma_advance(image@);
        }
        let Capture { attempts_left, last_error, taken } = self;
        let current: PerfHeader = match image.header() {
            Ok(header) => header,
            Err(error) => return CaptureProgress::Done(Err(error)),
        };
        match taken {
            None => {
                if !current.accessible {
                    return CaptureProgress::Done(
                        Err(invalid("target perfdata is not accessible".to_owned())),
                    );
                }
                match current.validate_layout(image.len()) {
                    Ok(_) => {},
                    Err(error) => return CaptureProgress::Done(Err(error)),
                }
                match image.copy_bytes(0, current.used) {
                    Some(bytes) => CaptureProgress::Pending(
                        Capture { attempts_left, last_error, taken: Some((current, bytes)) },
                    ),
                    None => CaptureProgress::Done(
                        Err(invalid("perfdata changed size while being captured".to_owned())),
                    ),
                }
            },
            Some((header, bytes)) => {
                let mut last_error: Option<JvmMonitorError> = last_error;
                if header.same_structure(&current) {
                    match parse_index(bytes.as_slice(), &header) {
                        Ok(index) => return CaptureProgress::Done(Ok((header, index))),
                        Err(error) => {
                            last_error = Some(error);
                        },
                    }
                }
                if attempts_left > 1 {
                    CaptureProgress::Pending(
                        Capture { attempts_left: attempts_left - 1, last_error, taken: None },
                    )
                } else {
                    match last_error {
                        Some(error) => CaptureProgress::Done(Err(error)),
                        None => CaptureProgress::Done(
                            Err(
                                invalid(
                                    "perfdata structure kept changing while the index was captured".to_owned(),
                                ),
                            ),
                        ),
                    }
                }
            },
        }
    }
}

} // verus!
