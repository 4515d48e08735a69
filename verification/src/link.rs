//! Lifecycle of the serial link's two device-facing tasks.
//!
//! A serial link owns the device handle and runs one reader task and
//! one writer task for its whole life.  The writer consumes command
//! strings and writes them to the device verbatim; the reader frames
//! device bytes into lines.  Shutdown has exactly one path: when the
//! command stream ends (or a write fails), the writer exits and only
//! then requests the reader's cancellation; the device handle is
//! released only after both tasks have finished.  [`LinkLifecycle`]
//! enforces that ordering: its transitions are the decision points of
//! the two tasks, and its well-formedness carries the ordering as an
//! invariant.

use vstd::prelude::*;

verus! {

/// Identity of a serial link: which device it speaks to, and how fast.
pub struct DeviceConfig {
    pub path: String,
    pub baud: u32,
}

/// Where the writer task stands.
#[derive(Clone, Copy, PartialEq, Eq, Structural, Debug)]
pub enum WriterPhase {
    Running,
    Exited,
}

/// Where the reader task stands.  `CancelRequested` means the exiting
/// writer has asked it to stop; it still counts as unfinished until it
/// actually does.
#[derive(Clone, Copy, PartialEq, Eq, Structural, Debug)]
pub enum ReaderPhase {
    Running,
    CancelRequested,
    Finished,
}

/// What the writer task must do with one received command, or with the
/// end of the command stream.
#[derive(Debug, PartialEq)]
pub enum WriterDirective {
    /// Write exactly these characters to the device: no terminator, no
    /// escaping, no transformation.
    Write(String),
    /// Exit the writer loop and request the reader's cancellation.
    ShutDown,
}

/// The lifecycle of one serial link: the identity of its device and
/// the phases of its two tasks.
pub struct LinkLifecycle {
    path: String,
    baud: u32,
    writer: WriterPhase,
    reader: ReaderPhase,
    device_released: bool,
}

impl LinkLifecycle {
    /// The device path this link was opened on.
    pub closed spec fn spec_path(&self) -> Seq<char> {
        self.path@
    }

    /// The baud rate this link was opened with.
    pub closed spec fn spec_baud(&self) -> u32 {
        self.baud
    }

    /// The writer task's phase.
    pub closed spec fn writer_phase(&self) -> WriterPhase {
        self.writer
    }

    /// The reader task's phase.
    pub closed spec fn reader_phase(&self) -> ReaderPhase {
        self.reader
    }

    /// Whether the device handle has been given back.
    pub closed spec fn device_released(&self) -> bool {
        self.device_released
    }

    /// The shutdown ordering, as an invariant: the reader is only ever
    /// asked to stop by a writer that has already exited, and the
    /// device handle is only ever released once both tasks are done.
    pub open spec fn wf(&self) -> bool {
        &&& (self.reader_phase() == ReaderPhase::CancelRequested ==> self.writer_phase()
            == WriterPhase::Exited)
        &&& (self.device_released() ==> self.writer_phase() == WriterPhase::Exited
            && self.reader_phase() == ReaderPhase::Finished)
    }

    /// A link just brought up on `config`: both tasks running, the
    /// device handle held.
    pub fn new(config: DeviceConfig) -> (link: LinkLifecycle)
        ensures
            link.wf(),
            link.spec_path() == config.path@,
            link.spec_baud() == config.baud,
            link.writer_phase() == WriterPhase::Running,
            link.reader_phase() == ReaderPhase::Running,
            !link.device_released(),
    {
        LinkLifecycle {
            path: config.path,
            baud: config.baud,
            writer: WriterPhase::Running,
            reader: ReaderPhase::Running,
            device_released: false,
        }
    }

    /// The writer task's decision on one receive from the command
    /// queue.  A received command is to be written verbatim and
    /// changes nothing; the end of the stream — every sender dropped —
    /// makes the writer exit and, only then, request the reader's
    /// cancellation.
    pub fn on_command(&mut self, cmd: Option<String>) -> (directive: WriterDirective)
        requires
            old(self).wf(),
            old(self).writer_phase() == WriterPhase::Running,
        ensures
            final(self).wf(),
            final(self).spec_path() == old(self).spec_path(),
            final(self).spec_baud() == old(self).spec_baud(),
            final(self).device_released() == old(self).device_released(),
            match cmd {
                Some(m) => {
                    &&& (directive matches WriterDirective::Write(w) && w@ == m@)
                    &&& final(self).writer_phase() == old(self).writer_phase()
                    &&& final(self).reader_phase() == old(self).reader_phase()
                },
                None => {
                    &&& directive matches WriterDirective::ShutDown
                    &&& final(self).writer_phase() == WriterPhase::Exited
                    &&& final(self).reader_phase() == (if old(self).reader_phase()
                        == ReaderPhase::Finished {
                        ReaderPhase::Finished
                    } else {
                        ReaderPhase::CancelRequested
                    })
                },
            },
    {
        match cmd {
            Some(m) => WriterDirective::Write(m),
            None => {
                self.writer = WriterPhase::Exited;
                if !matches!(self.reader, ReaderPhase::Finished) {
                    self.reader = ReaderPhase::CancelRequested;
                }
                WriterDirective::ShutDown
            },
        }
    }

    /// The writer task's exit on a failed device write: fatal to the
    /// task, never to the process.  It exits and requests the reader's
    /// cancellation exactly as the end of the command stream does; the
    /// session learns of it as a fatal condition separately.
    pub fn on_write_failed(&mut self)
        requires
            old(self).wf(),
            old(self).writer_phase() == WriterPhase::Running,
        ensures
            final(self).wf(),
            final(self).spec_path() == old(self).spec_path(),
            final(self).spec_baud() == old(self).spec_baud(),
            final(self).device_released() == old(self).device_released(),
            final(self).writer_phase() == WriterPhase::Exited,
            final(self).reader_phase() == (if old(self).reader_phase() == ReaderPhase::Finished {
                ReaderPhase::Finished
            } else {
                ReaderPhase::CancelRequested
            }),
    {
        self.writer = WriterPhase::Exited;
        if !matches!(self.reader, ReaderPhase::Finished) {
            self.reader = ReaderPhase::CancelRequested;
        }
    }

    /// The reader task's end, on either path: a failed device read (a
    /// normal, degraded exit — the session lives on) or the completion
    /// of a requested cancellation.
    pub fn on_reader_exit(&mut self)
        requires
            old(self).wf(),
            old(self).reader_phase() != ReaderPhase::Finished,
        ensures
            final(self).wf(),
            final(self).spec_path() == old(self).spec_path(),
            final(self).spec_baud() == old(self).spec_baud(),
            final(self).device_released() == old(self).device_released(),
            final(self).writer_phase() == old(self).writer_phase(),
            final(self).reader_phase() == ReaderPhase::Finished,
    {
        self.reader = ReaderPhase::Finished;
    }

    /// The writer task's phase, for the hosting process to observe.
    pub fn writer_task(&self) -> (p: WriterPhase)
        ensures
            p == self.writer_phase(),
    {
        self.writer
    }

    /// The reader task's phase, for the hosting process to observe.
    pub fn reader_task(&self) -> (p: ReaderPhase)
        ensures
            p == self.reader_phase(),
    {
        self.reader
    }

    /// Whether the device handle has been given back.
    pub fn released(&self) -> (r: bool)
        ensures
            r == self.device_released(),
    {
        self.device_released
    }

    /// Gives the device handle back.  Allowed only once both tasks are
    /// done: the handle outlives every task that could touch it.
    pub fn release_device(&mut self)
        requires
            old(self).wf(),
            old(self).writer_phase() == WriterPhase::Exited,
            old(self).reader_phase() == ReaderPhase::Finished,
        ensures
            final(self).wf(),
            final(self).spec_path() == old(self).spec_path(),
            final(self).spec_baud() == old(self).spec_baud(),
            final(self).writer_phase() == old(self).writer_phase(),
            final(self).reader_phase() == old(self).reader_phase(),
            final(self).device_released(),
    {
        self.device_released = true;
    }
}

/// Shutdown ordering law: in every well-formed link state, a released
/// device handle means the writer has exited and the reader has
/// finished, and a pending cancellation request on the reader means
/// the writer has already exited — the writer's exit is the only thing
/// that cancels the reader, and nothing outlives the handle.
pub proof fn lemma_shutdown_ordering(link: LinkLifecycle)
    requires
        link.wf(),
    ensures
        link.device_released() ==> link.writer_phase() == WriterPhase::Exited
            && link.reader_phase() == ReaderPhase::Finished,
        link.reader_phase() == ReaderPhase::CancelRequested ==> link.writer_phase()
            == WriterPhase::Exited,
{
}

} // verus!
