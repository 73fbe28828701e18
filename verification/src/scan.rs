//! The course of a scan: launching one probe per port, waiting for every
//! probe's task to end, then closing the scan into its report.
//!
//! A [`Scan`] keeps the receiving end of the result channel and counts the
//! tasks. Its owner spawns a task for each prober that [`Scan::launch`] hands
//! out, reports each task's end to [`Scan::join`], and calls [`Scan::finish`]
//! once no task is left.

use vstd::prelude::*;
use tokio::sync::mpsc::{Receiver, Sender};
use crate::channel::{bounded, buffer_size, drain};
use crate::probe::{ProbePhase, ProbeResult, Prober, ProberView};
use crate::report::{consistent, ScanReport};
use crate::target::{Target, TargetView};

verus! {

/// How the task that ran a probe ended.
#[derive(Clone, Copy, Debug, PartialEq, Eq, Structural)]
pub enum TaskEnd {
    /// The probe ran to its end, whatever it found.
    Completed,
    /// The task broke off abnormally.
    Faulted,
}

/// The mathematical content of a [`Scan`].
pub struct ScanView {
    pub target: TargetView,
    /// How many probers have been handed out.
    pub launched: int,
    /// How many tasks have ended.
    pub joined: int,
    /// How many of those ended abnormally.
    pub faulted: int,
}

impl ScanView {
    pub open spec fn wf(self) -> bool {
        &&& self.target.wf()
        &&& 0 <= self.faulted <= self.joined <= self.launched <= self.target.count()
    }

    /// A scan of `target` before its first launch.
    pub open spec fn fresh(target: TargetView) -> ScanView {
        ScanView { target, launched: 0, joined: 0, faulted: 0 }
    }

    /// Some port has no prober yet.
    pub open spec fn launching(self) -> bool {
        self.launched < self.target.count()
    }

    /// The port that the next prober is for.
    pub open spec fn next_port(self) -> int {
        self.target.start + self.launched
    }

    /// Some task that was launched has not ended yet.
    pub open spec fn awaiting(self) -> bool {
        self.joined < self.launched
    }

    /// Every port has had its prober and every task has ended.
    pub open spec fn complete(self) -> bool {
        self.launched == self.target.count() && self.joined == self.launched
    }

    /// The scan after one more launch.
    pub open spec fn after_launch(self) -> ScanView {
        if self.launching() {
            ScanView { launched: self.launched + 1, ..self }
        } else {
            self
        }
    }

    /// The scan after a task has ended with `end`. However it ended, it counts
    /// as joined.
    pub open spec fn after_join(self, end: TaskEnd) -> ScanView {
        if self.awaiting() {
            ScanView {
                joined: self.joined + 1,
                faulted: if end is Faulted {
                    self.faulted + 1
                } else {
                    self.faulted
                },
                ..self
            }
        } else {
            self
        }
    }
}

/// A scan in progress.
#[derive(Debug)]
pub struct Scan {
    target: Target,
    launched: u32,
    joined: u32,
    faulted: u32,
    rx: Receiver<ProbeResult>,
}

impl View for Scan {
    type V = ScanView;

    closed spec fn view(&self) -> ScanView {
        ScanView {
            target: self.target@,
            launched: self.launched as int,
            joined: self.joined as int,
            faulted: self.faulted as int,
        }
    }
}

impl Scan {
    #[verifier::type_invariant]
    pub open spec fn valid(self) -> bool {
        self@.wf()
    }

    /// Starts a scan of `target` and opens its result channel. The scan keeps
    /// the receiving end; the sending end comes back, to be cloned for each
    /// prober's task and dropped once all of them have ended. The channel
    /// buffers one result for each port of the range, so that no prober ever
    /// has to wait for room, however many ports are open.
    pub fn open(target: Target) -> (opened: (Scan, Sender<ProbeResult>))
        ensures
            opened.0@ == ScanView::fresh(target@),
            opened.0@.wf(),
            buffer_size(opened.1) == target@.count(),
    {
        proof {
            use_type_invariant(&target);
        }
        let capacity = target.port_count() as usize;
        let (tx, rx) = bounded(capacity);
        (Scan { target, launched: 0, joined: 0, faulted: 0, rx }, tx)
    }

    /// The target of this scan.
    pub fn target(&self) -> (target: Target)
        ensures
            target@ == self@.target,
    {
        self.target
    }

    /// The number of tasks that ended abnormally so far.
    pub fn faulted(&self) -> (n: u32)
        ensures
            n == self@.faulted,
    {
        self.faulted
    }

    /// Whether every port has had its prober and every task has ended.
    pub fn is_complete(&self) -> (b: bool)
        ensures
            b == self@.complete(),
            self@.wf(),
    {
        proof {
            use_type_invariant(self);
        }
        let count = self.target.port_count();
        self.launched == count && self.joined == count
    }

    /// Hands out the prober for the next port, in ascending order of ports,
    /// starting with the first port of the range. Once every port has had its
    /// prober, `None` comes back and the scan stays as it is.
    pub fn launch(&mut self) -> (prober: Option<Prober>)
        ensures
            final(self)@ == old(self)@.after_launch(),
            final(self)@.wf(),
            old(self)@.launching() ==> prober is Some && prober->Some_0@ == (ProberView {
                address: old(self)@.target.address,
                port: old(self)@.next_port() as u16,
                phase: ProbePhase::Connecting,
            }),
            !old(self)@.launching() ==> prober is None,
    {
        proof {
            use_type_invariant(&*self);
        }
        let count = self.target.port_count();
        if self.launched < count {
            let port = self.target.start() + (self.launched as u16);
            self.launched = self.launched + 1;
            Some(Prober::new(self.target.address(), port))
        } else {
            None
        }
    }

    /// Records that a task has ended. A task that ended abnormally is counted
    /// as joined like any other, and as faulted besides; nothing else changes,
    /// and the scan goes on. The answer is `false`, and the scan stays as it
    /// is, when no launched task is outstanding.
    pub fn join(&mut self, end: TaskEnd) -> (counted: bool)
        ensures
            final(self)@ == old(self)@.after_join(end),
            final(self)@.wf(),
            counted == old(self)@.awaiting(),
    {
        proof {
            use_type_invariant(&*self);
        }
        if self.joined < self.launched {
            self.joined = self.joined + 1;
            match end {
                TaskEnd::Faulted => {
                    self.faulted = self.faulted + 1;
                },
                TaskEnd::Completed => {},
            }
            true
        } else {
            false
        }
    }

    /// Closes the scan: takes what the probers delivered out of the channel
    /// and builds the report from it. This is done only once the scan is
    /// complete; before that the scan comes back untouched. At most one
    /// result for each port is taken, which is all that the channel can hold.
    /// Which results these are lies with the probers' tasks; whatever they
    /// are, the report keeps none that the target does not admit and none
    /// twice, as [`ScanReport::assemble`] says.
    pub fn finish(self) -> (closed: Result<ScanReport, Scan>)
        ensures
            self@.complete() ==> closed is Ok && closed->Ok_0.scanned() == self@.target
                && consistent(self@.target, closed->Ok_0@) && closed->Ok_0@.len()
                <= self@.target.count(),
            !self@.complete() ==> closed is Err && closed->Err_0@ == self@,
    {
        if self.is_complete() {
            let Scan { target, launched, mut rx, .. } = self;
            let delivered = drain(&mut rx, launched as usize);
            Ok(ScanReport::assemble(target, &delivered))
        } else {
            Err(self)
        }
    }
}

} // verus!
