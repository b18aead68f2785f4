//! Per-object monitors.
//!
//! A monitor is reentrant: `monitorenter` by the owning thread succeeds and
//! raises the hold count; each `monitorexit` lowers it; the monitor is
//! released when the count reaches zero. A thread that does not own a held
//! monitor must wait; `monitorexit` by a non-owner is an
//! `IllegalMonitorState` condition.

use vstd::prelude::*;

use crate::errors::ExKind;

verus! {

pub type ThreadId = u64;

/// The state of one monitor: its owner, if held, and the hold count. The
/// count is positive exactly when an owner exists.
#[derive(Clone, Copy, Debug, PartialEq, Eq, Structural)]
pub struct Monitor {
    pub owner: Option<ThreadId>,
    pub count: u64,
}

/// What a `monitorenter` attempt did.
#[derive(Clone, Copy, Debug, PartialEq, Eq, Structural)]
pub enum EnterOutcome {
    Acquired,
    WouldBlock,
}

impl Monitor {
    pub open spec fn wf(self) -> bool {
        self.owner is Some <==> self.count > 0
    }

    pub fn new() -> (r: Monitor)
        ensures
            r.wf(),
            r.owner is None,
            r.count == 0,
    {
        Monitor { owner: None, count: 0 }
    }

    /// `monitorenter`: a free monitor is acquired with count one; reentry by
    /// the owner raises the count by one; a monitor held by another thread
    /// makes the caller wait.
    pub fn enter(&mut self, tid: ThreadId) -> (r: EnterOutcome)
        requires
            old(self).wf(),
            old(self).count < u64::MAX,
        ensures
            final(self).wf(),
            match old(self).owner {
                None => r == EnterOutcome::Acquired && final(self).owner == Some(tid)
                    && final(self).count == 1,
                Some(o) => if o == tid {
                    r == EnterOutcome::Acquired && final(self).owner == Some(tid)
                        && final(self).count == old(self).count + 1
                } else {
                    r == EnterOutcome::WouldBlock && *final(self) == *old(self)
                },
            },
    {
        match self.owner {
            None => {
                self.owner = Some(tid);
                self.count = 1;
                EnterOutcome::Acquired
            },
            Some(o) => {
                if o == tid {
                    self.count = self.count + 1;
                    EnterOutcome::Acquired
                } else {
                    EnterOutcome::WouldBlock
                }
            },
        }
    }

    /// `monitorexit`: the owner lowers the count by one and releases the
    /// monitor at zero; any other thread raises `IllegalMonitorState`.
    pub fn exit(&mut self, tid: ThreadId) -> (r: Result<(), ExKind>)
        requires
            old(self).wf(),
        ensures
            final(self).wf(),
            match old(self).owner {
                Some(o) => if o == tid {
                    r == Ok::<(), ExKind>(()) && final(self).count == old(self).count - 1
                        && final(self).owner == if old(self).count == 1 {
                        Option::<ThreadId>::None
                    } else {
                        Some(tid)
                    }
                } else {
                    r == Err::<(), ExKind>(ExKind::IllegalMonitorState)
                        && *final(self) == *old(self)
                },
                None => r == Err::<(), ExKind>(ExKind::IllegalMonitorState) && *final(self)
                    == *old(self),
            },
    {
        match self.owner {
            Some(o) => {
                if o == tid {
                    self.count = self.count - 1;
                    if self.count == 0 {
                        self.owner = None;
                    }
                    Ok(())
                } else {
                    Err(ExKind::IllegalMonitorState)
                }
            },
            None => Err(ExKind::IllegalMonitorState),
        }
    }

    /// Monitor reentry round trip: entering a monitor the thread already
    /// holds and then exiting brings it back to the same state.
    pub proof fn lemma_reenter_exit_round(m: Monitor, tid: ThreadId)
        requires
            m.wf(),
            m.owner == Some(tid),
            m.count < u64::MAX,
        ensures
            ({
                let entered = Monitor { owner: Some(tid), count: (m.count + 1) as u64 };
                let exited = Monitor { owner: Some(tid), count: m.count };
                entered.wf() && exited == m
            }),
    {
    }
}

} // verus!
