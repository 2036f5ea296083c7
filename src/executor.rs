use vstd::prelude::*;

verus! {

/// What one poll of the driven future reported.
#[derive(Debug, PartialEq, Eq)]
pub enum PollState<T> {
    Ready(T),
    Pending,
}

/// What the blocking driver does next.
#[derive(Debug, PartialEq, Eq)]
pub enum ExecutorStep<T> {
    /// Block until the device reports progress, then poll again.
    WaitForDevice,
    /// The future is done: hand back its output.
    Finish(T),
}

/// `x + 1`, held at `u64::MAX`.
pub open spec fn saturating_inc(x: u64) -> u64 {
    if x == u64::MAX {
        x
    } else {
        (x + 1) as u64
    }
}

/// Decision state of a single-future blocking driver. Progress comes only from
/// waiting on the device; the waker is never used.
#[derive(Clone, Copy, Debug, PartialEq, Eq, Structural)]
pub struct BlockOn {
    /// Polls seen so far.
    pub polls: u64,
    /// Device waits requested so far.
    pub device_waits: u64,
}

impl BlockOn {
    /// A driver that has not polled yet.
    pub fn new() -> (r: BlockOn)
        ensures
            r.polls == 0,
            r.device_waits == 0,
    {
        BlockOn { polls: 0, device_waits: 0 }
    }

    /// Decides what follows one poll: a pending future makes the driver wait on
    /// the device, a ready one ends the drive with its output.
    pub fn on_poll<T>(&mut self, p: PollState<T>) -> (r: ExecutorStep<T>)
        ensures
            final(self).polls == saturating_inc(old(self).polls),
            p is Pending ==> r is WaitForDevice && final(self).device_waits == saturating_inc(
                old(self).device_waits,
            ),
            p matches PollState::Ready(v) ==> r == ExecutorStep::Finish(v)
                && final(self).device_waits == old(self).device_waits,
    {
        self.polls = self.polls.saturating_add(1);
        match p {
            PollState::Pending => {
                self.device_waits = self.device_waits.saturating_add(1);
                ExecutorStep::WaitForDevice
            },
            PollState::Ready(v) => ExecutorStep::Finish(v),
        }
    }
}

} // verus!
