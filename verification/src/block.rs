//! Blocking driver: runs one polled computation to completion.
//!
//! The viewer needs the result of a one-shot asynchronous negotiation
//! (GPU adapter and device acquisition) at a synchronous call site. The
//! driver repeatedly polls the computation until it resolves and returns
//! the final value; it has no error path of its own. It drives exactly
//! one computation per call and is not a general-purpose scheduler.

use vstd::prelude::*;

verus! {

/// A computation that the blocking driver can poll to completion.
///
/// `remaining` counts the polls that still come back "not yet" before
/// the computation resolves; `value` is the value it resolves to. A poll
/// on a resolved computation yields the value immediately; a poll on a
/// pending one makes one step of progress and preserves the value.
pub trait PollTask {
    type Output;

    /// How many more polls come back "not yet" before resolution.
    spec fn remaining(&self) -> nat;

    /// The value the computation resolves to.
    spec fn value(&self) -> Self::Output;

    /// One poll: `None` while polls remain, then the resolved value.
    fn poll(&mut self) -> (r: Option<Self::Output>)
        ensures
            old(self).remaining() == 0 ==> r == Some(old(self).value()),
            old(self).remaining() > 0 ==> r is None
                && final(self).remaining() == old(self).remaining() - 1
                && final(self).value() == old(self).value(),
    ;
}

/// Drive one computation to completion on the calling thread and return
/// its resolved value; the call does not return before resolution.
///
/// A computation that is already resolved returns on the first poll.
/// Between unresolved polls the caller of the underlying computation is
/// expected to yield the thread's turn; that courtesy lives with the
/// code that wraps a real asynchronous task, not here.
pub fn block_on<T: PollTask>(task: T) -> (r: T::Output)
    ensures
        r == task.value(),
{
    let mut t = task;
    loop
        invariant
            t.value() == task.value(),
        decreases t.remaining(),
    {
        match t.poll() {
            Option::Some(v) => {
                return v;
            },
            Option::None => {},
        }
    }
}

/// As `block_on`, but also reports how many polls were made.
///
/// A computation with `n` pending polls resolves after exactly `n + 1`
/// polls: never earlier, never later, and with the value it was always
/// going to resolve to.
pub fn block_on_counted<T: PollTask>(task: T) -> (r: (T::Output, u64))
    requires
        task.remaining() < u64::MAX,
    ensures
        r.0 == task.value(),
        r.1 == task.remaining() + 1,
{
    let mut t = task;
    let mut polls: u64 = 0;
    loop
        invariant
            t.value() == task.value(),
            t.remaining() + polls == task.remaining(),
            task.remaining() < u64::MAX,
        decreases t.remaining(),
    {
        let step = t.poll();
        polls = polls + 1;
        match step {
            Option::Some(v) => {
                return (v, polls);
            },
            Option::None => {},
        }
    }
}

/// A concrete polled computation: pends for a fixed number of polls and
/// then resolves to a fixed value.
pub struct CountdownTask {
    /// Polls that still come back "not yet".
    pub pending: u64,
    /// The value the computation resolves to.
    pub result: u64,
}

impl PollTask for CountdownTask {
    type Output = u64;

    open spec fn remaining(&self) -> nat {
        self.pending as nat
    }

    open spec fn value(&self) -> u64 {
        self.result
    }

    fn poll(&mut self) -> (r: Option<u64>) {
        if self.pending == 0 {
            Option::Some(self.result)
        } else {
            self.pending = self.pending - 1;
            Option::None
        }
    }
}

} // verus!
