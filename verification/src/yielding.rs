//! A computation that gives way a fixed number of times before it is done.
//! It is the smallest computation an executor can be tried on: each resume
//! either finishes it or asks for one more turn.

use crate::executor::Poll;
use vstd::prelude::*;

verus! {

/// A computation that gives way `rem` more times.
#[derive(Clone, Copy, Debug, PartialEq, Eq, Structural)]
pub struct Yield {
    pub rem: usize,
}

/// What a resume of a [`Yield`] reported, and whether it asked to be woken
/// again at once.
#[derive(Debug, PartialEq, Eq)]
pub struct Yielded {
    pub polled: Poll<()>,
    pub wake: bool,
}

/// The computation after `n` resumes.
pub open spec fn after_polls(y: Yield, n: nat) -> Yield
    decreases n,
{
    if n == 0 || y.rem == 0 {
        y
    } else {
        after_polls(Yield { rem: (y.rem - 1) as usize }, (n - 1) as nat)
    }
}

impl Yield {
    /// One resume: with nothing left to give way for, the computation is
    /// done; otherwise it counts down, asks to be woken, and stays
    /// suspended.
    pub fn poll(&mut self) -> (r: Yielded)
        ensures
            old(self).rem == 0 ==> r == (Yielded { polled: Poll::Ready(()), wake: false })
                && *final(self) == *old(self),
            old(self).rem > 0 ==> r == (Yielded { polled: Poll::Pending, wake: true })
                && final(self).rem == old(self).rem - 1,
    {
        if self.rem == 0 {
            Yielded { polled: Poll::Ready(()), wake: false }
        } else {
            self.rem = self.rem - 1;
            Yielded { polled: Poll::Pending, wake: true }
        }
    }

    /// Resumes the computation until it is done and returns the number of
    /// resumes that took.
    pub fn run(&mut self) -> (polls: usize)
        requires
            old(self).rem < usize::MAX,
        ensures
            polls == old(self).rem + 1,
            final(self).rem == 0,
    {
        let mut polls: usize = 0;
        loop
            invariant
                polls + self.rem == old(self).rem,
                old(self).rem < usize::MAX,
            decreases self.rem,
        {
            let r = self.poll();
            polls = polls + 1;
            match r.polled {
                Poll::Ready(_) => {
                    return polls;
                },
                Poll::Pending => {},
            }
        }
    }
}

/// A computation that gives way `rem` times is suspended for exactly `rem`
/// resumes: after `n` of them it has `rem - n` left, and none after `rem`.
pub proof fn lemma_yield_counts_down(y: Yield, n: nat)
    ensures
        after_polls(y, n).rem == if n <= y.rem {
            y.rem - n
        } else {
            0
        },
    decreases n,
{
    if n > 0 && y.rem > 0 {
        lemma_yield_counts_down(Yield { rem: (y.rem - 1) as usize }, (n - 1) as nat);
    }
}

} // verus!
