use vstd::prelude::*;

verus! {

/// A pair of buffers of which one is read (`current`) and the other written
/// (`next`) by a pass; `swap` exchanges the roles for the following pass.
#[derive(Clone, Copy, Debug, PartialEq, Eq, Structural)]
pub struct PingPong<T> {
    pub front: T,
    pub back: T,
}

impl<T: Copy> PingPong<T> {
    /// The pair whose current buffer is `current` and whose next buffer is `next`.
    pub fn new(current: T, next: T) -> (r: PingPong<T>)
        ensures
            r.front == current,
            r.back == next,
    {
        PingPong { front: current, back: next }
    }

    /// The pair with its two roles exchanged.
    pub open spec fn swapped(self) -> PingPong<T> {
        PingPong { front: self.back, back: self.front }
    }

    /// The pair after `n` swaps.
    pub open spec fn swapped_times(self, n: nat) -> PingPong<T> {
        if n % 2 == 0 { self } else { self.swapped() }
    }

    /// The buffer that the next pass reads.
    pub fn current(&self) -> (r: T)
        ensures
            r == self.front,
    {
        self.front
    }

    /// The buffer that the next pass writes.
    pub fn next(&self) -> (r: T)
        ensures
            r == self.back,
    {
        self.back
    }

    /// The buffers that the next pass reads and writes, in that order.
    pub fn read_write(&self) -> (r: (T, T))
        ensures
            r == (self.front, self.back),
    {
        (self.front, self.back)
    }

    /// Exchanges the roles: what was written becomes what is read.
    pub fn swap(&mut self)
        ensures
            *final(self) == old(self).swapped(),
    {
        let front = self.front;
        self.front = self.back;
        self.back = front;
    }
}

/// Swapping twice restores the pair, and after a swap the pass reads what the
/// pass before it wrote.
pub proof fn lemma_swap_involution<T: Copy>(p: PingPong<T>)
    ensures
        p.swapped().swapped() == p,
        p.swapped().front == p.back,
        p.swapped().back == p.front,
{
}

/// Swapping `m` times and then `n` times is swapping `m + n` times.
pub proof fn lemma_swapped_times_add<T: Copy>(p: PingPong<T>, m: nat, n: nat)
    ensures
        p.swapped_times(m).swapped_times(n) == p.swapped_times(m + n),
{
}

} // verus!
