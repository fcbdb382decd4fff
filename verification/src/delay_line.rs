//! Circular delay-line addressing shared by the FIR filter and the cabinet
//! convolution.
//!
//! A delay line of `N` slots is written at a position that advances by one
//! slot per sample and wraps around; tap `i` of the convolution reads the
//! sample written `i` steps earlier.

use vstd::prelude::*;

verus! {

/// Slot that tap `i` reads when the newest sample sits at `pos`.
pub open spec fn tap_slot(pos: int, i: int, n: int) -> int {
    (pos - i) % n
}

/// The slot `k` steps before `idx`, stepping back one slot at a time.
pub open spec fn step_back_times(idx: int, k: nat, n: int) -> int
    decreases k,
{
    if k == 0 {
        idx
    } else {
        let prev = step_back_times(idx, (k - 1) as nat, n);
        if prev == 0 {
            n - 1
        } else {
            prev - 1
        }
    }
}

/// Write position of a circular delay line with `N` slots.
pub struct DelayCursor<const N: usize> {
    write_pos: usize,
}

impl<const N: usize> DelayCursor<N> {
    /// The slot that the next sample is written to.
    pub closed spec fn pos(&self) -> nat {
        self.write_pos as nat
    }

    /// The position lies inside the line.
    #[verifier::type_invariant]
    spec fn wf(&self) -> bool {
        self.write_pos < N
    }

    /// A cursor at the first slot.
    pub fn new() -> (c: Self)
        requires
            N > 0,
        ensures
            c.pos() == 0,
    {
        DelayCursor { write_pos: 0 }
    }

    /// The slot that the next sample is written to.
    pub fn write_pos(&self) -> (p: usize)
        ensures
            p == self.pos(),
            p < N,
    {
        proof {
            use_type_invariant(self);
        }
        self.write_pos
    }

    /// The slot that tap `i` reads: `i` samples before the newest one.
    pub fn tap(&self, i: usize) -> (s: usize)
        requires
            i < N,
        ensures
            s == tap_slot(self.pos() as int, i as int, N as int),
            s < N,
            i <= self.pos() ==> s == self.pos() - i,
            i > self.pos() ==> s == self.pos() + N - i,
    {
        proof {
            use_type_invariant(self);
            if i <= self.write_pos {
                vstd::arithmetic::div_mod::lemma_small_mod((self.write_pos - i) as nat, N as nat);
            } else {
                vstd::arithmetic::div_mod::lemma_mod_add_multiples_vanish(self.write_pos - i, N as int);
                vstd::arithmetic::div_mod::lemma_small_mod((self.write_pos + N - i) as nat, N as nat);
            }
        }
        if i <= self.write_pos {
            self.write_pos - i
        } else {
            self.write_pos + (N - i)
        }
    }

    /// The slot just before `idx`, wrapping from the first slot to the last.
    pub fn step_back(idx: usize) -> (p: usize)
        requires
            idx < N,
        ensures
            p == step_back_times(idx as int, 1, N as int),
            p == tap_slot(idx as int, 1, N as int),
            p < N,
            idx == 0 ==> p == N - 1,
            idx > 0 ==> p == idx - 1,
    {
        proof {
            lemma_step_back_reaches_tap(idx as int, 1, N as int);
            reveal_with_fuel(step_back_times, 2);
        }
        if idx == 0 {
            N - 1
        } else {
            idx - 1
        }
    }

    /// Moves to the next slot, wrapping after the last one.
    pub fn advance(&mut self)
        ensures
            final(self).pos() == (old(self).pos() + 1) % (N as nat),
            final(self).pos() < N,
    {
        proof {
            use_type_invariant(&*self);
        }
        self.write_pos = (self.write_pos + 1) % N;
    }

    /// Moves back to the first slot.
    pub fn reset(&mut self)
        ensures
            final(self).pos() == 0,
    {
        proof {
            use_type_invariant(&*self);
        }
        self.write_pos = 0;
    }
}

/// One slot back from `a` modulo `n` is `n - 1` when `a` sits on the
/// first slot and one less than its slot otherwise.
proof fn lemma_mod_pred(a: int, n: int)
    requires
        n > 0,
    ensures
        (a - 1) % n == if a % n == 0 { n - 1 } else { a % n - 1 },
{
    let q = a / n;
    let r = a % n;
    vstd::arithmetic::div_mod::lemma_fundamental_div_mod(a, n);
    assert(a == n * q + r);
    if r == 0 {
        assert(a - 1 == (q - 1) * n + (n - 1)) by (nonlinear_arith)
            requires
                a == n * q + r,
                r == 0,
        ;
        vstd::arithmetic::div_mod::lemma_fundamental_div_mod_converse(a - 1, n, q - 1, n - 1);
    } else {
        assert(a - 1 == q * n + (r - 1)) by (nonlinear_arith)
            requires
                a == n * q + r,
        ;
        vstd::arithmetic::div_mod::lemma_fundamental_div_mod_converse(a - 1, n, q, r - 1);
    }
}

/// Stepping back one slot at a time `k` times from `idx` reaches the slot
/// that tap `k` reads: the two ways of walking the line agree.
pub proof fn lemma_step_back_reaches_tap(idx: int, k: nat, n: int)
    requires
        n > 0,
        0 <= idx < n,
    ensures
        step_back_times(idx, k, n) == tap_slot(idx, k as int, n),
    decreases k,
{
    if k == 0 {
        vstd::arithmetic::div_mod::lemma_small_mod(idx as nat, n as nat);
    } else {
        lemma_step_back_reaches_tap(idx, (k - 1) as nat, n);
        lemma_mod_pred(idx - (k - 1), n);
        assert(idx - (k - 1) - 1 == idx - k);
    }
}

/// Tap 0 reads the slot just written, and after advancing, tap 1 reads it:
/// the sample written at a position is found one tap further back after
/// each advance.
pub proof fn lemma_advance_shifts_taps(pos: int, i: int, n: int)
    requires
        n > 0,
        0 <= pos < n,
        0 <= i,
    ensures
        tap_slot(pos, 0, n) == pos,
        tap_slot((pos + 1) % n, i + 1, n) == tap_slot(pos, i, n),
{
    vstd::arithmetic::div_mod::lemma_small_mod(pos as nat, n as nat);
    vstd::arithmetic::div_mod::lemma_add_mod_noop(pos + 1, -(i + 1), n);
    vstd::arithmetic::div_mod::lemma_mod_twice(pos + 1, n);
    assert(((pos + 1) % n) % n == (pos + 1) % n);
    vstd::arithmetic::div_mod::lemma_add_mod_noop((pos + 1) % n, -(i + 1), n);
}

} // verus!
