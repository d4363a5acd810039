use vstd::prelude::*;

use crate::storage::{Stream, StreamView};
use crate::types::Address;

verus! {

impl StreamView {
    /// The stream's well-formedness: a real time window, distinct parties,
    /// never more claimed than deposited, and a frozen split that accounts
    /// for the whole deposit.
    pub open spec fn wf(self) -> bool {
        &&& self.start_time < self.end_time
        &&& self.sender != self.recipient
        &&& self.claimed_amount <= self.deposit
        &&& match self.balances_after_cancel {
            Some(b) => b.sender_balance + b.recipient_balance + self.claimed_amount == self.deposit,
            None => true,
        }
    }

    pub open spec fn is_cancelled(self) -> bool {
        self.balances_after_cancel is Some
    }

    pub open spec fn duration(self) -> int {
        self.end_time - self.start_time
    }

    /// Seconds of vesting that have passed at `now`: none before the start,
    /// the whole window after the end.
    pub open spec fn elapsed(self, now: u64) -> int {
        if now <= self.start_time {
            0
        } else if now < self.end_time {
            now - self.start_time
        } else {
            self.end_time - self.start_time
        }
    }

    /// The part of the deposit vested at `now`, rounded down.
    pub open spec fn streamed_so_far(self, now: u64) -> int {
        self.deposit * self.elapsed(now) / self.duration()
    }

    /// `now` is not earlier than the claims already recorded: an active
    /// stream has not paid out more than has vested.
    pub open spec fn consistent_at(self, now: u64) -> bool {
        self.is_cancelled() || self.claimed_amount <= self.streamed_so_far(now)
    }

    /// What the recipient may withdraw at `now`: the vested, unclaimed part,
    /// or the frozen share once cancelled.
    pub open spec fn recipient_balance(self, now: u64) -> int {
        match self.balances_after_cancel {
            Some(b) => b.recipient_balance as int,
            None => self.streamed_so_far(now) - self.claimed_amount,
        }
    }

    /// What belongs to the sender at `now`: always the complement.
    pub open spec fn sender_balance(self, now: u64) -> int {
        self.deposit - self.recipient_balance(now) - self.claimed_amount
    }

    pub open spec fn is_finalized(self, now: u64) -> bool {
        now >= self.end_time
    }

    /// The balance of `address` in the stream at `now`: the recipient's or
    /// the sender's share, nothing for anyone else.
    pub open spec fn balance_of(self, address: Address, now: u64) -> int {
        if address == self.recipient {
            self.recipient_balance(now)
        } else if address == self.sender {
            self.sender_balance(now)
        } else {
            0
        }
    }
}

/// `amount * part / whole` rounded down, computed without overflow.
pub fn mul_div_floor(amount: u128, part: u64, whole: u64) -> (r: u128)
    requires
        0 < whole,
        part <= whole,
    ensures
        r == amount as int * part as int / whole as int,
        r <= amount,
{
    let w = whole as u128;
    let p = part as u128;
    let q = amount / w;
    let rem = amount % w;
    proof {
        let (a, qi, ri, wi, pi) = (amount as int, q as int, rem as int, w as int, p as int);
        assert(a == qi * wi + ri) by {
            vstd::arithmetic::div_mod::lemma_fundamental_div_mod(a, wi);
        }
        assert(0 <= ri < wi);
        assert(qi * pi <= qi * wi) by (nonlinear_arith)
            requires
                0 <= qi,
                0 <= pi <= wi,
        ;
        assert(ri * pi <= ri * wi) by (nonlinear_arith)
            requires
                0 <= ri,
                0 <= pi <= wi,
        ;
        assert(ri * wi < wi * wi) by (nonlinear_arith)
            requires
                0 <= ri < wi,
        ;
        assert(wi * wi <= 0xffff_ffff_ffff_ffffint * 0xffff_ffff_ffff_ffffint) by (nonlinear_arith)
            requires
                0 < wi <= 0xffff_ffff_ffff_ffffint,
        ;
        assert(a * pi == (qi * pi) * wi + ri * pi) by (nonlinear_arith)
            requires
                a == qi * wi + ri,
        ;
        let s = ri * pi;
        assert(s == (s / wi) * wi + s % wi) by {
            vstd::arithmetic::div_mod::lemma_fundamental_div_mod(s, wi);
        }
        assert(0 <= s % wi < wi) by {
            vstd::arithmetic::div_mod::lemma_mod_bound(s, wi);
        }
        assert(a * pi == (qi * pi + s / wi) * wi + s % wi) by (nonlinear_arith)
            requires
                a * pi == (qi * pi) * wi + s,
                s == (s / wi) * wi + s % wi,
        ;
        vstd::arithmetic::div_mod::lemma_fundamental_div_mod_converse(
            a * pi,
            wi,
            qi * pi + s / wi,
            s % wi,
        );
        assert(a * pi <= wi * a) by (nonlinear_arith)
            requires
                0 <= a,
                0 <= pi <= wi,
        ;
        vstd::arithmetic::div_mod::lemma_div_is_ordered(a * pi, wi * a, wi);
        vstd::arithmetic::div_mod::lemma_div_multiples_vanish(a, wi);
    }
    q * p + rem * p / w
}

impl Stream {
    pub fn is_cancelled(&self) -> (r: bool)
        ensures
            r == self@.is_cancelled(),
    {
        self.balances_after_cancel.is_some()
    }

    /// Seconds of vesting that have passed at `now`.
    pub fn elapsed(&self, now: u64) -> (r: u64)
        requires
            self@.wf(),
        ensures
            r == self@.elapsed(now),
            r <= self@.duration(),
    {
        if now <= self.start_time {
            0
        } else if now < self.end_time {
            now - self.start_time
        } else {
            self.end_time - self.start_time
        }
    }

    /// The part of the deposit vested at `now`, rounded down: the one place
    /// where the engine rounds.
    pub fn streamed_so_far(&self, now: u64) -> (r: u128)
        requires
            self@.wf(),
        ensures
            r == self@.streamed_so_far(now),
            r <= self.deposit,
    {
        let elapsed = self.elapsed(now);
        mul_div_floor(self.deposit, elapsed, self.end_time - self.start_time)
    }

    /// Whether `now` is consistent with the claims recorded on the stream.
    pub fn is_consistent_at(&self, now: u64) -> (r: bool)
        requires
            self@.wf(),
        ensures
            r == self@.consistent_at(now),
    {
        self.is_cancelled() || self.claimed_amount <= self.streamed_so_far(now)
    }

    /// What the recipient may withdraw at `now`.
    pub fn recipient_balance(&self, now: u64) -> (r: u128)
        requires
            self@.wf(),
            self@.consistent_at(now),
        ensures
            r == self@.recipient_balance(now),
            r + self.claimed_amount <= self.deposit,
    {
        match self.balances_after_cancel {
            Some(b) => b.recipient_balance,
            None => self.streamed_so_far(now) - self.claimed_amount,
        }
    }

    /// What belongs to the sender at `now`: the deposit less the
    /// recipient's balance and what was already claimed.
    pub fn sender_balance(&self, now: u64) -> (r: u128)
        requires
            self@.wf(),
            self@.consistent_at(now),
        ensures
            r == self@.sender_balance(now),
    {
        self.deposit - self.recipient_balance(now) - self.claimed_amount
    }

    /// Whether the end time has been reached at `now`.
    pub fn is_stream_finalized(&self, now: u64) -> (r: bool)
        ensures
            r == self@.is_finalized(now),
    {
        now >= self.end_time
    }

    /// The balance of `address` in the stream at `now`.
    pub fn balance_of(&self, address: Address, now: u64) -> (r: u128)
        requires
            self@.wf(),
            self@.consistent_at(now),
        ensures
            r == self@.balance_of(address, now),
    {
        if address == self.recipient {
            self.recipient_balance(now)
        } else if address == self.sender {
            self.sender_balance(now)
        } else {
            0
        }
    }
}

} // verus!
