//! Laws of the engine, proved over the same spec functions that the
//! operations' contracts use.
use vstd::prelude::*;

use crate::coindrip::{cancelled_at, stream_kept, CoinDrip};
use crate::storage::StreamView;
use crate::types::{StreamError, TxContext};

verus! {

/// What has vested lies between nothing and the whole deposit.
pub proof fn lemma_streamed_bounds(s: StreamView, now: u64)
    requires
        s.wf(),
    ensures
        0 <= s.streamed_so_far(now) <= s.deposit,
{
    let (d, e, w) = (s.deposit as int, s.elapsed(now), s.duration());
    assert(0 <= d * e <= d * w) by (nonlinear_arith)
        requires
            0 <= d,
            0 <= e <= w,
    ;
    vstd::arithmetic::div_mod::lemma_div_is_ordered(d * e, d * w, w);
    vstd::arithmetic::div_mod::lemma_div_multiples_vanish(d, w);
    assert(d * w == w * d) by (nonlinear_arith);
    vstd::arithmetic::div_mod::lemma_div_pos_is_pos(d * e, w);
}

/// Conservation: before cancellation, the recipient's balance, the sender's
/// balance and what was claimed add up to the deposit exactly, and neither
/// balance is negative.
pub proof fn conservation(s: StreamView, now: u64)
    requires
        s.wf(),
        !s.is_cancelled(),
        s.consistent_at(now),
    ensures
        s.recipient_balance(now) + s.sender_balance(now) + s.claimed_amount == s.deposit,
        0 <= s.recipient_balance(now),
        0 <= s.sender_balance(now),
{
    lemma_streamed_bounds(s, now);
}

/// Cancellation freezes vesting: once cancelled, both balances are the
/// frozen shares at every later time.
pub proof fn cancellation_freezes_vesting(s: StreamView, later: u64)
    requires
        s.wf(),
        s.is_cancelled(),
    ensures
        s.recipient_balance(later) == s.balances_after_cancel->Some_0.recipient_balance,
        s.sender_balance(later) == s.balances_after_cancel->Some_0.sender_balance,
{
}

/// A stream cancelled at `now` keeps, at every later time, the two balances
/// that it had at `now`, and they still account for the whole deposit.
pub proof fn cancel_keeps_balances_at_cancel_time(s: StreamView, now: u64, later: u64)
    requires
        s.wf(),
        !s.is_cancelled(),
        s.consistent_at(now),
    ensures
        cancelled_at(s, now).wf(),
        cancelled_at(s, now).recipient_balance(later) == s.recipient_balance(now),
        cancelled_at(s, now).sender_balance(later) == s.sender_balance(now),
{
    conservation(s, now);
}

/// Rounding dust resolves to the sender: the recipient's balance is the
/// rounded-down vested amount less what was claimed, so what the recipient
/// has and may claim never exceeds the exact proportional share, and the
/// sender's balance never falls below the exact unvested share.
pub proof fn dust_resolves_to_sender(s: StreamView, now: u64)
    requires
        s.wf(),
        !s.is_cancelled(),
        s.consistent_at(now),
    ensures
        s.recipient_balance(now) == s.deposit * s.elapsed(now) / s.duration() - s.claimed_amount,
        (s.recipient_balance(now) + s.claimed_amount) * s.duration() <= s.deposit * s.elapsed(now),
        s.sender_balance(now) * s.duration() >= s.deposit * (s.duration() - s.elapsed(now)),
{
    let (d, e, w) = (s.deposit as int, s.elapsed(now), s.duration());
    let v = d * e / w;
    vstd::arithmetic::div_mod::lemma_fundamental_div_mod(d * e, w);
    vstd::arithmetic::div_mod::lemma_mod_bound(d * e, w);
    assert(v * w <= d * e) by (nonlinear_arith)
        requires
            d * e == w * v + (d * e) % w,
            0 <= (d * e) % w,
    ;
    assert(s.recipient_balance(now) + s.claimed_amount == v);
    assert(s.sender_balance(now) == d - v);
    assert((d - v) * w >= d * (w - e)) by (nonlinear_arith)
        requires
            v * w <= d * e,
    ;
}

/// `evolves_to` holds of an engine and itself.
pub proof fn evolves_reflexive(a: CoinDrip)
    ensures
        a.evolves_to(a),
{
}

/// `evolves_to` composes: what holds over two steps holds over both.
pub proof fn evolves_transitive(a: CoinDrip, b: CoinDrip, c: CoinDrip)
    requires
        a.evolves_to(b),
        b.evolves_to(c),
    ensures
        a.evolves_to(c),
{
    a.lemma_ids_issued();
    assert forall|id: u64| #[trigger]
        a.streams().contains_key(id) && c.streams().contains_key(id) implies stream_kept(
        a.streams()[id],
        c.streams()[id],
    ) by {
        assert(b.streams().contains_key(id));
    }
}

/// Each engine state of `run` follows from the one before by an
/// operation, whose contract ensures `evolves_to` between them.
pub open spec fn is_run(run: Seq<CoinDrip>) -> bool {
    forall|i: int| 0 <= i < run.len() - 1 ==> (#[trigger] run[i]).evolves_to(run[i + 1])
}

/// Over any sequence of operations, every state evolves to every later one.
pub proof fn run_evolves(run: Seq<CoinDrip>, i: int, j: int)
    requires
        is_run(run),
        0 <= i <= j < run.len(),
    ensures
        run[i].evolves_to(run[j]),
    decreases j - i,
{
    if i == j {
        evolves_reflexive(run[i]);
    } else {
        run_evolves(run, i, j - 1);
        assert(run[j - 1].evolves_to(run[j]));
        evolves_transitive(run[i], run[j - 1], run[j]);
    }
}

/// Monotonicity: over any sequence of operations, the claimed amount of a
/// stream never decreases, and its terms never change.
pub proof fn claimed_amount_never_decreases(run: Seq<CoinDrip>, i: int, j: int, id: u64)
    requires
        is_run(run),
        0 <= i <= j < run.len(),
        run[i].streams().contains_key(id),
        run[j].streams().contains_key(id),
    ensures
        run[i].streams()[id].claimed_amount <= run[j].streams()[id].claimed_amount,
        stream_kept(run[i].streams()[id], run[j].streams()[id]),
{
    run_evolves(run, i, j);
}

/// No double payout: once a stream is removed, it stays removed, and every
/// later operation on its identifier fails with `InvalidStream`.
pub proof fn no_double_payout(run: Seq<CoinDrip>, i: int, j: int, id: u64, ctx: TxContext)
    requires
        is_run(run),
        0 <= i <= j < run.len(),
        1 <= id <= run[i].last_id(),
        !run[i].streams().contains_key(id),
    ensures
        !run[j].streams().contains_key(id),
        run[j].claim_error(ctx, id) == Some(StreamError::InvalidStream),
        run[j].cancel_error(ctx, id) == Some(StreamError::InvalidStream),
        run[j].settle_error(ctx, id) == Some(StreamError::InvalidStream),
        run[j].query_error(id, ctx.block_timestamp) == Some(StreamError::InvalidStream),
{
    run_evolves(run, i, j);
}

} // verus!
