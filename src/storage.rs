use vstd::prelude::*;

use crate::types::{Address, TokenIdentifier};

verus! {

/// The two shares frozen when a stream is cancelled.
#[derive(Clone, Copy, Debug, PartialEq, Eq, Structural)]
pub struct BalancesAfterCancel {
    pub sender_balance: u128,
    pub recipient_balance: u128,
}

/// A linear vesting position of `deposit` from `sender` to `recipient`
/// between `start_time` and `end_time`.
#[derive(Clone, Debug, PartialEq, Eq)]
pub struct Stream {
    pub sender: Address,
    pub recipient: Address,
    pub payment_token: TokenIdentifier,
    pub payment_nonce: u64,
    pub deposit: u128,
    /// What the recipient has been paid so far.
    pub claimed_amount: u128,
    pub can_cancel: bool,
    pub start_time: u64,
    pub end_time: u64,
    /// `None` while the stream is active; the frozen shares once cancelled.
    pub balances_after_cancel: Option<BalancesAfterCancel>,
}

/// The mathematical value of a [`Stream`]: the same fields, with the asset
/// identifier as its bytes.
pub struct StreamView {
    pub sender: Address,
    pub recipient: Address,
    pub payment_token: Seq<u8>,
    pub payment_nonce: u64,
    pub deposit: u128,
    pub claimed_amount: u128,
    pub can_cancel: bool,
    pub start_time: u64,
    pub end_time: u64,
    pub balances_after_cancel: Option<BalancesAfterCancel>,
}

impl View for Stream {
    type V = StreamView;

    open spec fn view(&self) -> StreamView {
        StreamView {
            sender: self.sender,
            recipient: self.recipient,
            payment_token: self.payment_token@,
            payment_nonce: self.payment_nonce,
            deposit: self.deposit,
            claimed_amount: self.claimed_amount,
            can_cancel: self.can_cancel,
            start_time: self.start_time,
            end_time: self.end_time,
            balances_after_cancel: self.balances_after_cancel,
        }
    }
}

impl Stream {
    /// A copy of the stream, field for field.
    pub fn duplicate(&self) -> (r: Stream)
        ensures
            r@ == self@,
    {
        Stream {
            sender: self.sender,
            recipient: self.recipient,
            payment_token: self.payment_token.duplicate(),
            payment_nonce: self.payment_nonce,
            deposit: self.deposit,
            claimed_amount: self.claimed_amount,
            can_cancel: self.can_cancel,
            start_time: self.start_time,
            end_time: self.end_time,
            balances_after_cancel: self.balances_after_cancel,
        }
    }
}

impl StreamView {
    /// `address` is the sender or the recipient of the stream.
    pub open spec fn involves(self, address: Address) -> bool {
        self.sender == address || self.recipient == address
    }
}

/// `ids` lists, in increasing order and once each, the identifiers of the
/// streams in `streams` that `address` takes part in.
pub open spec fn is_listing(ids: Seq<u64>, streams: Map<u64, StreamView>, address: Address) -> bool {
    &&& forall|i: int, j: int| 0 <= i < j < ids.len() ==> ids[i] < ids[j]
    &&& forall|id: u64|
        #![trigger ids.contains(id)]
        #![trigger streams.contains_key(id)]
        ids.contains(id) <==> streams.contains_key(id) && streams[id].involves(address)
}

/// The identifiers, in increasing order, of the occupied slots among `slots`
/// whose stream `address` takes part in; slot `i` holds stream `i + 1`.
spec fn ids_in(slots: Seq<Option<Stream>>, address: Address) -> Seq<u64>
    decreases slots.len(),
{
    if slots.len() == 0 {
        Seq::empty()
    } else {
        let before = ids_in(slots.drop_last(), address);
        match slots.last() {
            Some(s) => if s@.involves(address) {
                before.push(slots.len() as u64)
            } else {
                before
            },
            None => before,
        }
    }
}

/// The ledger: every live stream by identifier, and the identifier counter.
///
/// Identifiers are handed out in sequence from 1 and never reused. Stream
/// `id` lives in slot `id - 1`; removing it empties the slot for good, so the
/// number of slots is the last identifier issued. The per-address index is
/// read off the slots in identifier order, so it always agrees with the
/// ledger.
pub struct StorageModule {
    slots: Vec<Option<Stream>>,
}

impl StorageModule {
    /// The live streams by identifier.
    pub closed spec fn streams(&self) -> Map<u64, StreamView> {
        Map::new(
            |id: u64| 1 <= id <= self.slots@.len() && self.slots@[id - 1] is Some,
            |id: u64| self.slots@[id - 1]->Some_0@,
        )
    }

    /// Every identifier issued fits in 64 bits.
    pub closed spec fn wf(&self) -> bool {
        self.slots@.len() <= u64::MAX
    }

    /// The last identifier issued; 0 before the first stream.
    pub closed spec fn last_id(&self) -> nat {
        self.slots@.len()
    }

    /// The identifiers of the live streams that `address` takes part in,
    /// in increasing order.
    pub closed spec fn stream_ids(&self, address: Address) -> Seq<u64> {
        ids_in(self.slots@, address)
    }

    /// Every live stream has an identifier that was issued.
    pub proof fn lemma_ids_issued(&self)
        ensures
            forall|id: u64| #[trigger]
                self.streams().contains_key(id) ==> 1 <= id <= self.last_id(),
    {
    }

    /// What [`Self::stream_ids`] lists.
    pub proof fn lemma_stream_ids(&self, address: Address)
        requires
            self.wf(),
        ensures
            is_listing(self.stream_ids(address), self.streams(), address),
            forall|i: int|
                0 <= i < self.stream_ids(address).len() ==> 1 <= #[trigger] self.stream_ids(
                    address,
                )[i] <= self.last_id(),
    {
        lemma_ids_in(self.slots@, address);
    }

    pub fn new() -> (r: StorageModule)
        ensures
            r.wf(),
            r.streams() == Map::<u64, StreamView>::empty(),
            r.last_id() == 0,
    {
        let r = StorageModule { slots: Vec::new() };
        assert(r.streams() =~= Map::<u64, StreamView>::empty());
        r
    }

    /// The last identifier issued.
    pub fn last_stream_id(&self) -> (r: u64)
        ensures
            r == self.last_id(),
    {
        self.slots.len() as u64
    }

    /// The stream with identifier `id`, if it is live.
    pub fn stream_by_id(&self, id: u64) -> (r: Option<&Stream>)
        ensures
            match r {
                Some(s) => self.streams().contains_key(id) && s@ == self.streams()[id],
                None => !self.streams().contains_key(id),
            },
    {
        if id == 0 || id > self.slots.len() as u64 {
            return None;
        }
        let i = (id - 1) as usize;
        match &self.slots[i] {
            Some(s) => Some(s),
            None => None,
        }
    }

    /// Stores `stream` under the next identifier and returns it.
    pub fn insert_stream(&mut self, stream: Stream) -> (id: u64)
        requires
            old(self).wf(),
            old(self).last_id() < u64::MAX,
        ensures
            final(self).wf(),
            id == old(self).last_id() + 1,
            final(self).last_id() == id,
            !old(self).streams().contains_key(id),
            final(self).streams() == old(self).streams().insert(id, stream@),
    {
        let ghost pre = *self;
        self.slots.push(Some(stream));
        assert(self.streams() =~= pre.streams().insert(self.slots@.len() as u64, stream@));
        self.slots.len() as u64
    }

    /// Replaces the live stream `id` by `stream`.
    pub fn set_stream(&mut self, id: u64, stream: Stream)
        requires
            old(self).wf(),
            old(self).streams().contains_key(id),
        ensures
            final(self).wf(),
            final(self).last_id() == old(self).last_id(),
            final(self).streams() == old(self).streams().insert(id, stream@),
    {
        let ghost pre = *self;
        let len = self.slots.len();
        assert(1 <= id <= len);
        let i = (id - 1) as usize;
        self.slots.set(i, Some(stream));
        assert(self.streams() =~= pre.streams().insert(id, stream@));
    }

    /// Takes the stream `id` out of the ledger; its identifier is not
    /// issued again.
    pub fn remove_stream(&mut self, id: u64) -> (r: Option<Stream>)
        requires
            old(self).wf(),
        ensures
            final(self).wf(),
            final(self).last_id() == old(self).last_id(),
            final(self).streams() == old(self).streams().remove(id),
            match r {
                Some(s) => old(self).streams().contains_key(id) && s@ == old(self).streams()[id],
                None => !old(self).streams().contains_key(id),
            },
    {
        let ghost pre = *self;
        if id == 0 || id > self.slots.len() as u64 {
            assert(self.streams() =~= pre.streams().remove(id));
            return None;
        }
        let i = (id - 1) as usize;
        let mut taken: Option<Stream> = None;
        std::mem::swap(&mut self.slots[i], &mut taken);
        assert(self.streams() =~= pre.streams().remove(id));
        taken
    }

    /// The identifiers of the live streams that `address` takes part in,
    /// in increasing order.
    pub fn streams_list(&self, address: Address) -> (r: Vec<u64>)
        requires
            self.wf(),
        ensures
            r@ == self.stream_ids(address),
            is_listing(r@, self.streams(), address),
    {
        let mut r: Vec<u64> = Vec::new();
        let mut i: usize = 0;
        while i < self.slots.len()
            invariant
                self.wf(),
                i <= self.slots@.len(),
                r@ == ids_in(self.slots@.take(i as int), address),
            decreases self.slots@.len() - i,
        {
            assert(self.slots@.take(i + 1).drop_last() =~= self.slots@.take(i as int));
            match &self.slots[i] {
                Some(s) => {
                    if s.sender == address || s.recipient == address {
                        r.push((i + 1) as u64);
                    }
                },
                None => {},
            }
            i = i + 1;
        }
        assert(self.slots@.take(i as int) =~= self.slots@);
        proof {
            self.lemma_stream_ids(address);
        }
        r
    }
}

/// What `ids_in` lists, over a prefix of the slots.
proof fn lemma_ids_in(slots: Seq<Option<Stream>>, address: Address)
    requires
        slots.len() <= u64::MAX,
    ensures
        forall|i: int, j: int|
            0 <= i < j < ids_in(slots, address).len() ==> ids_in(slots, address)[i] < ids_in(
                slots,
                address,
            )[j],
        forall|i: int|
            0 <= i < ids_in(slots, address).len() ==> 1 <= #[trigger] ids_in(slots, address)[i]
                <= slots.len(),
        forall|id: u64|
            #![trigger ids_in(slots, address).contains(id)]
            ids_in(slots, address).contains(id) <==> (1 <= id <= slots.len() && slots[id - 1] is Some
                && slots[id - 1]->Some_0@.involves(address)),
    decreases slots.len(),
{
    if slots.len() > 0 {
        let before = slots.drop_last();
        lemma_ids_in(before, address);
        let ids = ids_in(slots, address);
        let prev = ids_in(before, address);
        let n = slots.len();
        let added = slots.last() is Some && slots.last()->Some_0@.involves(address);
        if added {
            assert(ids == prev.push(n as u64));
        } else {
            assert(ids == prev);
        }
        assert forall|i: int, j: int| 0 <= i < j < ids.len() implies ids[i] < ids[j] by {
            assert(ids[i] == prev[i]);
            assert(1 <= prev[i] <= before.len());
            if j < prev.len() {
                assert(ids[j] == prev[j]);
            } else {
                assert(ids[j] == n);
            }
        }
        assert forall|i: int| 0 <= i < ids.len() implies 1 <= #[trigger] ids[i] <= n by {
            if i < prev.len() {
                assert(ids[i] == prev[i]);
                assert(1 <= prev[i] <= before.len());
            } else {
                assert(ids[i] == n);
            }
        }
        assert forall|id: u64| #![trigger ids.contains(id)]
            ids.contains(id) <==> (1 <= id <= n && slots[id - 1] is Some
                && slots[id - 1]->Some_0@.involves(address)) by {
            let lhs = ids.contains(id);
            let rhs = 1 <= id <= n && slots[id - 1] is Some && slots[id - 1]->Some_0@.involves(address);
            if 1 <= id < n {
                assert(before[id - 1] == slots[id - 1]);
            }
            if lhs {
                let k = choose|k: int| 0 <= k < ids.len() && ids[k] == id;
                if k < prev.len() {
                    assert(prev[k] == id);
                    assert(prev.contains(id));
                    assert(rhs);
                } else {
                    assert(added);
                    assert(id == n);
                    assert(rhs);
                }
            }
            if rhs {
                if id < n {
                    assert(prev.contains(id));
                    let k = choose|k: int| 0 <= k < prev.len() && prev[k] == id;
                    assert(ids[k] == id);
                } else {
                    assert(added);
                    assert(ids[ids.len() - 1] == id);
                }
                assert(lhs);
            }
        }
    }
}

} // verus!
