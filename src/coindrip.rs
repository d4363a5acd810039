use vstd::prelude::*;

use crate::events::{Event, EventLog, EventView, EventsModule};
use crate::storage::{is_listing, BalancesAfterCancel, StorageModule, Stream, StreamView};
use crate::types::{Address, Payment, StreamError, TokenIdentifier, TxContext};

verus! {

/// An asset transfer that the host is to perform for the engine.
#[derive(Clone, Debug, PartialEq, Eq)]
pub struct Transfer {
    pub to: Address,
    pub payment_token: TokenIdentifier,
    pub payment_nonce: u64,
    pub amount: u128,
}

/// The mathematical value of a [`Transfer`].
pub struct TransferView {
    pub to: Address,
    pub payment_token: Seq<u8>,
    pub payment_nonce: u64,
    pub amount: u128,
}

impl View for Transfer {
    type V = TransferView;

    open spec fn view(&self) -> TransferView {
        TransferView {
            to: self.to,
            payment_token: self.payment_token@,
            payment_nonce: self.payment_nonce,
            amount: self.amount,
        }
    }
}

/// The values of a sequence of transfers.
pub open spec fn transfer_views(transfers: Seq<Transfer>) -> Seq<TransferView> {
    transfers.map_values(|t: Transfer| t@)
}

/// A payment of `amount` of the stream's asset to `to`.
pub open spec fn payout(s: StreamView, to: Address, amount: u128) -> TransferView {
    TransferView {
        to,
        payment_token: s.payment_token,
        payment_nonce: s.payment_nonce,
        amount,
    }
}

/// The stream `s` frozen at `now`: both shares as they stand, no more
/// vesting.
pub open spec fn cancelled_at(s: StreamView, now: u64) -> StreamView {
    StreamView {
        balances_after_cancel: Some(
            BalancesAfterCancel {
                sender_balance: s.sender_balance(now) as u128,
                recipient_balance: s.recipient_balance(now) as u128,
            },
        ),
        ..s
    }
}

/// The payments that settle a cancelled stream: the recipient's share, then
/// the sender's, each only if it is not zero.
pub open spec fn settlement(s: StreamView) -> Seq<TransferView> {
    let b = s.balances_after_cancel->Some_0;
    (if b.recipient_balance > 0 {
        seq![payout(s, s.recipient, b.recipient_balance)]
    } else {
        Seq::empty()
    }) + (if b.sender_balance > 0 {
        seq![payout(s, s.sender, b.sender_balance)]
    } else {
        Seq::empty()
    })
}

/// The events that settling the cancelled stream `id` emits: a claim event
/// for the recipient's share if it is not zero.
pub open spec fn settlement_events(id: u64, s: StreamView) -> Seq<EventView> {
    let b = s.balances_after_cancel->Some_0;
    if b.recipient_balance > 0 {
        seq![EventView::ClaimFromStream { stream_id: id, amount: b.recipient_balance, finalized: false }]
    } else {
        Seq::empty()
    }
}

/// A stream as it may become: same terms, never less claimed, and once
/// cancelled, the same frozen shares.
pub open spec fn stream_kept(a: StreamView, b: StreamView) -> bool {
    &&& b.sender == a.sender
    &&& b.recipient == a.recipient
    &&& b.payment_token == a.payment_token
    &&& b.payment_nonce == a.payment_nonce
    &&& b.deposit == a.deposit
    &&& b.can_cancel == a.can_cancel
    &&& b.start_time == a.start_time
    &&& b.end_time == a.end_time
    &&& a.claimed_amount <= b.claimed_amount
    &&& a.is_cancelled() ==> b.balances_after_cancel == a.balances_after_cancel
}

/// The streaming engine: the ledger of streams, the rules of their
/// lifecycle, and the log of the events they emit.
///
/// Each operation takes what the host knows of the call (caller and block
/// time), either refuses it with a [`StreamError`] and changes nothing, or
/// applies it and returns the transfers that the host is to perform.
pub struct CoinDrip {
    sc_address: Address,
    storage: StorageModule,
    events: EventLog,
}

impl CoinDrip {
    /// The engine's own address.
    pub closed spec fn own_address(&self) -> Address {
        self.sc_address
    }

    /// The live streams by identifier.
    pub closed spec fn streams(&self) -> Map<u64, StreamView> {
        self.storage.streams()
    }

    /// The last stream identifier issued.
    pub closed spec fn last_id(&self) -> nat {
        self.storage.last_id()
    }

    /// The events not yet taken by the host, oldest first.
    pub closed spec fn events(&self) -> Seq<EventView> {
        self.events@
    }

    /// The identifiers of the live streams that `address` takes part in, in
    /// increasing order.
    pub closed spec fn stream_ids(&self, address: Address) -> Seq<u64> {
        self.storage.stream_ids(address)
    }

    pub closed spec fn ledger_wf(&self) -> bool {
        self.storage.wf()
    }

    /// The engine's invariant: every live stream is well formed.
    pub open spec fn wf(&self) -> bool {
        &&& self.ledger_wf()
        &&& forall|id: u64| #[trigger]
            self.streams().contains_key(id) ==> self.streams()[id].wf()
    }

    /// What every operation keeps from `self` to `next`: identifiers only
    /// grow, a stream once removed never comes back, and a stream that stays
    /// is kept as [`stream_kept`] says.
    pub open spec fn evolves_to(self, next: CoinDrip) -> bool {
        &&& self.last_id() <= next.last_id()
        &&& next.own_address() == self.own_address()
        &&& forall|id: u64| #[trigger]
            next.streams().contains_key(id) ==> (self.streams().contains_key(id) || self.last_id()
                < id)
        &&& forall|id: u64| #[trigger]
            self.streams().contains_key(id) && next.streams().contains_key(id) ==> stream_kept(
                self.streams()[id],
                next.streams()[id],
            )
    }

    /// Why `create_stream` refuses, if it does.
    pub open spec fn create_error(
        self,
        ctx: TxContext,
        payment_nonce: u64,
        amount: u128,
        recipient: Address,
        start_time: u64,
        end_time: u64,
    ) -> Option<StreamError> {
        if recipient == self.own_address() {
            Some(StreamError::SelfStream)
        } else if recipient == ctx.caller {
            Some(StreamError::CallerStream)
        } else if payment_nonce != 0 {
            Some(StreamError::UnsupportedAsset)
        } else if amount == 0 {
            Some(StreamError::ZeroDeposit)
        } else if start_time < ctx.block_timestamp {
            Some(StreamError::InvalidStartTime)
        } else if end_time <= start_time {
            Some(StreamError::InvalidEndTime)
        } else {
            None
        }
    }

    /// Why `claim_from_stream` refuses, if it does.
    pub open spec fn claim_error(self, ctx: TxContext, stream_id: u64) -> Option<StreamError> {
        let s = self.streams()[stream_id];
        if !self.streams().contains_key(stream_id) {
            Some(StreamError::InvalidStream)
        } else if s.is_cancelled() {
            Some(StreamError::AlreadyCancelled)
        } else if ctx.caller != s.recipient {
            Some(StreamError::Unauthorized)
        } else if !s.consistent_at(ctx.block_timestamp) {
            Some(StreamError::ClockRegression)
        } else if s.recipient_balance(ctx.block_timestamp) == 0 {
            Some(StreamError::ZeroClaim)
        } else {
            None
        }
    }

    /// Why `cancel_stream` refuses, if it does.
    pub open spec fn cancel_error(self, ctx: TxContext, stream_id: u64) -> Option<StreamError> {
        let s = self.streams()[stream_id];
        if !self.streams().contains_key(stream_id) {
            Some(StreamError::InvalidStream)
        } else if s.is_cancelled() {
            Some(StreamError::AlreadyCancelled)
        } else if !s.can_cancel {
            Some(StreamError::NotCancellable)
        } else if !s.involves(ctx.caller) {
            Some(StreamError::Unauthorized)
        } else if !s.consistent_at(ctx.block_timestamp) {
            Some(StreamError::ClockRegression)
        } else {
            None
        }
    }

    /// Why `claim_from_stream_after_cancel` refuses, if it does.
    pub open spec fn settle_error(self, ctx: TxContext, stream_id: u64) -> Option<StreamError> {
        let s = self.streams()[stream_id];
        if !self.streams().contains_key(stream_id) {
            Some(StreamError::InvalidStream)
        } else if !s.is_cancelled() {
            Some(StreamError::NotCancelled)
        } else if !s.involves(ctx.caller) {
            Some(StreamError::Unauthorized)
        } else {
            None
        }
    }

    /// Why a balance query on `stream_id` at `now` fails, if it does.
    pub open spec fn query_error(self, stream_id: u64, now: u64) -> Option<StreamError> {
        if !self.streams().contains_key(stream_id) {
            Some(StreamError::InvalidStream)
        } else if !self.streams()[stream_id].consistent_at(now) {
            Some(StreamError::ClockRegression)
        } else {
            None
        }
    }

    /// Every live stream has an identifier that was issued.
    pub proof fn lemma_ids_issued(&self)
        ensures
            forall|id: u64| #[trigger]
                self.streams().contains_key(id) ==> 1 <= id <= self.last_id(),
    {
        self.storage.lemma_ids_issued();
    }

    /// An engine with no streams, whose own address is `sc_address`.
    pub fn init(sc_address: Address) -> (r: CoinDrip)
        ensures
            r.wf(),
            r.own_address() == sc_address,
            r.streams() == Map::<u64, StreamView>::empty(),
            r.last_id() == 0,
            r.events() == Seq::<EventView>::empty(),
    {
        CoinDrip { sc_address, storage: StorageModule::new(), events: EventLog::new() }
    }

    /// The last stream identifier issued.
    pub fn last_stream_id(&self) -> (r: u64)
        ensures
            r == self.last_id(),
    {
        self.storage.last_stream_id()
    }

    /// The stream `stream_id`, as it stands.
    pub fn get_stream(&self, stream_id: u64) -> (r: Result<Stream, StreamError>)
        ensures
            match r {
                Ok(s) => self.streams().contains_key(stream_id) && s@ == self.streams()[stream_id],
                Err(e) => !self.streams().contains_key(stream_id) && e == StreamError::InvalidStream,
            },
    {
        match self.storage.stream_by_id(stream_id) {
            Some(s) => Ok(s.duplicate()),
            None => Err(StreamError::InvalidStream),
        }
    }

    /// Opens a stream of `payment` from the caller to `recipient`, vesting
    /// between `start_time` and `end_time`, cancellable unless `can_cancel`
    /// says otherwise; returns its identifier.
    pub fn create_stream(
        &mut self,
        ctx: TxContext,
        payment: Payment,
        recipient: Address,
        start_time: u64,
        end_time: u64,
        can_cancel: Option<bool>,
    ) -> (r: Result<u64, StreamError>)
        requires
            old(self).wf(),
            old(self).last_id() < u64::MAX,
        ensures
            final(self).wf(),
            old(self).evolves_to(*final(self)),
            match old(self).create_error(
                ctx,
                payment.nonce,
                payment.amount,
                recipient,
                start_time,
                end_time,
            ) {
                Some(e) => r == Err::<u64, StreamError>(e) && *final(self) == *old(self),
                None => {
                    let id = (old(self).last_id() + 1) as u64;
                    let s = StreamView {
                        sender: ctx.caller,
                        recipient,
                        payment_token: payment.token@,
                        payment_nonce: payment.nonce,
                        deposit: payment.amount,
                        claimed_amount: 0,
                        can_cancel: match can_cancel {
                            Some(c) => c,
                            None => true,
                        },
                        start_time,
                        end_time,
                        balances_after_cancel: None,
                    };
                    &&& r == Ok::<u64, StreamError>(id)
                    &&& final(self).last_id() == id
                    &&& final(self).streams() == old(self).streams().insert(id, s)
                    &&& final(self).events() == old(self).events().push(
                        EventView::CreateStream {
                            stream_id: id,
                            sender: ctx.caller,
                            recipient,
                            payment_token: payment.token@,
                            payment_nonce: payment.nonce,
                            deposit: payment.amount,
                            start_time,
                            end_time,
                        },
                    )
                },
            },
    {
        if recipient == self.sc_address {
            return Err(StreamError::SelfStream);
        }
        if recipient == ctx.caller {
            return Err(StreamError::CallerStream);
        }
        if payment.nonce != 0 {
            return Err(StreamError::UnsupportedAsset);
        }
        if payment.amount == 0 {
            return Err(StreamError::ZeroDeposit);
        }
        if start_time < ctx.block_timestamp {
            return Err(StreamError::InvalidStartTime);
        }
        if end_time <= start_time {
            return Err(StreamError::InvalidEndTime);
        }
        let can_cancel = match can_cancel {
            Some(c) => c,
            None => true,
        };
        let stream_id = self.storage.last_stream_id() + 1;
        self.events.create_stream_event(
            stream_id,
            ctx.caller,
            recipient,
            &payment.token,
            payment.nonce,
            payment.amount,
            start_time,
            end_time,
        );
        let stream = Stream {
            sender: ctx.caller,
            recipient,
            payment_token: payment.token,
            payment_nonce: payment.nonce,
            deposit: payment.amount,
            claimed_amount: 0,
            can_cancel,
            start_time,
            end_time,
            balances_after_cancel: None,
        };
        let ghost pre = old(self).streams();
        let ghost created = stream@;
        let id = self.storage.insert_stream(stream);
        assert(id == stream_id);
        assert(created.wf());
        assert forall|k: u64| #[trigger] self.streams().contains_key(k) implies self.streams()[k].wf() by {
            if k != id {
                assert(pre.contains_key(k));
            }
        }
        Ok(stream_id)
    }

    /// Pays the recipient of stream `stream_id` what has vested and is
    /// unclaimed; the last payment, at or after the end time, removes the
    /// stream. Returns the transfer to the recipient.
    pub fn claim_from_stream(&mut self, ctx: TxContext, stream_id: u64) -> (r: Result<
        Transfer,
        StreamError,
    >)
        requires
            old(self).wf(),
        ensures
            final(self).wf(),
            old(self).evolves_to(*final(self)),
            final(self).last_id() == old(self).last_id(),
            match old(self).claim_error(ctx, stream_id) {
                Some(e) => r == Err::<Transfer, StreamError>(e) && *final(self) == *old(self),
                None => {
                    let now = ctx.block_timestamp;
                    let s = old(self).streams()[stream_id];
                    let amount = s.recipient_balance(now) as u128;
                    let finalized = s.is_finalized(now);
                    &&& r matches Ok(t) && t@ == payout(s, s.recipient, amount)
                    &&& final(self).streams() == if finalized {
                        old(self).streams().remove(stream_id)
                    } else {
                        old(self).streams().insert(
                            stream_id,
                            StreamView { claimed_amount: (s.claimed_amount + amount) as u128, ..s },
                        )
                    }
                    &&& final(self).events() == old(self).events().push(
                        EventView::ClaimFromStream { stream_id, amount, finalized },
                    )
                },
            },
    {
        let now = ctx.block_timestamp;
        let mut stream = match self.storage.stream_by_id(stream_id) {
            Some(s) => s.duplicate(),
            None => return Err(StreamError::InvalidStream),
        };
        if stream.is_cancelled() {
            return Err(StreamError::AlreadyCancelled);
        }
        if ctx.caller != stream.recipient {
            return Err(StreamError::Unauthorized);
        }
        if !stream.is_consistent_at(now) {
            return Err(StreamError::ClockRegression);
        }
        let amount = stream.recipient_balance(now);
        if amount == 0 {
            return Err(StreamError::ZeroClaim);
        }
        let finalized = stream.is_stream_finalized(now);
        let transfer = Transfer {
            to: stream.recipient,
            payment_token: stream.payment_token.duplicate(),
            payment_nonce: stream.payment_nonce,
            amount,
        };
        let ghost pre = old(self).streams();
        if finalized {
            self.storage.remove_stream(stream_id);
        } else {
            stream.claimed_amount = stream.claimed_amount + amount;
            self.storage.set_stream(stream_id, stream);
        }
        self.events.claim_from_stream_event(stream_id, amount, finalized);
        assert forall|k: u64| #[trigger] self.streams().contains_key(k) implies self.streams()[k].wf() by {
            if k != stream_id {
                assert(pre.contains_key(k));
            }
        }
        Ok(transfer)
    }

    /// Cancels stream `stream_id`: freezes both shares as they stand at the
    /// block time, and, unless `with_claim` is `Some(false)`, settles them at
    /// once. Returns the transfers of the settlement, if any.
    pub fn cancel_stream(&mut self, ctx: TxContext, stream_id: u64, with_claim: Option<bool>) -> (r:
        Result<Vec<Transfer>, StreamError>)
        requires
            old(self).wf(),
        ensures
            final(self).wf(),
            old(self).evolves_to(*final(self)),
            final(self).last_id() == old(self).last_id(),
            match old(self).cancel_error(ctx, stream_id) {
                Some(e) => r == Err::<Vec<Transfer>, StreamError>(e) && *final(self) == *old(self),
                None => {
                    let s = old(self).streams()[stream_id];
                    let c = cancelled_at(s, ctx.block_timestamp);
                    let cancel_event = EventView::CancelStream {
                        stream_id,
                        canceled_by: ctx.caller,
                        claimed_amount: s.claimed_amount,
                    };
                    &&& c.wf()
                    &&& r is Ok
                    &&& if with_claim != Some(false) {
                        &&& transfer_views(r->Ok_0@) == settlement(c)
                        &&& final(self).streams() == old(self).streams().remove(stream_id)
                        &&& final(self).events() == old(self).events() + settlement_events(
                            stream_id,
                            c,
                        ).push(cancel_event)
                    } else {
                        &&& r->Ok_0@.len() == 0
                        &&& final(self).streams() == old(self).streams().insert(stream_id, c)
                        &&& final(self).events() == old(self).events().push(cancel_event)
                    }
                },
            },
    {
        let now = ctx.block_timestamp;
        let mut stream = match self.storage.stream_by_id(stream_id) {
            Some(s) => s.duplicate(),
            None => return Err(StreamError::InvalidStream),
        };
        if stream.is_cancelled() {
            return Err(StreamError::AlreadyCancelled);
        }
        if !stream.can_cancel {
            return Err(StreamError::NotCancellable);
        }
        if ctx.caller != stream.recipient && ctx.caller != stream.sender {
            return Err(StreamError::Unauthorized);
        }
        if !stream.is_consistent_at(now) {
            return Err(StreamError::ClockRegression);
        }
        let sender_balance = stream.sender_balance(now);
        let recipient_balance = stream.recipient_balance(now);
        let claimed_amount = stream.claimed_amount;
        stream.balances_after_cancel = Some(BalancesAfterCancel { sender_balance, recipient_balance });
        let ghost pre = old(self).streams();
        self.storage.set_stream(stream_id, stream);
        assert forall|k: u64| #[trigger] self.streams().contains_key(k) implies self.streams()[k].wf() by {
            if k != stream_id {
                assert(pre.contains_key(k));
            }
        }
        let with_claim = match with_claim {
            Some(w) => w,
            None => true,
        };
        let transfers = if with_claim {
            self.settle(stream_id)
        } else {
            Vec::new()
        };
        self.events.cancel_stream_event(stream_id, ctx.caller, claimed_amount);
        Ok(transfers)
    }

    /// Settles the cancelled stream `stream_id`: pays each party its frozen
    /// share (any that is not zero) and removes the stream, whatever the
    /// shares are. Returns the transfers.
    pub fn claim_from_stream_after_cancel(&mut self, ctx: TxContext, stream_id: u64) -> (r: Result<
        Vec<Transfer>,
        StreamError,
    >)
        requires
            old(self).wf(),
        ensures
            final(self).wf(),
            old(self).evolves_to(*final(self)),
            final(self).last_id() == old(self).last_id(),
            match old(self).settle_error(ctx, stream_id) {
                Some(e) => r == Err::<Vec<Transfer>, StreamError>(e) && *final(self) == *old(self),
                None => {
                    let s = old(self).streams()[stream_id];
                    &&& r is Ok
                    &&& transfer_views(r->Ok_0@) == settlement(s)
                    &&& final(self).streams() == old(self).streams().remove(stream_id)
                    &&& final(self).events() == old(self).events() + settlement_events(stream_id, s)
                },
            },
    {
        let stream = match self.storage.stream_by_id(stream_id) {
            Some(s) => s,
            None => return Err(StreamError::InvalidStream),
        };
        if !stream.is_cancelled() {
            return Err(StreamError::NotCancelled);
        }
        if ctx.caller != stream.recipient && ctx.caller != stream.sender {
            return Err(StreamError::Unauthorized);
        }
        Ok(self.settle(stream_id))
    }

    /// What the recipient of stream `stream_id` may withdraw at `now`.
    pub fn recipient_balance(&self, stream_id: u64, now: u64) -> (r: Result<u128, StreamError>)
        requires
            self.wf(),
        ensures
            match self.query_error(stream_id, now) {
                Some(e) => r == Err::<u128, StreamError>(e),
                None => r == Ok::<u128, StreamError>(
                    self.streams()[stream_id].recipient_balance(now) as u128,
                ),
            },
    {
        let stream = match self.storage.stream_by_id(stream_id) {
            Some(s) => s,
            None => return Err(StreamError::InvalidStream),
        };
        if !stream.is_consistent_at(now) {
            return Err(StreamError::ClockRegression);
        }
        Ok(stream.recipient_balance(now))
    }

    /// What belongs to the sender of stream `stream_id` at `now`.
    pub fn sender_balance(&self, stream_id: u64, now: u64) -> (r: Result<u128, StreamError>)
        requires
            self.wf(),
        ensures
            match self.query_error(stream_id, now) {
                Some(e) => r == Err::<u128, StreamError>(e),
                None => r == Ok::<u128, StreamError>(
                    self.streams()[stream_id].sender_balance(now) as u128,
                ),
            },
    {
        let stream = match self.storage.stream_by_id(stream_id) {
            Some(s) => s,
            None => return Err(StreamError::InvalidStream),
        };
        if !stream.is_consistent_at(now) {
            return Err(StreamError::ClockRegression);
        }
        Ok(stream.sender_balance(now))
    }

    /// The balance of `address` in stream `stream_id` at `now`: the
    /// recipient's or the sender's share, zero for anyone else.
    pub fn balance_of(&self, stream_id: u64, address: Address, now: u64) -> (r: Result<
        u128,
        StreamError,
    >)
        requires
            self.wf(),
        ensures
            match self.query_error(stream_id, now) {
                Some(e) => r == Err::<u128, StreamError>(e),
                None => r == Ok::<u128, StreamError>(
                    self.streams()[stream_id].balance_of(address, now) as u128,
                ),
            },
    {
        let stream = match self.storage.stream_by_id(stream_id) {
            Some(s) => s,
            None => return Err(StreamError::InvalidStream),
        };
        if !stream.is_consistent_at(now) {
            return Err(StreamError::ClockRegression);
        }
        Ok(stream.balance_of(address, now))
    }

    /// Whether stream `stream_id` has reached its end time at `now`.
    pub fn is_stream_finalized(&self, stream_id: u64, now: u64) -> (r: Result<bool, StreamError>)
        ensures
            match r {
                Ok(f) => self.streams().contains_key(stream_id) && f == self.streams()[
                    stream_id
                ].is_finalized(now),
                Err(e) => !self.streams().contains_key(stream_id) && e == StreamError::InvalidStream,
            },
    {
        match self.storage.stream_by_id(stream_id) {
            Some(s) => Ok(s.is_stream_finalized(now)),
            None => Err(StreamError::InvalidStream),
        }
    }

    /// The identifiers of the live streams that `address` takes part in, in
    /// increasing order.
    pub fn streams_list(&self, address: Address) -> (r: Vec<u64>)
        requires
            self.wf(),
        ensures
            r@ == self.stream_ids(address),
            is_listing(r@, self.streams(), address),
    {
        self.storage.streams_list(address)
    }

    /// Page `page` of the streams that `address` takes part in, with their
    /// identifiers, `page_size` (100 unless given) to a page, in increasing
    /// order of identifier. Fails if the address takes part in none.
    pub fn get_stream_list_with_details(
        &self,
        address: Address,
        page: usize,
        page_size: Option<usize>,
    ) -> (r: Result<Vec<(u64, Stream)>, StreamError>)
        requires
            self.wf(),
        ensures
            ({
                let ids = self.stream_ids(address);
                let size = match page_size {
                    Some(n) => n as int,
                    None => 100,
                };
                let start = page * size;
                match r {
                    Err(e) => ids.len() == 0 && e == StreamError::NoStreamsForAddress,
                    Ok(v) => {
                        &&& ids.len() > 0
                        &&& v@.len() == if start < ids.len() {
                            vstd::math::min(size, ids.len() - start)
                        } else {
                            0
                        }
                        &&& forall|k: int|
                            0 <= k < v@.len() ==> {
                                &&& (#[trigger] v@[k]).0 == ids[start + k]
                                &&& self.streams().contains_key(v@[k].0)
                                &&& v@[k].1@ == self.streams()[v@[k].0]
                            }
                    },
                }
            }),
    {
        let ids = self.storage.streams_list(address);
        proof {
            self.storage.lemma_stream_ids(address);
        }
        if ids.len() == 0 {
            return Err(StreamError::NoStreamsForAddress);
        }
        let size: usize = match page_size {
            Some(n) => n,
            None => 100,
        };
        let mut result: Vec<(u64, Stream)> = Vec::new();
        let len = ids.len();
        let start = match page.checked_mul(size) {
            Some(st) => st,
            None => {
                assert(page * size > len);
                return Ok(result);
            },
        };
        let mut i: usize = start;
        while i < ids.len() && i - start < size
            invariant
                start == page * size,
                start <= i,
                i - start <= size,
                i <= ids@.len() || i == start,
                ids@ == self.stream_ids(address),
                is_listing(ids@, self.streams(), address),
                result@.len() == i - start,
                forall|k: int|
                    0 <= k < result@.len() ==> {
                        &&& (#[trigger] result@[k]).0 == ids@[start + k]
                        &&& self.streams().contains_key(result@[k].0)
                        &&& result@[k].1@ == self.streams()[result@[k].0]
                    },
            decreases ids@.len() - i,
        {
            let id = ids[i];
            assert(ids@.contains(id));
            let stream = match self.storage.stream_by_id(id) {
                Some(s) => s.duplicate(),
                None => return Ok(result),
            };
            result.push((id, stream));
            i = i + 1;
        }
        Ok(result)
    }

    /// The events recorded and not yet taken, oldest first.
    pub fn emitted_events(&self) -> (r: &Vec<Event>)
        ensures
            crate::events::views_of(r@) == self.events(),
    {
        self.events.emitted()
    }

    /// Hands the recorded events over to the host, oldest first, and empties
    /// the log.
    pub fn take_events(&mut self) -> (r: Vec<Event>)
        requires
            old(self).wf(),
        ensures
            final(self).wf(),
            crate::events::views_of(r@) == old(self).events(),
            final(self).events() == Seq::<EventView>::empty(),
            final(self).streams() == old(self).streams(),
            final(self).last_id() == old(self).last_id(),
            final(self).own_address() == old(self).own_address(),
    {
        let r = self.events.take_events();
        assert(self.streams() == old(self).streams());
        r
    }

    /// Pays out and removes the cancelled stream `stream_id`.
    fn settle(&mut self, stream_id: u64) -> (r: Vec<Transfer>)
        requires
            old(self).wf(),
            old(self).streams().contains_key(stream_id),
            old(self).streams()[stream_id].is_cancelled(),
        ensures
            final(self).wf(),
            final(self).own_address() == old(self).own_address(),
            final(self).last_id() == old(self).last_id(),
            transfer_views(r@) == settlement(old(self).streams()[stream_id]),
            final(self).streams() == old(self).streams().remove(stream_id),
            final(self).events() == old(self).events() + settlement_events(
                stream_id,
                old(self).streams()[stream_id],
            ),
    {
        let ghost s = old(self).streams()[stream_id];
        let ghost pre_events = old(self).events();
        let stream = match self.storage.remove_stream(stream_id) {
            Some(st) => st,
            None => return Vec::new(),
        };
        let b = match stream.balances_after_cancel {
            Some(b) => b,
            None => return Vec::new(),
        };
        let mut transfers: Vec<Transfer> = Vec::new();
        if b.recipient_balance > 0 {
            transfers.push(
                Transfer {
                    to: stream.recipient,
                    payment_token: stream.payment_token.duplicate(),
                    payment_nonce: stream.payment_nonce,
                    amount: b.recipient_balance,
                },
            );
            self.events.claim_from_stream_event(stream_id, b.recipient_balance, false);
        }
        assert(self.events() =~= pre_events + settlement_events(stream_id, s));
        if b.sender_balance > 0 {
            transfers.push(
                Transfer {
                    to: stream.sender,
                    payment_token: stream.payment_token.duplicate(),
                    payment_nonce: stream.payment_nonce,
                    amount: b.sender_balance,
                },
            );
        }
        assert(transfer_views(transfers@) =~= settlement(s));
        transfers
    }
}

} // verus!
