use vstd::prelude::*;

use crate::types::{Address, TokenIdentifier};

verus! {

/// A domain event, recorded for the host to publish.
#[derive(Clone, Debug, PartialEq, Eq)]
pub enum Event {
    CreateStream {
        stream_id: u64,
        sender: Address,
        recipient: Address,
        payment_token: TokenIdentifier,
        payment_nonce: u64,
        deposit: u128,
        start_time: u64,
        end_time: u64,
    },
    ClaimFromStream { stream_id: u64, amount: u128, finalized: bool },
    CancelStream { stream_id: u64, canceled_by: Address, claimed_amount: u128 },
}

/// The mathematical value of an [`Event`].
pub enum EventView {
    CreateStream {
        stream_id: u64,
        sender: Address,
        recipient: Address,
        payment_token: Seq<u8>,
        payment_nonce: u64,
        deposit: u128,
        start_time: u64,
        end_time: u64,
    },
    ClaimFromStream { stream_id: u64, amount: u128, finalized: bool },
    CancelStream { stream_id: u64, canceled_by: Address, claimed_amount: u128 },
}

impl View for Event {
    type V = EventView;

    open spec fn view(&self) -> EventView {
        match self {
            Event::CreateStream {
                stream_id,
                sender,
                recipient,
                payment_token,
                payment_nonce,
                deposit,
                start_time,
                end_time,
            } => EventView::CreateStream {
                stream_id: *stream_id,
                sender: *sender,
                recipient: *recipient,
                payment_token: payment_token@,
                payment_nonce: *payment_nonce,
                deposit: *deposit,
                start_time: *start_time,
                end_time: *end_time,
            },
            Event::ClaimFromStream { stream_id, amount, finalized } => EventView::ClaimFromStream {
                stream_id: *stream_id,
                amount: *amount,
                finalized: *finalized,
            },
            Event::CancelStream { stream_id, canceled_by, claimed_amount } =>
                EventView::CancelStream {
                stream_id: *stream_id,
                canceled_by: *canceled_by,
                claimed_amount: *claimed_amount,
            },
        }
    }
}

/// The values of a sequence of events.
pub open spec fn views_of(events: Seq<Event>) -> Seq<EventView> {
    events.map_values(|e: Event| e@)
}

/// Where the engine records its domain events, oldest first; its view is
/// the sequence of events recorded.
pub trait EventsModule: View<V = Seq<EventView>> + Sized {
    /// Records the creation of a stream with all its immutable fields.
    fn create_stream_event(
        &mut self,
        stream_id: u64,
        sender: Address,
        recipient: Address,
        payment_token: &TokenIdentifier,
        payment_nonce: u64,
        deposit: u128,
        start_time: u64,
        end_time: u64,
    )
        ensures
            final(self)@ == old(self)@.push(
                EventView::CreateStream {
                    stream_id,
                    sender,
                    recipient,
                    payment_token: payment_token@,
                    payment_nonce,
                    deposit,
                    start_time,
                    end_time,
                },
            ),
    ;

    /// Records a payment of `amount` to the recipient of stream `stream_id`;
    /// `finalized` tells whether it was the last one.
    fn claim_from_stream_event(&mut self, stream_id: u64, amount: u128, finalized: bool)
        ensures
            final(self)@ == old(self)@.push(
                EventView::ClaimFromStream { stream_id, amount, finalized },
            ),
    ;

    /// Records the cancellation of stream `stream_id` by `canceled_by`.
    fn cancel_stream_event(&mut self, stream_id: u64, canceled_by: Address, claimed_amount: u128)
        ensures
            final(self)@ == old(self)@.push(
                EventView::CancelStream { stream_id, canceled_by, claimed_amount },
            ),
    ;
}

/// An append-only, in-memory log of events that the host takes and
/// publishes.
pub struct EventLog {
    log: Vec<Event>,
}

impl View for EventLog {
    type V = Seq<EventView>;

    closed spec fn view(&self) -> Seq<EventView> {
        views_of(self.log@)
    }
}

impl EventLog {
    pub fn new() -> (r: EventLog)
        ensures
            r@ == Seq::<EventView>::empty(),
    {
        let r = EventLog { log: Vec::new() };
        assert(r@ =~= Seq::<EventView>::empty());
        r
    }

    fn emit(&mut self, event: Event)
        ensures
            final(self)@ == old(self)@.push(event@),
    {
        let ghost pre = self@;
        self.log.push(event);
        assert(self@ =~= pre.push(event@));
    }

    /// The events recorded so far, oldest first.
    pub fn emitted(&self) -> (r: &Vec<Event>)
        ensures
            views_of(r@) == self@,
    {
        &self.log
    }

    /// Hands over the events recorded so far, oldest first, and empties the
    /// log.
    pub fn take_events(&mut self) -> (r: Vec<Event>)
        ensures
            views_of(r@) == old(self)@,
            final(self)@ == Seq::<EventView>::empty(),
    {
        let mut r: Vec<Event> = Vec::new();
        std::mem::swap(&mut self.log, &mut r);
        assert(self@ =~= Seq::<EventView>::empty());
        r
    }
}

impl EventsModule for EventLog {
    fn create_stream_event(
        &mut self,
        stream_id: u64,
        sender: Address,
        recipient: Address,
        payment_token: &TokenIdentifier,
        payment_nonce: u64,
        deposit: u128,
        start_time: u64,
        end_time: u64,
    ) {
        let payment_token = payment_token.duplicate();
        self.emit(
            Event::CreateStream {
                stream_id,
                sender,
                recipient,
                payment_token,
                payment_nonce,
                deposit,
                start_time,
                end_time,
            },
        );
    }

    fn claim_from_stream_event(&mut self, stream_id: u64, amount: u128, finalized: bool) {
        self.emit(Event::ClaimFromStream { stream_id, amount, finalized });
    }

    fn cancel_stream_event(&mut self, stream_id: u64, canceled_by: Address, claimed_amount: u128) {
        self.emit(Event::CancelStream { stream_id, canceled_by, claimed_amount });
    }
}

} // verus!
