use std::collections::HashMap;

use coindrip::{Address, CoinDrip, Payment, StreamError, TokenIdentifier, TxContext};

const TOKEN_ID: &[u8] = b"STRM-df6f26";
const EGLD: &[u8] = b"EGLD";

const SC: Address = Address { high: 0xc0, low: 0 };
const OWNER: Address = Address { high: 0, low: 1 };
const FIRST_USER: Address = Address { high: 0, low: 2 };
const SECOND_USER: Address = Address { high: 0, low: 3 };
const THIRD_USER: Address = Address { high: 0, low: 4 };

fn get_current_timestamp() -> u64 {
    1668518731
}

/// A small host around the engine: it keeps the block time and everyone's
/// balances, takes deposits in, and performs the transfers that the engine
/// hands back. A refused call changes nothing.
struct Chain {
    engine: CoinDrip,
    now: u64,
    balances: HashMap<(Address, Vec<u8>), u128>,
}

impl Chain {
    fn setup() -> Chain {
        let mut balances = HashMap::new();
        balances.insert((OWNER, TOKEN_ID.to_vec()), 5_000_000);
        balances.insert((OWNER, EGLD.to_vec()), 101);
        Chain { engine: CoinDrip::init(SC), now: 0, balances }
    }

    fn set_block_timestamp(&mut self, now: u64) {
        self.now = now;
    }

    fn balance(&self, who: Address, token: &[u8]) -> u128 {
        *self.balances.get(&(who, token.to_vec())).unwrap_or(&0)
    }

    fn ctx(&self, caller: Address) -> TxContext {
        TxContext { caller, block_timestamp: self.now }
    }

    fn pay(&mut self, transfers: Vec<coindrip::Transfer>) {
        for t in transfers {
            *self.balances.entry((t.to, t.payment_token.bytes.clone())).or_insert(0) += t.amount;
        }
    }

    fn create_stream(
        &mut self,
        caller: Address,
        token: &[u8],
        amount: u128,
        recipient: Address,
        start_time: u64,
        end_time: u64,
        can_cancel: Option<bool>,
    ) -> Result<u64, StreamError> {
        let payment = Payment { token: TokenIdentifier { bytes: token.to_vec() }, nonce: 0, amount };
        let ctx = self.ctx(caller);
        let id = self.engine.create_stream(ctx, payment, recipient, start_time, end_time, can_cancel)?;
        *self.balances.get_mut(&(caller, token.to_vec())).unwrap() -= amount;
        Ok(id)
    }

    fn claim_from_stream(&mut self, caller: Address, stream_id: u64) -> Result<(), StreamError> {
        let t = self.engine.claim_from_stream(self.ctx(caller), stream_id)?;
        self.pay(vec![t]);
        Ok(())
    }

    fn cancel_stream(&mut self, caller: Address, stream_id: u64, with_claim: Option<bool>) -> Result<(), StreamError> {
        let ts = self.engine.cancel_stream(self.ctx(caller), stream_id, with_claim)?;
        self.pay(ts);
        Ok(())
    }

    fn claim_from_stream_after_cancel(&mut self, caller: Address, stream_id: u64) -> Result<(), StreamError> {
        let ts = self.engine.claim_from_stream_after_cancel(self.ctx(caller), stream_id)?;
        self.pay(ts);
        Ok(())
    }
}

#[test]
fn coindrip_protocol_test_deploy_test() {
    let setup = Chain::setup();
    assert_eq!(setup.engine.last_stream_id(), 0);
    assert!(setup.engine.streams_list(OWNER).is_empty());
}

#[test]
fn coindrip_protocol_test_create_stream_test() {
    let mut setup = Chain::setup();
    let current_timestamp = get_current_timestamp();
    setup.set_block_timestamp(current_timestamp);

    // A valid stream of 3K tokens
    setup
        .create_stream(OWNER, TOKEN_ID, 3_000, FIRST_USER, current_timestamp + 60, current_timestamp + 60 * 60, None)
        .unwrap();
    assert_eq!(setup.engine.streams_list(FIRST_USER).len(), 1);

    // A stream of 0 tokens
    let r = setup.create_stream(OWNER, TOKEN_ID, 0, FIRST_USER, current_timestamp + 60, current_timestamp + 60 * 60, None);
    assert_eq!(r, Err(StreamError::ZeroDeposit));

    // A stream towards the engine itself
    let r = setup.create_stream(OWNER, TOKEN_ID, 3_000, SC, current_timestamp + 60, current_timestamp + 60 * 60, None);
    assert_eq!(r, Err(StreamError::SelfStream));

    // A stream towards the caller
    let r = setup.create_stream(OWNER, TOKEN_ID, 3_000, OWNER, current_timestamp + 60, current_timestamp + 60 * 60, None);
    assert_eq!(r, Err(StreamError::CallerStream));

    // Start time before the current time
    let r = setup.create_stream(OWNER, TOKEN_ID, 3_000, FIRST_USER, current_timestamp - 60, current_timestamp + 60 * 60, None);
    assert_eq!(r, Err(StreamError::InvalidStartTime));

    // End time before the start time
    let r = setup.create_stream(OWNER, TOKEN_ID, 3_000, FIRST_USER, current_timestamp + 60 * 60, current_timestamp + 60, None);
    assert_eq!(r, Err(StreamError::InvalidEndTime));
}

#[test]
fn coindrip_protocol_test_claim_from_stream_test() {
    let mut setup = Chain::setup();
    let current_timestamp = get_current_timestamp();
    setup.set_block_timestamp(current_timestamp);

    setup
        .create_stream(OWNER, TOKEN_ID, 3_000, FIRST_USER, current_timestamp + 60, current_timestamp + 60 * 3, None)
        .unwrap();

    // Claim by someone other than the recipient
    assert_eq!(setup.claim_from_stream(OWNER, 1), Err(StreamError::Unauthorized));

    // Nothing to claim yet
    assert_eq!(setup.claim_from_stream(FIRST_USER, 1), Err(StreamError::ZeroClaim));

    setup.set_block_timestamp(current_timestamp + 60 * 2);

    // Claim 1.5K tokens
    setup.claim_from_stream(FIRST_USER, 1).unwrap();
    assert_eq!(setup.balance(FIRST_USER, TOKEN_ID), 1500);

    setup.set_block_timestamp(current_timestamp + 60 * 5);

    // Claim the other 1.5K tokens
    setup.claim_from_stream(FIRST_USER, 1).unwrap();
    assert_eq!(setup.balance(FIRST_USER, TOKEN_ID), 3000);

    // The stream is gone
    assert_eq!(setup.claim_from_stream(FIRST_USER, 1), Err(StreamError::InvalidStream));

    // And so is its index entry
    assert_eq!(setup.engine.streams_list(FIRST_USER).len(), 0);
}

#[test]
fn cancel_stream_test() {
    let mut setup = Chain::setup();
    let current_timestamp = get_current_timestamp();
    setup.set_block_timestamp(current_timestamp);
    let owner_balance = setup.balance(OWNER, TOKEN_ID);

    setup
        .create_stream(OWNER, TOKEN_ID, 3_000, FIRST_USER, current_timestamp + 60, current_timestamp + 60 * 3, None)
        .unwrap();

    // Only the sender and the recipient can cancel
    assert_eq!(setup.cancel_stream(SECOND_USER, 1, None), Err(StreamError::Unauthorized));

    setup.set_block_timestamp(current_timestamp + 60 * 2);

    // Cancel in the middle: both parties are settled at once
    setup.cancel_stream(FIRST_USER, 1, None).unwrap();
    assert_eq!(setup.balance(FIRST_USER, TOKEN_ID), 1500);
    assert_eq!(setup.balance(OWNER, TOKEN_ID), owner_balance - 1500);

    setup.set_block_timestamp(current_timestamp);

    setup
        .create_stream(OWNER, TOKEN_ID, 3_000, FIRST_USER, current_timestamp + 60, current_timestamp + 60 * 3, Some(false))
        .unwrap();

    assert_eq!(setup.cancel_stream(FIRST_USER, 2, None), Err(StreamError::NotCancellable));
}

#[test]
fn claim_from_stream_after_cancel_test() {
    let mut setup = Chain::setup();
    let current_timestamp = get_current_timestamp();
    setup.set_block_timestamp(current_timestamp);
    let owner_balance = setup.balance(OWNER, TOKEN_ID);

    setup
        .create_stream(OWNER, TOKEN_ID, 3_000, FIRST_USER, current_timestamp + 60, current_timestamp + 60 * 3, None)
        .unwrap();

    setup.set_block_timestamp(current_timestamp + 60 * 2);

    assert_eq!(setup.claim_from_stream_after_cancel(FIRST_USER, 1), Err(StreamError::NotCancelled));

    // Cancel in the middle, settling later
    setup.cancel_stream(FIRST_USER, 1, Some(false)).unwrap();
    assert_eq!(setup.balance(FIRST_USER, TOKEN_ID), 0);
    assert_eq!(setup.balance(OWNER, TOKEN_ID), owner_balance - 3000);

    setup.set_block_timestamp(current_timestamp + 60 * 6);

    assert_eq!(setup.claim_from_stream_after_cancel(SECOND_USER, 1), Err(StreamError::Unauthorized));

    // One call settles both parties and removes the stream
    setup.claim_from_stream_after_cancel(FIRST_USER, 1).unwrap();
    assert_eq!(setup.balance(FIRST_USER, TOKEN_ID), 1500);
    assert_eq!(setup.balance(OWNER, TOKEN_ID), owner_balance - 1500);

    assert_eq!(setup.claim_from_stream_after_cancel(FIRST_USER, 1), Err(StreamError::InvalidStream));
    assert_eq!(setup.claim_from_stream_after_cancel(OWNER, 1), Err(StreamError::InvalidStream));

    assert_eq!(setup.balance(FIRST_USER, TOKEN_ID), 1500);
    assert_eq!(setup.balance(OWNER, TOKEN_ID), owner_balance - 1500);
}

#[test]
fn streamed_so_far_test() {
    let mut setup = Chain::setup();
    let current_timestamp = get_current_timestamp();
    setup.set_block_timestamp(current_timestamp);

    setup
        .create_stream(OWNER, TOKEN_ID, 3_000, FIRST_USER, current_timestamp + 60, current_timestamp + 60 * 3, None)
        .unwrap();

    // Before the start
    assert_eq!(setup.engine.recipient_balance(1, current_timestamp), Ok(0));

    // Half way
    assert_eq!(setup.engine.recipient_balance(1, current_timestamp + 60 * 2), Ok(1500));

    // After the end
    assert_eq!(setup.engine.recipient_balance(1, current_timestamp + 60 * 6), Ok(3000));
}

#[test]
fn claim_from_stream_rounding_test() {
    let mut setup = Chain::setup();
    let current_timestamp = get_current_timestamp();
    setup.set_block_timestamp(current_timestamp);
    let first_user = THIRD_USER;

    setup
        .create_stream(OWNER, TOKEN_ID, 2, first_user, current_timestamp + 60, current_timestamp + 60 * 31, None)
        .unwrap();

    setup.set_block_timestamp(current_timestamp + 60 * 5);

    // 0 tokens to claim
    assert_eq!(setup.claim_from_stream(first_user, 1), Err(StreamError::ZeroClaim));
    assert_eq!(setup.balance(first_user, TOKEN_ID), 0);

    setup.set_block_timestamp(current_timestamp + 60 * 26);

    // 1 token
    setup.claim_from_stream(first_user, 1).unwrap();
    assert_eq!(setup.balance(first_user, TOKEN_ID), 1);

    setup.set_block_timestamp(current_timestamp + 60 * 31 + 60);

    // The last token
    setup.claim_from_stream(first_user, 1).unwrap();
    assert_eq!(setup.balance(first_user, TOKEN_ID), 2);

    // The stream is gone
    assert_eq!(setup.claim_from_stream(first_user, 1), Err(StreamError::InvalidStream));
    assert_eq!(setup.engine.streams_list(first_user).len(), 0);
}

#[test]
fn claim_from_stream_egld_test() {
    let mut setup = Chain::setup();
    let current_timestamp = get_current_timestamp();
    setup.set_block_timestamp(current_timestamp);

    setup
        .create_stream(OWNER, EGLD, 100, FIRST_USER, current_timestamp + 60, current_timestamp + 60 * 3, None)
        .unwrap();

    assert_eq!(setup.claim_from_stream(FIRST_USER, 1), Err(StreamError::ZeroClaim));

    setup.set_block_timestamp(current_timestamp + 60 * 2);

    // Claim 50 EGLD
    setup.claim_from_stream(FIRST_USER, 1).unwrap();
    assert_eq!(setup.balance(FIRST_USER, EGLD), 50);

    setup.set_block_timestamp(current_timestamp + 60 * 5);

    // Claim the other 50 EGLD
    setup.claim_from_stream(FIRST_USER, 1).unwrap();
    assert_eq!(setup.balance(FIRST_USER, EGLD), 100);
}

#[test]
fn empty_rust_test_deploy_test() {
    let setup = Chain::setup();
    assert_eq!(setup.engine.last_stream_id(), 0);
}

#[test]
fn empty_rust_test_create_stream_test() {
    let mut setup = Chain::setup();
    let current_timestamp = get_current_timestamp();
    setup.set_block_timestamp(current_timestamp);

    setup
        .create_stream(OWNER, TOKEN_ID, 3_000, FIRST_USER, current_timestamp + 60, current_timestamp + 60 * 60, None)
        .unwrap();
    assert_eq!(setup.engine.streams_list(FIRST_USER).len(), 1);

    let r = setup.create_stream(OWNER, TOKEN_ID, 0, FIRST_USER, current_timestamp + 60, current_timestamp + 60 * 60, None);
    assert_eq!(r, Err(StreamError::ZeroDeposit));

    let r = setup.create_stream(OWNER, TOKEN_ID, 3_000, SC, current_timestamp + 60, current_timestamp + 60 * 60, None);
    assert_eq!(r, Err(StreamError::SelfStream));

    let r = setup.create_stream(OWNER, TOKEN_ID, 3_000, OWNER, current_timestamp + 60, current_timestamp + 60 * 60, None);
    assert_eq!(r, Err(StreamError::CallerStream));

    let r = setup.create_stream(OWNER, TOKEN_ID, 3_000, FIRST_USER, current_timestamp - 60, current_timestamp + 60 * 60, None);
    assert_eq!(r, Err(StreamError::InvalidStartTime));

    let r = setup.create_stream(OWNER, TOKEN_ID, 3_000, FIRST_USER, current_timestamp + 60 * 60, current_timestamp + 60, None);
    assert_eq!(r, Err(StreamError::InvalidEndTime));
}
