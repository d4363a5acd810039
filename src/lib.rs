//! A token payment-streaming engine.
//!
//! A sender locks a deposit that vests linearly to a recipient between a
//! start and an end time. The recipient claims what has vested; either party
//! may cancel a cancellable stream, which freezes both shares until they are
//! paid out. Every amount is computed from the stream's own fields and the
//! current time, and the engine proves that what it pays out never exceeds
//! what was deposited.
pub mod types;
pub mod storage;
pub mod balance;
pub mod events;
pub mod coindrip;
pub mod laws;

pub use balance::mul_div_floor;
pub use coindrip::{CoinDrip, Transfer};
pub use events::{Event, EventLog, EventsModule};
pub use storage::{BalancesAfterCancel, StorageModule, Stream};
pub use types::{Address, Payment, StreamError, TokenIdentifier, TxContext};
