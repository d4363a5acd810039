use vstd::prelude::*;

verus! {

/// A principal: an account or a contract, as its 32 address bytes held in
/// two big-endian 128-bit words.
#[derive(Clone, Copy, Debug, PartialEq, Eq, Hash, Structural)]
pub struct Address {
    pub high: u128,
    pub low: u128,
}

/// The identifier of the streamed asset (`EGLD` for the native coin, or an
/// ESDT ticker such as `STRM-df6f26`).
#[derive(Clone, Debug, PartialEq, Eq, Hash)]
pub struct TokenIdentifier {
    pub bytes: Vec<u8>,
}

impl View for TokenIdentifier {
    type V = Seq<u8>;

    open spec fn view(&self) -> Seq<u8> {
        self.bytes@
    }
}

impl TokenIdentifier {
    /// A copy of the identifier, byte for byte.
    pub fn duplicate(&self) -> (r: TokenIdentifier)
        ensures
            r@ == self@,
    {
        let bytes = self.bytes.clone();
        assert(bytes@ =~= self.bytes@);
        TokenIdentifier { bytes }
    }
}

/// What the caller sent along with a call: asset, asset nonce and amount.
#[derive(Clone, Debug, PartialEq, Eq)]
pub struct Payment {
    pub token: TokenIdentifier,
    pub nonce: u64,
    pub amount: u128,
}

/// What the host tells the engine about the current call.
#[derive(Clone, Copy, Debug, PartialEq, Eq)]
pub struct TxContext {
    pub caller: Address,
    pub block_timestamp: u64,
}

/// Why an operation was refused. A refused operation changes nothing.
#[derive(Clone, Copy, Debug, PartialEq, Eq, Structural)]
pub enum StreamError {
    /// The recipient is the engine's own address.
    SelfStream,
    /// The recipient is the caller.
    CallerStream,
    /// The payment is not a fungible asset (its nonce is not zero).
    UnsupportedAsset,
    /// The deposit is zero.
    ZeroDeposit,
    /// The start time is before the current time.
    InvalidStartTime,
    /// The end time is not after the start time.
    InvalidEndTime,
    /// No stream has this identifier.
    InvalidStream,
    /// The caller does not have the role that the operation asks for.
    Unauthorized,
    /// Nothing is claimable.
    ZeroClaim,
    /// The stream was created non-cancellable.
    NotCancellable,
    /// The stream is cancelled, and the operation needs an active one.
    AlreadyCancelled,
    /// The stream is active, and the operation needs a cancelled one.
    NotCancelled,
    /// The address takes part in no stream.
    NoStreamsForAddress,
    /// The time given is earlier than a claim already recorded on the stream:
    /// the host's clock went backwards. This is a fault of the host, not of
    /// the caller.
    ClockRegression,
}

} // verus!
