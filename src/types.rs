//! Plain values shared by every component: identities, amounts, the call
//! context handed in by the host, the transfers handed back to it, and errors.
use vstd::prelude::*;

verus! {

/// An amount, in the smallest unit of a currency or of a token.
pub type Balance = u128;

/// A reading of the host's logical clock.
pub type Timestamp = u64;

/// A 256-bit identity of an account or of a deployed token, as two halves.
#[derive(Clone, Copy, Debug, PartialEq, Eq, Structural)]
pub struct AccountId {
    pub high: u128,
    pub low: u128,
}

impl AccountId {
    /// Builds an identity from its big-endian 32 bytes.
    pub fn new(high: u128, low: u128) -> (r: AccountId)
        ensures
            r.high == high,
            r.low == low,
    {
        AccountId { high, low }
    }
}

/// What the host tells a component about the call that is running.
#[derive(Clone, Copy, Debug, PartialEq, Eq, Structural)]
pub struct CallContext {
    /// Who made the call.
    pub caller: AccountId,
    /// The logical clock at the time of the call.
    pub now: Timestamp,
    /// Native currency attached to the call.
    pub transferred_value: Balance,
}

/// A `transfer_from` on a fungible token that the host must carry out.
#[derive(Clone, Copy, Debug, PartialEq, Eq, Structural)]
pub struct TokenTransfer {
    pub token: AccountId,
    pub from: AccountId,
    pub to: AccountId,
    pub amount: Balance,
}

/// A payment in native currency that the host must carry out.
#[derive(Clone, Copy, Debug, PartialEq, Eq, Structural)]
pub struct NativeTransfer {
    pub to: AccountId,
    pub amount: Balance,
}

/// Every way in which a call can be refused. A refused call changes nothing.
#[derive(Clone, Copy, Debug, PartialEq, Eq, Structural)]
pub enum Error {
    /// A checked addition, subtraction or multiplication would wrap.
    Overflow,
    /// No project has the given id.
    ProjectNotFound,
    /// The presale window has not opened yet.
    NotStarted,
    /// The presale window has closed.
    Ended,
    /// The attached payment does not exceed the cost.
    InsufficientPayment,
    /// The purchase would not leave the sold amount below the allocation.
    InsufficientAmount,
    /// The presale window is still open.
    NotEnded,
    /// The project has already been finished.
    AlreadyFinished,
    /// The presale window does not start before it ends.
    InvalidWindow,
    /// The amount to lock exceeds the supply.
    LockExceedsSupply,
    /// No lock is recorded for the token.
    LockNotFound,
    /// The lock has not matured yet.
    LockNotExpired,
    /// The attached fee is below the issuer's fee.
    FeeTooLow,
    /// The issuer has registered no token with the given handle.
    TokenNotFound,
    /// Only the owner may do this.
    Unauthorized,
    /// The component holds less than the amount asked for.
    InsufficientBalance,
}

} // verus!
