//! The plain values that the registry works on: accounts, indices, prices,
//! kitties, the events that a successful call reports and the errors that a
//! failed call returns.

use vstd::prelude::*;

verus! {

/// An authenticated account.
pub type AccountId = u64;

/// The index of a kitty. Indices are handed out from 1 upwards.
pub type KittyIndex = u32;

/// An amount of currency.
pub type Balance = u64;

/// The number of a block.
pub type BlockNumber = u64;

/// A 32-byte random seed.
pub type Seed = [u8; 32];

/// A kitty: its 16 bytes of DNA, fixed when it is created or bred.
#[derive(Clone, Copy, Debug, PartialEq, Eq)]
pub struct Kitty(pub [u8; 16]);

/// What a successful call reports.
#[derive(Clone, Copy, Debug, PartialEq, Eq)]
pub enum Event {
    /// A kitty was created: its owner and its index.
    KittyCreate(AccountId, KittyIndex),
    /// A kitty changed hands: the old owner, the new owner and the index.
    KittyTransfer(AccountId, AccountId, KittyIndex),
    /// A kitty was bred: the breeder, who owns it, and the child's index.
    KittyBreed(AccountId, KittyIndex),
    /// An owner set the asking price of a kitty, or with `None` withdrew it
    /// from the market: the owner, the index and the price.
    KittyMarket(AccountId, KittyIndex, Option<Balance>),
    /// A kitty was bought: the buyer, the index and the price paid.
    KittyBuy(AccountId, KittyIndex, Balance),
}

/// Why a call failed. A failed call leaves the registry as it was.
#[derive(Clone, Copy, Debug, PartialEq, Eq)]
pub enum Error {
    /// The counter has reached the largest index; no further kitty can be
    /// made.
    KittiesCountOverflow,
    /// The caller does not own the kitty.
    NotOwner,
    /// Both parents are the same kitty.
    SameParentIndex,
    /// No kitty has this index.
    InvalidKittyIndex,
    /// The kitty is not offered for sale.
    InvalidMarketPrice,
    /// The price offered is below the asking price.
    PriceTooLow,
    /// The currency ledger refused the payment.
    InsufficientFunds,
}

/// The currency ledger's refusal of a payment for want of funds.
#[derive(Clone, Copy, Debug, PartialEq, Eq)]
pub struct InsufficientFunds;

} // verus!
