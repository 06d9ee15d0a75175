//! Plain data of the registry: kitties, events and errors.

use vstd::prelude::*;

verus! {

/// Identity of an account.
pub type AccountId = u64;

/// A 128-bit kitty identifier or genetic code.
pub type KittyId = u128;

/// An amount of currency.
pub type Balance = u128;

/// A collectible: identifier, genetic code, asking price and breeding depth.
/// A price of zero means that the kitty is not for sale.
#[derive(Clone, Copy, Debug, Default, PartialEq, Eq)]
pub struct Kitty<Hash, Balance> {
    pub id: Hash,
    pub dna: Hash,
    pub price: Balance,
    pub gen: u64,
}

/// The kitty type that the registry stores.
pub type Asset = Kitty<KittyId, Balance>;

/// Notification of one successful operation.
#[derive(Clone, Copy, Debug, PartialEq, Eq)]
pub enum Event {
    /// `Created(owner, id)`
    Created(AccountId, KittyId),
    /// `PriceSet(owner, id, price)`
    PriceSet(AccountId, KittyId, Balance),
    /// `Transferred(from, to, id)`
    Transferred(AccountId, AccountId, KittyId),
    /// `Bought(buyer, seller, id, price)`
    Bought(AccountId, AccountId, KittyId, Balance),
}

/// Why an operation was refused.
#[derive(Clone, Copy, Debug, PartialEq, Eq)]
pub enum Error {
    NotFound,
    AlreadyExists,
    DuplicateIdentifier,
    NotOwner,
    SelfTransfer,
    SameParent,
    NotForSale,
    PriceTooHigh,
    InsufficientFunds,
    Unauthenticated,
}

} // verus!
