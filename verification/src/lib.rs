//! Ownership, trading and breeding of unique collectible kitties.
//!
//! [`storage::Module`] is the registry; [`model`] says what each operation
//! does to it, and [`lemmas`] what follows for every sequence of operations.

pub mod hashing;
pub mod lemmas;
pub mod model;
pub mod storage;
pub mod types;

pub use storage::Module;
pub use types::{AccountId, Asset, Balance, Error, Event, Kitty, KittyId};
