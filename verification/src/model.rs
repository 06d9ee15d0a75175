//! The mathematical model of the registry and of what each operation does to it.

use crate::hashing::fresh_id;
use crate::types::{AccountId, Asset, Balance, Error, Event, KittyId, Kitty};
use vstd::prelude::*;

verus! {

/// The registry as plain mathematics.
pub struct State {
    /// Every kitty, by identifier.
    pub kitties: Map<KittyId, Asset>,
    /// The owner of every kitty.
    pub owner: Map<KittyId, AccountId>,
    /// All identifiers ever registered, in order of registration.
    pub all: Seq<KittyId>,
    /// For every account the kitties it owns, in roster order.
    pub owned: Map<AccountId, Seq<KittyId>>,
    /// The counter that feeds identifier generation.
    pub nonce: u64,
}

/// The registry before anything happened.
pub open spec fn empty_state() -> State {
    State {
        kitties: Map::empty(),
        owner: Map::empty(),
        all: Seq::empty(),
        owned: Map::total(|a: AccountId| Seq::<KittyId>::empty()),
        nonce: 0,
    }
}

/// The counter after one identifier request: one more, and zero after the largest value.
pub open spec fn next_nonce(n: u64) -> u64 {
    if n == u64::MAX {
        0
    } else {
        (n + 1) as u64
    }
}

/// The state with its counter advanced once.
pub open spec fn bump(s: State) -> State {
    State { nonce: next_nonce(s.nonce), ..s }
}

/// A roster without the entry at `pos`: the last entry takes its place.
pub open spec fn swap_remove(r: Seq<KittyId>, pos: int) -> Seq<KittyId> {
    r.update(pos, r.last()).drop_last()
}

/// The state with `k` registered under `k.id` for `to`.
pub open spec fn with_kitty(s: State, to: AccountId, k: Asset) -> State {
    State {
        kitties: s.kitties.insert(k.id, k),
        owner: s.owner.insert(k.id, to),
        all: s.all.push(k.id),
        owned: s.owned.insert(to, s.owned[to].push(k.id)),
        nonce: s.nonce,
    }
}

/// The state with kitty `id` moved from the roster of `from` to the end of that of `to`.
pub open spec fn with_owner(s: State, from: AccountId, to: AccountId, id: KittyId) -> State {
    State {
        owner: s.owner.insert(id, to),
        owned: s.owned.insert(from, swap_remove(s.owned[from], s.owned[from].index_of(id))).insert(
            to,
            s.owned[to].push(id),
        ),
        ..s
    }
}

/// The state with the price of kitty `id` replaced.
pub open spec fn with_price(s: State, id: KittyId, price: Balance) -> State {
    State { kitties: s.kitties.insert(id, (Kitty { price: price, ..s.kitties[id] })), ..s }
}

/// Registration: refused when the identifier is taken.
pub open spec fn mint_outcome(s: State, to: AccountId, k: Asset) -> (State, Result<(), Error>) {
    if s.kitties.contains_key(k.id) {
        (s, Err(Error::AlreadyExists))
    } else {
        (with_kitty(s, to, k), Ok(()))
    }
}

/// Why a transfer is refused, if it is.
pub open spec fn transfer_refusal(s: State, from: AccountId, to: AccountId, id: KittyId) -> Option<
    Error,
> {
    if !s.kitties.contains_key(id) {
        Some(Error::NotFound)
    } else if s.owner[id] != from {
        Some(Error::NotOwner)
    } else if from == to {
        Some(Error::SelfTransfer)
    } else {
        None
    }
}

/// A transfer of `id` from `from` to `to`.
pub open spec fn transfer_outcome(s: State, from: AccountId, to: AccountId, id: KittyId) -> (
    State,
    Result<Event, Error>,
) {
    match transfer_refusal(s, from, to, id) {
        Some(e) => (s, Err(e)),
        None => (with_owner(s, from, to, id), Ok(Event::Transferred(from, to, id))),
    }
}

/// A founder kitty: its genetic code is its identifier.
pub open spec fn founder(id: KittyId) -> Asset {
    Kitty { id: id, dna: id, price: 0, gen: 0 }
}

/// Creation once the identifier is known.
pub open spec fn create_outcome(s: State, who: AccountId, id: KittyId) -> (
    State,
    Result<Event, Error>,
) {
    if s.kitties.contains_key(id) {
        (s, Err(Error::DuplicateIdentifier))
    } else {
        (with_kitty(s, who, founder(id)), Ok(Event::Created(who, id)))
    }
}

/// A price change by `who`.
pub open spec fn set_price_outcome(s: State, who: AccountId, id: KittyId, price: Balance) -> (
    State,
    Result<Event, Error>,
) {
    if !s.kitties.contains_key(id) {
        (s, Err(Error::NotFound))
    } else if s.owner[id] != who {
        (s, Err(Error::NotOwner))
    } else {
        (with_price(s, id, price), Ok(Event::PriceSet(who, id, price)))
    }
}

/// Why a purchase is refused, if it is.
pub open spec fn buy_refusal(
    s: State,
    buyer: AccountId,
    id: KittyId,
    max_price: Balance,
    funds: Balance,
) -> Option<Error> {
    if !s.kitties.contains_key(id) {
        Some(Error::NotFound)
    } else if s.kitties[id].price == 0 {
        Some(Error::NotForSale)
    } else if s.kitties[id].price > max_price {
        Some(Error::PriceTooHigh)
    } else if funds < s.kitties[id].price {
        Some(Error::InsufficientFunds)
    } else if s.owner[id] == buyer {
        Some(Error::SelfTransfer)
    } else {
        None
    }
}

/// A purchase by `buyer`, who holds `funds`: the kitty changes hands and is
/// taken off the market; the event names the payment that is due.
pub open spec fn buy_outcome(
    s: State,
    buyer: AccountId,
    id: KittyId,
    max_price: Balance,
    funds: Balance,
) -> (State, Result<Event, Error>) {
    match buy_refusal(s, buyer, id, max_price, funds) {
        Some(e) => (s, Err(e)),
        None => (
            with_price(with_owner(s, s.owner[id], buyer, id), id, 0),
            Ok(Event::Bought(buyer, s.owner[id], id, s.kitties[id].price)),
        ),
    }
}

/// Genetic mixing: each bit comes from the first parent where the selector
/// has a zero and from the second where it has a one.
pub open spec fn mix_dna(a: u128, b: u128, selector: u128) -> u128 {
    (a & !selector) | (b & selector)
}

/// Why a breeding is refused before an identifier is requested, if it is.
pub open spec fn breed_refusal(s: State, who: AccountId, id1: KittyId, id2: KittyId) -> Option<
    Error,
> {
    if !s.kitties.contains_key(id1) || !s.kitties.contains_key(id2) {
        Some(Error::NotFound)
    } else if s.owner[id1] != who && s.owner[id2] != who {
        Some(Error::NotOwner)
    } else if id1 == id2 {
        Some(Error::SameParent)
    } else {
        None
    }
}

/// The breeding depth of a child.
pub open spec fn child_gen(g1: u64, g2: u64) -> int {
    if g1 >= g2 {
        g1 + 1
    } else {
        g2 + 1
    }
}

/// The child of two registered kitties under a fresh identifier, which also
/// selects the bits that each parent gives.
pub open spec fn offspring(s: State, id1: KittyId, id2: KittyId, id: KittyId) -> Asset {
    Kitty {
        id: id,
        dna: mix_dna(s.kitties[id1].dna, s.kitties[id2].dna, id),
        price: 0,
        gen: child_gen(s.kitties[id1].gen, s.kitties[id2].gen) as u64,
    }
}

/// Breeding once the child's identifier is known.
pub open spec fn breed_outcome(s: State, who: AccountId, id1: KittyId, id2: KittyId, id: KittyId) -> (
    State,
    Result<Event, Error>,
) {
    match breed_refusal(s, who, id1, id2) {
        Some(e) => (s, Err(e)),
        None => if s.kitties.contains_key(id) {
            (s, Err(Error::DuplicateIdentifier))
        } else {
            (with_kitty(s, who, offspring(s, id1, id2, id)), Ok(Event::Created(who, id)))
        },
    }
}

/// Creation by `who` with the host's randomness: the identifier request
/// advances the counter whatever follows.
pub open spec fn create_kitty_outcome(s: State, who: AccountId, rand: Seq<u8>) -> (
    State,
    Result<Event, Error>,
) {
    create_outcome(bump(s), who, fresh_id(rand, who, s.nonce))
}

/// Breeding by `who` with the host's randomness: a refused request leaves the
/// counter alone; otherwise the identifier request advances it.
pub open spec fn breed_kitty_outcome(
    s: State,
    who: AccountId,
    id1: KittyId,
    id2: KittyId,
    rand: Seq<u8>,
) -> (State, Result<Event, Error>) {
    match breed_refusal(s, who, id1, id2) {
        Some(e) => (s, Err(e)),
        None => breed_outcome(bump(s), who, id1, id2, fresh_id(rand, who, s.nonce)),
    }
}

/// What holds of every registry: each registered kitty is listed once and has
/// one owner, in whose roster, and in no other, it stands once.
pub open spec fn valid(s: State) -> bool {
    &&& forall|a: AccountId| #[trigger] s.owned.contains_key(a)
    &&& s.all.no_duplicates()
    &&& s.kitties.dom() == s.owner.dom()
    &&& forall|id: KittyId| #[trigger] s.owner.contains_key(id) <==> s.all.contains(id)
    &&& forall|id: KittyId| #[trigger]
        s.kitties.contains_key(id) ==> s.kitties[id].id == id && s.kitties[id].gen
            <= s.all.index_of(id)
    &&& forall|a: AccountId| (#[trigger] s.owned[a]).no_duplicates()
    &&& forall|a: AccountId, id: KittyId| #[trigger]
        s.owned[a].contains(id) <==> s.owner.contains_key(id) && s.owner[id] == a
}

} // verus!
