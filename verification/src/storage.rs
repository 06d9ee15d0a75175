//! The registry itself: hash-indexed storage with per-owner rosters, and the
//! five operations on it.

use crate::hashing::{derive_id, encode_u64, fresh_id, scale_u64};
use crate::model::{
    breed_kitty_outcome, breed_outcome, breed_refusal, bump, buy_outcome, buy_refusal, child_gen,
    create_kitty_outcome, create_outcome, empty_state, mint_outcome, mix_dna, set_price_outcome,
    transfer_outcome, valid, with_price, State,
};
use crate::types::{AccountId, Asset, Balance, Error, Event, Kitty, KittyId};
use std::collections::HashMap;
use vstd::prelude::*;

verus! {

broadcast use vstd::std_specs::hash::group_hash_axioms;

/// What the registry keeps for one kitty: the kitty, its owner, and where its
/// identifier stands in the global list and in the owner's roster.
#[derive(Clone, Copy)]
struct Entry {
    kitty: Asset,
    owner: AccountId,
    all_pos: usize,
    owned_pos: usize,
}

/// The kitty registry.
pub struct Module {
    kitties: HashMap<KittyId, Entry>,
    all_kitties: Vec<KittyId>,
    owned: HashMap<AccountId, Vec<KittyId>>,
    nonce: u64,
}

impl View for Module {
    type V = State;

    closed spec fn view(&self) -> State {
        State {
            kitties: Map::new(
                |id: KittyId| self.kitties@.contains_key(id),
                |id: KittyId| self.kitties@[id].kitty,
            ),
            owner: Map::new(
                |id: KittyId| self.kitties@.contains_key(id),
                |id: KittyId| self.kitties@[id].owner,
            ),
            all: self.all_kitties@,
            owned: Map::total(|a: AccountId| self.roster(a)),
            nonce: self.nonce,
        }
    }
}

impl Module {
    /// The roster of an account; empty for an account that never owned a kitty.
    closed spec fn roster(&self, a: AccountId) -> Seq<KittyId> {
        if self.owned@.contains_key(a) {
            self.owned@[a]@
        } else {
            Seq::empty()
        }
    }

    /// The positions recorded for each kitty agree with the global list and
    /// the rosters, and the other way round.
    pub closed spec fn wf(&self) -> bool {
        &&& forall|i: int|
            #![trigger self.all_kitties@[i]]
            0 <= i < self.all_kitties@.len() ==> self.kitties@.contains_key(self.all_kitties@[i])
                && self.kitties@[self.all_kitties@[i]].all_pos == i
        &&& forall|id: KittyId| #[trigger]
            self.kitties@.contains_key(id) ==> {
                let e = self.kitties@[id];
                &&& e.kitty.id == id
                &&& e.all_pos < self.all_kitties@.len()
                &&& self.all_kitties@[e.all_pos as int] == id
                &&& e.kitty.gen <= e.all_pos
                &&& self.owned@.contains_key(e.owner)
                &&& e.owned_pos < self.owned@[e.owner]@.len()
                &&& self.owned@[e.owner]@[e.owned_pos as int] == id
            }
        &&& forall|a: AccountId, j: int|
            #![trigger self.owned@[a]@[j]]
            self.owned@.contains_key(a) && 0 <= j < self.owned@[a]@.len() ==> {
                let id = self.owned@[a]@[j];
                &&& self.kitties@.contains_key(id)
                &&& self.kitties@[id].owner == a
                &&& self.kitties@[id].owned_pos == j
            }
    }

    /// An empty registry.
    pub fn new() -> (m: Module)
        ensures
            m.wf(),
            m@ == empty_state(),
    {
        let m = Module {
            kitties: HashMap::new(),
            all_kitties: Vec::new(),
            owned: HashMap::new(),
            nonce: 0,
        };
        proof {
            assert(m@.kitties =~= empty_state().kitties);
            assert(m@.owner =~= empty_state().owner);
            assert(m@.owned =~= empty_state().owned);
        }
        m
    }

    /// An empty registry whose counter resumes at `nonce`.
    pub fn with_nonce(nonce: u64) -> (m: Module)
        ensures
            m.wf(),
            m@ == (State { nonce: nonce, ..empty_state() }),
    {
        let m = Module {
            kitties: HashMap::new(),
            all_kitties: Vec::new(),
            owned: HashMap::new(),
            nonce: nonce,
        };
        proof {
            assert(m@.kitties =~= empty_state().kitties);
            assert(m@.owner =~= empty_state().owner);
            assert(m@.owned =~= empty_state().owned);
        }
        m
    }

    /// Every well-formed registry is valid: no identifier is listed twice,
    /// and every listed kitty has exactly one owner and one roster entry.
    pub proof fn lemma_wf_valid(&self)
        requires
            self.wf(),
        ensures
            valid(self@),
    {
        let s = self@;
        assert(s.kitties.dom() =~= s.owner.dom());
        assert forall|id: KittyId| #[trigger] s.owner.contains_key(id) <==> s.all.contains(
            id,
        ) by {
            if s.owner.contains_key(id) {
                assert(s.all[self.kitties@[id].all_pos as int] == id);
            }
        }
        assert forall|id: KittyId| #[trigger] s.kitties.contains_key(id) implies s.kitties[id].id
            == id && s.kitties[id].gen <= s.all.index_of(id) by {
            assert(s.all[self.kitties@[id].all_pos as int] == id);
            let i = s.all.index_of(id);
            assert(s.all[i] == id);
        }
        assert forall|a: AccountId| (#[trigger] s.owned[a]).no_duplicates() by {
            assert(s.owned[a] == self.roster(a));
        }
        assert forall|a: AccountId, id: KittyId| #[trigger]
            s.owned[a].contains(id) <==> s.owner.contains_key(id) && s.owner[id] == a by {
            assert(s.owned[a] == self.roster(a));
            if s.owner.contains_key(id) && s.owner[id] == a {
                assert(self.roster(a)[self.kitties@[id].owned_pos as int] == id);
            }
        }
    }

    /// The kitty registered under `id`.
    pub fn kitty(&self, id: KittyId) -> (r: Result<Asset, Error>)
        ensures
            r == (if self@.kitties.contains_key(id) {
                Ok::<Asset, Error>(self@.kitties[id])
            } else {
                Err(Error::NotFound)
            }),
    {
        match self.kitties.get(&id) {
            Some(e) => Ok(e.kitty),
            None => Err(Error::NotFound),
        }
    }

    /// The owner of kitty `id`, if it is registered.
    pub fn owner_of(&self, id: KittyId) -> (r: Option<AccountId>)
        ensures
            r == (if self@.owner.contains_key(id) {
                Some(self@.owner[id])
            } else {
                None
            }),
    {
        match self.kitties.get(&id) {
            Some(e) => Some(e.owner),
            None => None,
        }
    }

    /// How many kitties were ever registered.
    pub fn all_kitties_count(&self) -> (n: u64)
        ensures
            n == self@.all.len(),
    {
        self.all_kitties.len() as u64
    }

    /// The identifier registered as number `index`, counting from zero.
    pub fn kitty_by_index(&self, index: u64) -> (r: Option<KittyId>)
        ensures
            r == (if index < self@.all.len() {
                Some(self@.all[index as int])
            } else {
                None
            }),
    {
        if index < self.all_kitties.len() as u64 {
            Some(self.all_kitties[index as usize])
        } else {
            None
        }
    }

    /// How many kitties `who` owns.
    pub fn owned_kitty_count(&self, who: AccountId) -> (n: u64)
        ensures
            n == self@.owned[who].len(),
    {
        match self.owned.get(&who) {
            Some(r) => r.len() as u64,
            None => 0,
        }
    }

    /// The identifier at position `index` of the roster of `who`.
    pub fn kitty_of_owner_by_index(&self, who: AccountId, index: u64) -> (r: Option<KittyId>)
        ensures
            r == (if index < self@.owned[who].len() {
                Some(self@.owned[who][index as int])
            } else {
                None
            }),
    {
        match self.owned.get(&who) {
            Some(r) => {
                if index < r.len() as u64 {
                    Some(r[index as usize])
                } else {
                    None
                }
            },
            None => None,
        }
    }

    /// The current value of the identifier counter.
    pub fn nonce(&self) -> (n: u64)
        ensures
            n == self@.nonce,
    {
        self.nonce
    }

    /// Hands out the encoded counter and advances it, wrapping at the top.
    pub fn get_nonce(&mut self) -> (bytes: Vec<u8>)
        requires
            old(self).wf(),
        ensures
            final(self).wf(),
            final(self)@ == bump(old(self)@),
            bytes@ == scale_u64(old(self)@.nonce),
    {
        let nonce = self.nonce;
        self.nonce = nonce.wrapping_add(1);
        proof {
            assert(self@.kitties =~= old(self)@.kitties);
            assert(self@.owner =~= old(self)@.owner);
            assert(self@.owned =~= old(self)@.owned);
        }
        encode_u64(nonce)
    }

    /// Requests an identifier for `who`: the digest of the host's randomness,
    /// the account and the counter, which advances.
    pub fn next_id(&mut self, who: AccountId, rand: &[u8; 32]) -> (id: KittyId)
        requires
            old(self).wf(),
        ensures
            final(self).wf(),
            final(self)@ == bump(old(self)@),
            id == fresh_id(rand@, who, old(self)@.nonce),
    {
        let nonce = self.get_nonce();
        derive_id(rand, who, &nonce)
    }

    /// Registers `new_kitty` under `kitty_id` for `to`, unless the identifier
    /// is taken. The kitty carries that identifier, and its generation is at
    /// most the number of kitties registered before it.
    pub fn mint(&mut self, to: AccountId, kitty_id: KittyId, new_kitty: Asset) -> (r: Result<
        (),
        Error,
    >)
        requires
            old(self).wf(),
            new_kitty.id == kitty_id,
            new_kitty.gen <= old(self)@.all.len(),
        ensures
            final(self).wf(),
            (final(self)@, r) == mint_outcome(old(self)@, to, new_kitty),
    {
        if self.kitties.contains_key(&kitty_id) {
            return Err(Error::AlreadyExists);
        }
        let all_pos = self.all_kitties.len();
        let mut roster = match self.owned.remove(&to) {
            Some(r) => r,
            None => Vec::new(),
        };
        let owned_pos = roster.len();
        roster.push(kitty_id);
        self.owned.insert(to, roster);
        self.all_kitties.push(kitty_id);
        self.kitties.insert(
            kitty_id,
            Entry { kitty: new_kitty, owner: to, all_pos: all_pos, owned_pos: owned_pos },
        );
        proof {
            let goal = mint_outcome(old(self)@, to, new_kitty).0;
            assert(self@.kitties =~= goal.kitties);
            assert(self@.owner =~= goal.owner);
            assert(self@.all =~= goal.all);
            assert forall|a: AccountId| self.roster(a) == #[trigger] goal.owned[a] by {
                assert(old(self)@.owned[a] == old(self).roster(a));
            }
            assert(self@.owned =~= goal.owned);
        }
        Ok(())
    }

    /// Moves kitty `kitty_id` from `from` to `to`: out of the one roster, the
    /// last entry taking its place, and onto the end of the other.
    pub fn transfer_from(&mut self, from: AccountId, to: AccountId, kitty_id: KittyId) -> (r:
        Result<Event, Error>)
        requires
            old(self).wf(),
        ensures
            final(self).wf(),
            (final(self)@, r) == transfer_outcome(old(self)@, from, to, kitty_id),
    {
        let entry = match self.kitties.get(&kitty_id) {
            Some(e) => *e,
            None => {
                return Err(Error::NotFound);
            },
        };
        if entry.owner != from {
            return Err(Error::NotOwner);
        }
        if from == to {
            return Err(Error::SelfTransfer);
        }
        let pos = entry.owned_pos;
        let mut source = match self.owned.remove(&from) {
            Some(r) => r,
            None => Vec::new(),
        };
        let ghost before = source@;
        source.swap_remove(pos);
        if pos < source.len() {
            let moved = source[pos];
            match self.kitties.get(&moved) {
                Some(e) => {
                    let shifted = Entry { owned_pos: pos, ..*e };
                    self.kitties.insert(moved, shifted);
                },
                None => {},
            }
        }
        self.owned.insert(from, source);
        let mut target = match self.owned.remove(&to) {
            Some(r) => r,
            None => Vec::new(),
        };
        let owned_pos = target.len();
        target.push(kitty_id);
        self.owned.insert(to, target);
        self.kitties.insert(kitty_id, Entry { owner: to, owned_pos: owned_pos, ..entry });
        proof {
            let goal = transfer_outcome(old(self)@, from, to, kitty_id).0;
            assert(old(self)@.owned[from] == old(self).roster(from));
            assert(old(self)@.owned[to] == old(self).roster(to));
            assert(before == old(self).roster(from));
            let found = before.index_of(kitty_id);
            assert(before[pos as int] == kitty_id);
            assert(before[found] == kitty_id);
            assert(found == pos);
            assert(self@.kitties =~= goal.kitties);
            assert(self@.owner =~= goal.owner);
            assert forall|a: AccountId| self.roster(a) == #[trigger] goal.owned[a] by {
                assert(old(self)@.owned[a] == old(self).roster(a));
            }
            assert(self@.owned =~= goal.owned);
        }
        Ok(Event::Transferred(from, to, kitty_id))
    }

    /// Replaces the price of a registered kitty.
    fn put_price(&mut self, id: KittyId, price: Balance)
        requires
            old(self).wf(),
            old(self)@.kitties.contains_key(id),
        ensures
            final(self).wf(),
            final(self)@ == with_price(old(self)@, id, price),
    {
        match self.kitties.get(&id) {
            Some(e) => {
                let kitty = Kitty { price: price, ..e.kitty };
                let priced = Entry { kitty: kitty, ..*e };
                self.kitties.insert(id, priced);
            },
            None => {},
        }
        proof {
            let goal = with_price(old(self)@, id, price);
            assert(self@.kitties =~= goal.kitties);
            assert(self@.owner =~= goal.owner);
            assert(self@.owned =~= goal.owned);
        }
    }

    /// `who` gives kitty `kitty_id` to the account `to`.
    pub fn transfer(&mut self, who: AccountId, to: AccountId, kitty_id: KittyId) -> (r: Result<
        Event,
        Error,
    >)
        requires
            old(self).wf(),
        ensures
            final(self).wf(),
            (final(self)@, r) == transfer_outcome(old(self)@, who, to, kitty_id),
    {
        self.transfer_from(who, to, kitty_id)
    }

    /// `who` sets the asking price of its kitty; zero takes it off the market.
    pub fn set_price(&mut self, who: AccountId, kitty_id: KittyId, new_price: Balance) -> (r:
        Result<Event, Error>)
        requires
            old(self).wf(),
        ensures
            final(self).wf(),
            (final(self)@, r) == set_price_outcome(old(self)@, who, kitty_id, new_price),
    {
        match self.owner_of(kitty_id) {
            None => Err(Error::NotFound),
            Some(owner) => {
                if owner != who {
                    Err(Error::NotOwner)
                } else {
                    self.put_price(kitty_id, new_price);
                    Ok(Event::PriceSet(who, kitty_id, new_price))
                }
            },
        }
    }

    /// Whether `buyer`, who holds `funds`, may buy kitty `kitty_id` for at
    /// most `max_price`; if so, from whom and at what price.
    pub fn check_buy(
        &self,
        buyer: AccountId,
        kitty_id: KittyId,
        max_price: Balance,
        funds: Balance,
    ) -> (r: Result<(AccountId, Balance), Error>)
        ensures
            r == (match buy_refusal(self@, buyer, kitty_id, max_price, funds) {
                Some(e) => Err::<(AccountId, Balance), Error>(e),
                None => Ok((self@.owner[kitty_id], self@.kitties[kitty_id].price)),
            }),
    {
        let entry = match self.kitties.get(&kitty_id) {
            Some(e) => *e,
            None => {
                return Err(Error::NotFound);
            },
        };
        let price = entry.kitty.price;
        if price == 0 {
            Err(Error::NotForSale)
        } else if price > max_price {
            Err(Error::PriceTooHigh)
        } else if funds < price {
            Err(Error::InsufficientFunds)
        } else if entry.owner == buyer {
            Err(Error::SelfTransfer)
        } else {
            Ok((entry.owner, price))
        }
    }

    /// `buyer`, who holds `funds`, buys kitty `kitty_id` for at most
    /// `max_price`. On success the kitty is the buyer's and off the market,
    /// and the event names the seller and the price that the buyer owes.
    pub fn buy_kitty(
        &mut self,
        buyer: AccountId,
        kitty_id: KittyId,
        max_price: Balance,
        funds: Balance,
    ) -> (r: Result<Event, Error>)
        requires
            old(self).wf(),
        ensures
            final(self).wf(),
            (final(self)@, r) == buy_outcome(old(self)@, buyer, kitty_id, max_price, funds),
    {
        let (seller, price) = match self.check_buy(buyer, kitty_id, max_price, funds) {
            Ok(terms) => terms,
            Err(e) => {
                return Err(e);
            },
        };
        match self.transfer_from(seller, buyer, kitty_id) {
            Err(e) => Err(e),
            Ok(_) => {
                self.put_price(kitty_id, 0);
                Ok(Event::Bought(buyer, seller, kitty_id, price))
            },
        }
    }

    /// Registers a founder kitty for `who` under an identifier already drawn.
    pub fn create_with_id(&mut self, who: AccountId, id: KittyId) -> (r: Result<Event, Error>)
        requires
            old(self).wf(),
        ensures
            final(self).wf(),
            (final(self)@, r) == create_outcome(old(self)@, who, id),
    {
        if self.kitties.contains_key(&id) {
            return Err(Error::DuplicateIdentifier);
        }
        let new_kitty = Kitty { id: id, dna: id, price: 0, gen: 0 };
        match self.mint(who, id, new_kitty) {
            Ok(_) => Ok(Event::Created(who, id)),
            Err(e) => Err(e),
        }
    }

    /// `who` creates a founder kitty; `rand` is the host's randomness for this
    /// request. The counter advances even when the identifier is refused.
    pub fn create_kitty(&mut self, who: AccountId, rand: &[u8; 32]) -> (r: Result<Event, Error>)
        requires
            old(self).wf(),
        ensures
            final(self).wf(),
            (final(self)@, r) == create_kitty_outcome(old(self)@, who, rand@),
    {
        let id = self.next_id(who, rand);
        self.create_with_id(who, id)
    }

    /// Whether `who` may breed the two kitties.
    pub fn check_breed(&self, who: AccountId, kitty_id_1: KittyId, kitty_id_2: KittyId) -> (r:
        Option<Error>)
        ensures
            r == breed_refusal(self@, who, kitty_id_1, kitty_id_2),
    {
        match (self.owner_of(kitty_id_1), self.owner_of(kitty_id_2)) {
            (Some(owner_1), Some(owner_2)) => {
                if owner_1 != who && owner_2 != who {
                    Some(Error::NotOwner)
                } else if kitty_id_1 == kitty_id_2 {
                    Some(Error::SameParent)
                } else {
                    None
                }
            },
            _ => Some(Error::NotFound),
        }
    }

    /// Breeds two kitties for `who` under an identifier already drawn, which
    /// also selects the bits that each parent gives.
    pub fn breed_with_id(
        &mut self,
        who: AccountId,
        kitty_id_1: KittyId,
        kitty_id_2: KittyId,
        id: KittyId,
    ) -> (r: Result<Event, Error>)
        requires
            old(self).wf(),
        ensures
            final(self).wf(),
            (final(self)@, r) == breed_outcome(old(self)@, who, kitty_id_1, kitty_id_2, id),
            r is Ok ==> final(self)@.kitties[id].gen == child_gen(
                old(self)@.kitties[kitty_id_1].gen,
                old(self)@.kitties[kitty_id_2].gen,
            ),
    {
        match self.check_breed(who, kitty_id_1, kitty_id_2) {
            Some(e) => {
                return Err(e);
            },
            None => {},
        }
        if self.kitties.contains_key(&id) {
            return Err(Error::DuplicateIdentifier);
        }
        let (first, second) = match (self.kitties.get(&kitty_id_1), self.kitties.get(&kitty_id_2)) {
            (Some(e1), Some(e2)) => (e1.kitty, e2.kitty),
            _ => {
                return Err(Error::NotFound);
            },
        };
        proof {
            assert(self.kitties@.contains_key(kitty_id_1));
            assert(self.kitties@.contains_key(kitty_id_2));
            assert(first.gen < self.all_kitties.len());
            assert(second.gen < self.all_kitties.len());
        }
        let gen = if first.gen >= second.gen {
            first.gen + 1
        } else {
            second.gen + 1
        };
        let dna = combine_dna(first.dna, second.dna, id);
        let new_kitty = Kitty { id: id, dna: dna, price: 0, gen: gen };
        match self.mint(who, id, new_kitty) {
            Ok(_) => Ok(Event::Created(who, id)),
            Err(e) => Err(e),
        }
    }

    /// `who`, owner of at least one of two distinct kitties, breeds them;
    /// `rand` is the host's randomness for this request.
    pub fn breed_kitty(
        &mut self,
        who: AccountId,
        kitty_id_1: KittyId,
        kitty_id_2: KittyId,
        rand: &[u8; 32],
    ) -> (r: Result<Event, Error>)
        requires
            old(self).wf(),
        ensures
            final(self).wf(),
            (final(self)@, r) == breed_kitty_outcome(
                old(self)@,
                who,
                kitty_id_1,
                kitty_id_2,
                rand@,
            ),
            r matches Ok(Event::Created(_, id)) ==> final(self)@.kitties[id].gen == child_gen(
                old(self)@.kitties[kitty_id_1].gen,
                old(self)@.kitties[kitty_id_2].gen,
            ),
    {
        match self.check_breed(who, kitty_id_1, kitty_id_2) {
            Some(e) => {
                return Err(e);
            },
            None => {},
        }
        let id = self.next_id(who, rand);
        self.breed_with_id(who, kitty_id_1, kitty_id_2, id)
    }
}

/// Mixes two genetic codes bit by bit: where `selector` has a zero the bit of
/// `a` is taken, where it has a one the bit of `b`.
pub fn combine_dna(a: u128, b: u128, selector: u128) -> (dna: u128)
    ensures
        dna == mix_dna(a, b, selector),
{
    (a & !selector) | (b & selector)
}

} // verus!
