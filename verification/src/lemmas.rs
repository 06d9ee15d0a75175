//! Laws of the registry, stated over its model and proved.

use crate::hashing::fresh_id;
use crate::model::{
    breed_kitty_outcome, breed_outcome, breed_refusal, bump, buy_outcome, buy_refusal, child_gen,
    create_kitty_outcome, empty_state, founder, mix_dna, offspring, set_price_outcome,
    swap_remove, transfer_outcome, transfer_refusal, valid, with_kitty, with_owner, with_price,
    State,
};
use crate::types::{AccountId, Asset, Balance, Error, Event, KittyId};
use vstd::prelude::*;

verus! {

/// One request to the registry, with what the host supplies for it.
pub enum Op {
    Create { who: AccountId, rand: Seq<u8> },
    SetPrice { who: AccountId, id: KittyId, price: Balance },
    Transfer { who: AccountId, to: AccountId, id: KittyId },
    Buy { buyer: AccountId, id: KittyId, max_price: Balance, funds: Balance },
    Breed { who: AccountId, id1: KittyId, id2: KittyId, rand: Seq<u8> },
}

/// What one request does to the registry and what it answers.
pub open spec fn apply(s: State, op: Op) -> (State, Result<Event, Error>) {
    match op {
        Op::Create { who, rand } => create_kitty_outcome(s, who, rand),
        Op::SetPrice { who, id, price } => set_price_outcome(s, who, id, price),
        Op::Transfer { who, to, id } => transfer_outcome(s, who, to, id),
        Op::Buy { buyer, id, max_price, funds } => buy_outcome(s, buyer, id, max_price, funds),
        Op::Breed { who, id1, id2, rand } => breed_kitty_outcome(s, who, id1, id2, rand),
    }
}

/// The registry after a sequence of requests.
pub open spec fn run(s: State, ops: Seq<Op>) -> State
    decreases ops.len(),
{
    if ops.len() == 0 {
        s
    } else {
        apply(run(s, ops.drop_last()), ops.last()).0
    }
}

/// Whether a request asks for a new kitty.
pub open spec fn is_birth(op: Op) -> bool {
    op is Create || op is Breed
}

/// How many requests of a sequence asked for a new kitty and succeeded.
pub open spec fn births(s: State, ops: Seq<Op>) -> nat
    decreases ops.len(),
{
    if ops.len() == 0 {
        0
    } else {
        let before = births(s, ops.drop_last());
        if is_birth(ops.last()) && apply(run(s, ops.drop_last()), ops.last()).1 is Ok {
            before + 1
        } else {
            before
        }
    }
}

/// After any sequence of requests the global list has grown by exactly the
/// number of successful creations and breedings, and what was listed before
/// still stands first, in the same order.
pub proof fn lemma_total_count(s: State, ops: Seq<Op>)
    ensures
        run(s, ops).all.len() == s.all.len() + births(s, ops),
        s.all.is_prefix_of(run(s, ops).all),
    decreases ops.len(),
{
    if ops.len() > 0 {
        lemma_total_count(s, ops.drop_last());
    }
}

/// Starting from nothing, the total count is the number of successful
/// creations and breedings.
pub proof fn lemma_total_count_from_empty(ops: Seq<Op>)
    ensures
        run(empty_state(), ops).all.len() == births(empty_state(), ops),
{
    lemma_total_count(empty_state(), ops);
}

/// In a valid registry every listed identifier has an owner, stands in that
/// owner's roster and in no other, and stands there once.
pub proof fn lemma_one_owner(s: State, i: int)
    requires
        valid(s),
        0 <= i < s.all.len(),
    ensures
        s.owner.contains_key(s.all[i]),
        s.kitties.contains_key(s.all[i]),
        forall|a: AccountId| #[trigger] s.owned[a].contains(s.all[i]) <==> a == s.owner[s.all[i]],
        forall|a: AccountId, j: int, k: int|
            0 <= j < s.owned[a].len() && 0 <= k < s.owned[a].len() && #[trigger] s.owned[a][j]
                == s.all[i] && #[trigger] s.owned[a][k] == s.all[i] ==> j == k,
{
    assert(s.all.contains(s.all[i]));
    assert(s.kitties.dom().contains(s.all[i]));
}

/// A kitty just created can be read back: it belongs to its creator, is a
/// founder of generation zero and is not for sale.
pub proof fn lemma_create_then_get(s: State, who: AccountId, rand: Seq<u8>)
    ensures
        ({
            let (after, answer) = create_kitty_outcome(s, who, rand);
            answer is Ok ==> {
                &&& answer matches Ok(Event::Created(owner, id)) && owner == who
                    && after.kitties.contains_key(id) && after.kitties[id].id == id
                    && after.kitties[id].gen == 0 && after.kitties[id].price == 0
                    && after.owner[id] == who
            }
        }),
{
}

/// A transfer that succeeded cannot be repeated: the second attempt is
/// refused because the sender no longer owns the kitty, and changes nothing.
pub proof fn lemma_transfer_twice(s: State, from: AccountId, to: AccountId, id: KittyId)
    requires
        transfer_outcome(s, from, to, id).1 is Ok,
    ensures
        ({
            let after = transfer_outcome(s, from, to, id).0;
            transfer_outcome(after, from, to, id) == (after, Err::<Event, Error>(Error::NotOwner))
        }),
{
}

/// A transfer of one's own kitty to oneself is refused, however often it is
/// asked for.
pub proof fn lemma_self_transfer(s: State, who: AccountId, id: KittyId)
    requires
        s.kitties.contains_key(id),
        s.owner[id] == who,
    ensures
        transfer_outcome(s, who, who, id) == (s, Err::<Event, Error>(Error::SelfTransfer)),
{
}

/// The price ceiling is inclusive: a buyer who has the funds and is not the
/// owner gets a kitty that is for sale at exactly the ceiling.
pub proof fn lemma_buy_at_ceiling(s: State, buyer: AccountId, id: KittyId, funds: Balance)
    requires
        s.kitties.contains_key(id),
        s.kitties[id].price > 0,
        funds >= s.kitties[id].price,
        s.owner[id] != buyer,
    ensures
        buy_outcome(s, buyer, id, s.kitties[id].price, funds).1 == Ok::<Event, Error>(
            Event::Bought(buyer, s.owner[id], id, s.kitties[id].price),
        ),
{
}

/// One unit below the price every buyer is refused, and nothing changes.
pub proof fn lemma_buy_below_ceiling(s: State, buyer: AccountId, id: KittyId, funds: Balance)
    requires
        s.kitties.contains_key(id),
        s.kitties[id].price > 0,
    ensures
        buy_outcome(s, buyer, id, (s.kitties[id].price - 1) as Balance, funds) == (
            s,
            Err::<Event, Error>(Error::PriceTooHigh),
        ),
{
}

/// A kitty with price zero is never sold, whatever the ceiling and the funds.
pub proof fn lemma_not_for_sale(
    s: State,
    buyer: AccountId,
    id: KittyId,
    max_price: Balance,
    funds: Balance,
)
    requires
        s.kitties.contains_key(id),
        s.kitties[id].price == 0,
    ensures
        buy_outcome(s, buyer, id, max_price, funds) == (
            s,
            Err::<Event, Error>(Error::NotForSale),
        ),
{
}

/// A purchase hands the kitty to the buyer and takes it off the market.
pub proof fn lemma_buy_resets_price(
    s: State,
    buyer: AccountId,
    id: KittyId,
    max_price: Balance,
    funds: Balance,
)
    requires
        buy_outcome(s, buyer, id, max_price, funds).1 is Ok,
    ensures
        ({
            let after = buy_outcome(s, buyer, id, max_price, funds).0;
            &&& after.owner[id] == buyer
            &&& after.kitties[id].price == 0
            &&& after.kitties[id].id == s.kitties[id].id
            &&& after.kitties[id].dna == s.kitties[id].dna
            &&& after.kitties[id].gen == s.kitties[id].gen
            &&& after.all == s.all
        }),
{
}

/// An owner who names a price above zero can then sell: a buyer other than
/// the owner, with a ceiling and funds of at least that price, gets the kitty
/// at that price, and the kitty is off the market afterwards.
pub proof fn lemma_price_then_buy(
    s: State,
    seller: AccountId,
    buyer: AccountId,
    id: KittyId,
    price: Balance,
    max_price: Balance,
    funds: Balance,
)
    requires
        s.kitties.contains_key(id),
        s.owner[id] == seller,
        buyer != seller,
        0 < price <= max_price,
        price <= funds,
    ensures
        ({
            let (priced, first) = set_price_outcome(s, seller, id, price);
            let (sold, second) = buy_outcome(priced, buyer, id, max_price, funds);
            &&& first == Ok::<Event, Error>(Event::PriceSet(seller, id, price))
            &&& priced.kitties[id].price == price
            &&& second == Ok::<Event, Error>(Event::Bought(buyer, seller, id, price))
            &&& sold.owner[id] == buyer
            &&& sold.kitties[id].price == 0
        }),
{
}

/// A breeding that is granted registers one new kitty for the breeder: one
/// generation below the deeper parent, not for sale, its genetic code mixed
/// from the parents' codes, and the parents stay as they were. The registry
/// is one that a machine can hold: its list is no longer than `u64::MAX`.
pub proof fn lemma_breed_child(
    s: State,
    who: AccountId,
    id1: KittyId,
    id2: KittyId,
    id: KittyId,
)
    requires
        valid(s),
        s.all.len() <= u64::MAX,
        breed_outcome(s, who, id1, id2, id).1 is Ok,
    ensures
        ({
            let (after, answer) = breed_outcome(s, who, id1, id2, id);
            let child = after.kitties[id];
            &&& answer == Ok::<Event, Error>(Event::Created(who, id))
            &&& id != id1 && id != id2 && id1 != id2
            &&& after.owner[id] == who
            &&& child.id == id
            &&& child.price == 0
            &&& child.gen == child_gen(s.kitties[id1].gen, s.kitties[id2].gen)
            &&& child.gen > s.kitties[id1].gen && child.gen > s.kitties[id2].gen
            &&& child.dna == mix_dna(s.kitties[id1].dna, s.kitties[id2].dna, id)
            &&& after.kitties[id1] == s.kitties[id1]
            &&& after.kitties[id2] == s.kitties[id2]
            &&& after.all == s.all.push(id)
        }),
{
    assert(s.kitties.dom().contains(id1));
    assert(s.kitties.dom().contains(id2));
    assert(s.all.contains(id1));
    assert(s.all.contains(id2));
    assert(s.all[s.all.index_of(id1)] == id1);
    assert(s.all[s.all.index_of(id2)] == id2);
}

/// A request that is refused leaves the registry as it was, but for the
/// counter, which a creation advances before its identifier is refused.
pub proof fn lemma_refusal_changes_nothing(s: State, op: Op)
    requires
        apply(s, op).1 is Err,
    ensures
        ({
            let after = apply(s, op).0;
            &&& after.kitties == s.kitties
            &&& after.owner == s.owner
            &&& after.all == s.all
            &&& after.owned == s.owned
            &&& !(op is Create || op is Breed) ==> after == s
        }),
{
}

/// Appending an identifier that a duplicate-free list lacks keeps the list
/// duplicate-free, adds that identifier and nothing else, and moves nothing.
pub proof fn lemma_push_fresh(r: Seq<KittyId>, x: KittyId)
    requires
        r.no_duplicates(),
        !r.contains(x),
    ensures
        r.push(x).no_duplicates(),
        forall|y: KittyId| #[trigger] r.push(x).contains(y) <==> (r.contains(y) || y == x),
        r.push(x).index_of(x) == r.len(),
        forall|y: KittyId| r.contains(y) ==> #[trigger] r.push(x).index_of(y) == r.index_of(y),
{
    let q = r.push(x);
    assert forall|i: int, j: int| 0 <= i < q.len() && 0 <= j < q.len() && i != j implies q[i]
        != q[j] by {
        if i < r.len() {
            assert(r.contains(r[i]));
        }
        if j < r.len() {
            assert(r.contains(r[j]));
        }
    }
    assert forall|y: KittyId| #[trigger] q.contains(y) <==> (r.contains(y) || y == x) by {
        if r.contains(y) {
            let i = r.index_of(y);
            assert(q[i] == y);
        }
        if y == x {
            assert(q[r.len() as int] == x);
        }
        if q.contains(y) {
            let i = q.index_of(y);
            if i < r.len() {
                assert(r[i] == y);
            }
        }
    }
    assert(q[r.len() as int] == x);
    assert(q.contains(x));
    assert(q[q.index_of(x)] == x);
    assert forall|y: KittyId| r.contains(y) implies #[trigger] q.index_of(y) == r.index_of(
        y,
    ) by {
        let i = r.index_of(y);
        assert(q[i] == y);
        assert(q.contains(y));
        assert(q[q.index_of(y)] == y);
    }
}

/// Taking an identifier out of a duplicate-free roster, the last entry
/// filling the gap, removes that identifier and nothing else.
pub proof fn lemma_swap_remove(r: Seq<KittyId>, x: KittyId)
    requires
        r.no_duplicates(),
        r.contains(x),
    ensures
        swap_remove(r, r.index_of(x)).no_duplicates(),
        swap_remove(r, r.index_of(x)).len() + 1 == r.len(),
        forall|y: KittyId| #[trigger]
            swap_remove(r, r.index_of(x)).contains(y) <==> (r.contains(y) && y != x),
{
    let p = r.index_of(x);
    let q = swap_remove(r, p);
    let last = r.len() - 1;
    assert(r[p] == x);
    assert forall|i: int| 0 <= i < q.len() implies q[i] == r[if i == p {
        last
    } else {
        i
    }] by {}
    assert forall|i: int, j: int| 0 <= i < q.len() && 0 <= j < q.len() && i != j implies q[i]
        != q[j] by {
        let ri = if i == p { last } else { i };
        let rj = if j == p { last } else { j };
        assert(q[i] == r[ri] && q[j] == r[rj]);
    }
    assert forall|y: KittyId| #[trigger] q.contains(y) <==> (r.contains(y) && y != x) by {
        if q.contains(y) {
            let i = q.index_of(y);
            let ri = if i == p { last } else { i };
            assert(r[ri] == y);
        }
        if r.contains(y) && y != x {
            let k = r.index_of(y);
            assert(r[k] == y);
            if k == last {
                assert(q[p] == y);
            } else {
                assert(q[k] == y);
            }
        }
    }
}

/// Registering a kitty under an unused identifier keeps the registry valid.
pub proof fn lemma_with_kitty_valid(s: State, to: AccountId, k: Asset)
    requires
        valid(s),
        !s.kitties.contains_key(k.id),
        k.gen <= s.all.len(),
    ensures
        valid(with_kitty(s, to, k)),
{
    let t = with_kitty(s, to, k);
    assert(!s.owner.dom().contains(k.id));
    assert(!s.owner.contains_key(k.id));
    assert(!s.all.contains(k.id));
    assert(!s.owned[to].contains(k.id));
    lemma_push_fresh(s.all, k.id);
    lemma_push_fresh(s.owned[to], k.id);
    assert(t.kitties.dom() =~= t.owner.dom());
    assert forall|id: KittyId| #[trigger] t.kitties.contains_key(id) implies t.kitties[id].id == id
        && t.kitties[id].gen <= t.all.index_of(id) by {
        if id != k.id {
            assert(s.kitties.contains_key(id));
            assert(s.owner.dom().contains(id));
            assert(s.owner.contains_key(id));
            assert(s.all.contains(id));
        }
    }
    assert forall|a: AccountId| (#[trigger] t.owned[a]).no_duplicates() by {
        if a != to {
            assert(t.owned[a] == s.owned[a]);
        }
    }
    assert forall|a: AccountId, id: KittyId| #[trigger]
        t.owned[a].contains(id) <==> t.owner.contains_key(id) && t.owner[id] == a by {
        if a != to {
            assert(t.owned[a] == s.owned[a]);
            assert(s.owned[a].contains(id) <==> s.owner.contains_key(id) && s.owner[id] == a);
        } else {
            assert(s.owned[to].contains(id) <==> s.owner.contains_key(id) && s.owner[id] == to);
        }
    }
}

/// Handing a kitty from its owner to another account keeps the registry valid.
pub proof fn lemma_with_owner_valid(s: State, from: AccountId, to: AccountId, id: KittyId)
    requires
        valid(s),
        s.owner.contains_key(id),
        s.owner[id] == from,
        from != to,
    ensures
        valid(with_owner(s, from, to, id)),
{
    let t = with_owner(s, from, to, id);
    assert(s.owned[from].contains(id));
    assert(!s.owned[to].contains(id));
    lemma_swap_remove(s.owned[from], id);
    lemma_push_fresh(s.owned[to], id);
    assert(s.owner.dom().contains(id));
    assert(t.kitties.dom() =~= t.owner.dom());
    assert forall|x: KittyId| #[trigger] t.owner.contains_key(x) <==> t.all.contains(x) by {
        assert(s.owner.contains_key(x) <==> s.all.contains(x));
        assert(s.all.contains(id));
    }
    assert forall|a: AccountId| (#[trigger] t.owned[a]).no_duplicates() by {
        if a != to && a != from {
            assert(t.owned[a] == s.owned[a]);
        }
    }
    assert forall|a: AccountId, x: KittyId| #[trigger]
        t.owned[a].contains(x) <==> t.owner.contains_key(x) && t.owner[x] == a by {
        assert(s.owned[a].contains(x) <==> s.owner.contains_key(x) && s.owner[x] == a);
        if a != to && a != from {
            assert(t.owned[a] == s.owned[a]);
        }
    }
}

/// A new price keeps the registry valid.
pub proof fn lemma_with_price_valid(s: State, id: KittyId, price: Balance)
    requires
        valid(s),
        s.kitties.contains_key(id),
    ensures
        valid(with_price(s, id, price)),
{
    let t = with_price(s, id, price);
    assert(t.kitties.dom() =~= s.kitties.dom());
    assert forall|x: KittyId| #[trigger] t.kitties.contains_key(x) implies t.kitties[x].id == x
        && t.kitties[x].gen <= t.all.index_of(x) by {
        assert(s.kitties.contains_key(x));
    }
}

/// Every request, granted or refused, turns a valid registry into a valid one.
pub proof fn lemma_apply_valid(s: State, op: Op)
    requires
        valid(s),
    ensures
        valid(apply(s, op).0),
{
    match op {
        Op::Create { who, rand } => {
            let id = fresh_id(rand, who, s.nonce);
            if !s.kitties.contains_key(id) {
                lemma_with_kitty_valid(bump(s), who, founder(id));
            }
        },
        Op::SetPrice { who, id, price } => {
            if s.kitties.contains_key(id) {
                lemma_with_price_valid(s, id, price);
            }
        },
        Op::Transfer { who, to, id } => {
            if transfer_refusal(s, who, to, id) is None {
                assert(s.kitties.dom().contains(id));
                lemma_with_owner_valid(s, who, to, id);
            }
        },
        Op::Buy { buyer, id, max_price, funds } => {
            if buy_refusal(s, buyer, id, max_price, funds) is None {
                assert(s.kitties.dom().contains(id));
                lemma_with_owner_valid(s, s.owner[id], buyer, id);
                lemma_with_price_valid(with_owner(s, s.owner[id], buyer, id), id, 0);
            }
        },
        Op::Breed { who, id1, id2, rand } => {
            let id = fresh_id(rand, who, s.nonce);
            if breed_refusal(s, who, id1, id2) is None && !s.kitties.contains_key(id) {
                let b = bump(s);
                let child = offspring(b, id1, id2, id);
                assert(s.kitties.dom().contains(id1));
                assert(s.kitties.dom().contains(id2));
                assert(s.all.contains(id1));
                assert(s.all.contains(id2));
                assert(s.all[s.all.index_of(id1)] == id1);
                assert(s.all[s.all.index_of(id2)] == id2);
                assert(child.gen <= s.all.len());
                lemma_with_kitty_valid(b, who, child);
            }
        },
    }
}

/// Whatever is asked of a registry that started empty, every listed kitty
/// has exactly one owner and one place in that owner's roster.
pub proof fn lemma_run_valid(ops: Seq<Op>)
    ensures
        valid(run(empty_state(), ops)),
    decreases ops.len(),
{
    if ops.len() > 0 {
        lemma_run_valid(ops.drop_last());
        lemma_apply_valid(run(empty_state(), ops.drop_last()), ops.last());
    }
}

/// Every bit of a mixed genetic code is the bit of one parent at that
/// place: of the second where the selector has a one, else of the first.
pub proof fn lemma_mix_dna_bits(a: u128, b: u128, selector: u128, i: u128)
    requires
        i < 128,
    ensures
        (mix_dna(a, b, selector) >> i) & 1 == (if (selector >> i) & 1 == 1 {
            (b >> i) & 1
        } else {
            (a >> i) & 1
        }),
{
    assert(((((a & !selector) | (b & selector)) >> i) & 1) == (if (selector >> i) & 1 == 1 {
        (b >> i) & 1
    } else {
        (a >> i) & 1
    })) by (bit_vector)
        requires
            i < 128,
    ;
}

/// Parents with the same genetic code pass it on unchanged.
pub proof fn lemma_mix_dna_same(a: u128, selector: u128)
    ensures
        mix_dna(a, a, selector) == a,
{
    assert((a & !selector) | (a & selector) == a) by (bit_vector);
}

} // verus!
