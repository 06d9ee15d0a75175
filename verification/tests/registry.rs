use kitties::storage::Module;
use kitties::types::{Error, Event, Kitty};
use std::collections::HashMap;

const ALICE: u64 = 1;
const BOB: u64 = 2;
const CAROL: u64 = 3;

fn created(event: Result<Event, Error>) -> u128 {
    match event {
        Ok(Event::Created(_, id)) => id,
        other => panic!("expected a creation, got {:?}", other),
    }
}

#[test]
fn new_registry_is_empty() {
    let m = Module::new();
    assert_eq!(m.all_kitties_count(), 0);
    assert_eq!(m.owned_kitty_count(ALICE), 0);
    assert_eq!(m.kitty_by_index(0), None);
    assert_eq!(m.kitty_of_owner_by_index(ALICE, 0), None);
    assert_eq!(m.kitty(7), Err(Error::NotFound));
    assert_eq!(m.owner_of(7), None);
    assert_eq!(m.nonce(), 0);
}

#[test]
fn create_then_get_returns_founder() {
    let mut m = Module::new();
    let event = m.create_kitty(ALICE, &[9u8; 32]);
    let id = created(event);
    assert_eq!(event, Ok(Event::Created(ALICE, id)));
    let kitty = m.kitty(id).unwrap();
    assert_eq!(kitty, Kitty { id, dna: id, price: 0, gen: 0 });
    assert_eq!(m.owner_of(id), Some(ALICE));
    assert_eq!(m.all_kitties_count(), 1);
    assert_eq!(m.kitty_by_index(0), Some(id));
    assert_eq!(m.owned_kitty_count(ALICE), 1);
    assert_eq!(m.kitty_of_owner_by_index(ALICE, 0), Some(id));
    assert_eq!(m.nonce(), 1);
}

#[test]
fn total_count_counts_successful_creations_and_breedings() {
    let mut m = Module::new();
    let k1 = created(m.create_kitty(ALICE, &[1u8; 32]));
    let k2 = created(m.create_kitty(BOB, &[2u8; 32]));
    assert_eq!(m.all_kitties_count(), 2);
    assert_eq!(m.create_with_id(CAROL, k1), Err(Error::DuplicateIdentifier));
    assert_eq!(m.all_kitties_count(), 2);
    assert!(m.set_price(ALICE, k1, 5).is_ok());
    assert!(m.transfer(ALICE, CAROL, k1).is_ok());
    assert_eq!(m.transfer(ALICE, CAROL, k1), Err(Error::NotOwner));
    assert_eq!(m.all_kitties_count(), 2);
    let k3 = created(m.breed_kitty(BOB, k1, k2, &[3u8; 32]));
    assert_eq!(m.all_kitties_count(), 3);
    assert_eq!(m.breed_kitty(BOB, k3, k3, &[4u8; 32]), Err(Error::SameParent));
    assert_eq!(m.all_kitties_count(), 3);
    for i in 0..3u64 {
        let id = m.kitty_by_index(i).unwrap();
        let owner = m.owner_of(id).unwrap();
        let mut seen = 0;
        for who in [ALICE, BOB, CAROL] {
            for j in 0..m.owned_kitty_count(who) {
                if m.kitty_of_owner_by_index(who, j) == Some(id) {
                    assert_eq!(who, owner);
                    seen += 1;
                }
            }
        }
        assert_eq!(seen, 1);
    }
    assert_eq!(
        m.owned_kitty_count(ALICE) + m.owned_kitty_count(BOB) + m.owned_kitty_count(CAROL),
        3
    );
}

#[test]
fn transfer_twice_fails_the_second_time() {
    let mut m = Module::new();
    let k1 = created(m.create_kitty(ALICE, &[1u8; 32]));
    assert_eq!(m.transfer(ALICE, BOB, k1), Ok(Event::Transferred(ALICE, BOB, k1)));
    assert_eq!(m.transfer(ALICE, BOB, k1), Err(Error::NotOwner));
    assert_eq!(m.owner_of(k1), Some(BOB));
}

#[test]
fn transfer_to_self_is_refused_each_time() {
    let mut m = Module::new();
    let k1 = created(m.create_kitty(ALICE, &[1u8; 32]));
    assert_eq!(m.transfer(ALICE, ALICE, k1), Err(Error::SelfTransfer));
    assert_eq!(m.transfer(ALICE, ALICE, k1), Err(Error::SelfTransfer));
    assert_eq!(m.owner_of(k1), Some(ALICE));
    assert_eq!(m.owned_kitty_count(ALICE), 1);
}

#[test]
fn transfer_of_unknown_kitty_is_not_found() {
    let mut m = Module::new();
    assert_eq!(m.transfer(ALICE, BOB, 42), Err(Error::NotFound));
    assert_eq!(m.transfer_from(ALICE, BOB, 42), Err(Error::NotFound));
}

#[test]
fn transfer_by_stranger_changes_nothing() {
    let mut m = Module::new();
    let k1 = created(m.create_kitty(ALICE, &[1u8; 32]));
    assert_eq!(m.transfer(BOB, CAROL, k1), Err(Error::NotOwner));
    assert_eq!(m.owner_of(k1), Some(ALICE));
    assert_eq!(m.owned_kitty_count(ALICE), 1);
    assert_eq!(m.kitty_of_owner_by_index(ALICE, 0), Some(k1));
    assert_eq!(m.owned_kitty_count(BOB), 0);
    assert_eq!(m.owned_kitty_count(CAROL), 0);
    assert_eq!(m.all_kitties_count(), 1);
}

#[test]
fn transfer_fills_the_gap_with_the_last_entry() {
    let mut m = Module::new();
    assert!(m.create_with_id(ALICE, 10).is_ok());
    assert!(m.create_with_id(ALICE, 11).is_ok());
    assert!(m.create_with_id(ALICE, 12).is_ok());
    assert!(m.create_with_id(BOB, 20).is_ok());
    assert_eq!(m.transfer(ALICE, BOB, 10), Ok(Event::Transferred(ALICE, BOB, 10)));
    assert_eq!(m.owned_kitty_count(ALICE), 2);
    assert_eq!(m.kitty_of_owner_by_index(ALICE, 0), Some(12));
    assert_eq!(m.kitty_of_owner_by_index(ALICE, 1), Some(11));
    assert_eq!(m.kitty_of_owner_by_index(ALICE, 2), None);
    assert_eq!(m.owned_kitty_count(BOB), 2);
    assert_eq!(m.kitty_of_owner_by_index(BOB, 0), Some(20));
    assert_eq!(m.kitty_of_owner_by_index(BOB, 1), Some(10));
    assert_eq!(m.transfer(ALICE, BOB, 11), Ok(Event::Transferred(ALICE, BOB, 11)));
    assert_eq!(m.kitty_of_owner_by_index(ALICE, 0), Some(12));
    assert_eq!(m.owned_kitty_count(ALICE), 1);
    assert_eq!(m.transfer(ALICE, BOB, 12), Ok(Event::Transferred(ALICE, BOB, 12)));
    assert_eq!(m.owned_kitty_count(ALICE), 0);
    assert_eq!(m.owned_kitty_count(BOB), 4);
    assert_eq!(m.kitty_by_index(0), Some(10));
    assert_eq!(m.kitty_by_index(1), Some(11));
    assert_eq!(m.kitty_by_index(2), Some(12));
    assert_eq!(m.kitty_by_index(3), Some(20));
}

#[test]
fn set_price_checks_existence_and_owner() {
    let mut m = Module::new();
    assert_eq!(m.set_price(ALICE, 5, 100), Err(Error::NotFound));
    assert!(m.create_with_id(ALICE, 5).is_ok());
    assert_eq!(m.set_price(BOB, 5, 100), Err(Error::NotOwner));
    assert_eq!(m.kitty(5).unwrap().price, 0);
    assert_eq!(m.set_price(ALICE, 5, 100), Ok(Event::PriceSet(ALICE, 5, 100)));
    assert_eq!(m.kitty(5), Ok(Kitty { id: 5, dna: 5, price: 100, gen: 0 }));
    assert_eq!(m.set_price(ALICE, 5, 0), Ok(Event::PriceSet(ALICE, 5, 0)));
    assert_eq!(m.kitty(5).unwrap().price, 0);
}

#[test]
fn buy_at_the_price_ceiling() {
    let mut m = Module::new();
    assert!(m.create_with_id(ALICE, 5).is_ok());
    assert_eq!(m.buy_kitty(BOB, 5, 1000, 1000), Err(Error::NotForSale));
    assert_eq!(m.buy_kitty(BOB, 5, 0, 0), Err(Error::NotForSale));
    assert!(m.set_price(ALICE, 5, 100).is_ok());
    assert_eq!(m.buy_kitty(BOB, 5, 99, 1000), Err(Error::PriceTooHigh));
    assert_eq!(m.owner_of(5), Some(ALICE));
    assert_eq!(m.kitty(5).unwrap().price, 100);
    assert_eq!(m.buy_kitty(BOB, 5, 100, 1000), Ok(Event::Bought(BOB, ALICE, 5, 100)));
    assert_eq!(m.owner_of(5), Some(BOB));
}

#[test]
fn buy_refusals() {
    let mut m = Module::new();
    assert_eq!(m.buy_kitty(BOB, 5, 100, 100), Err(Error::NotFound));
    assert!(m.create_with_id(ALICE, 5).is_ok());
    assert!(m.set_price(ALICE, 5, 100).is_ok());
    assert_eq!(m.buy_kitty(BOB, 5, 100, 99), Err(Error::InsufficientFunds));
    assert_eq!(m.buy_kitty(ALICE, 5, 100, 100), Err(Error::SelfTransfer));
    assert_eq!(m.buy_kitty(BOB, 5, 99, 10), Err(Error::PriceTooHigh));
    assert_eq!(m.owner_of(5), Some(ALICE));
    assert_eq!(m.kitty(5).unwrap().price, 100);
    assert_eq!(m.buy_kitty(BOB, 5, 100, 100), Ok(Event::Bought(BOB, ALICE, 5, 100)));
}

#[test]
fn price_then_purchase_moves_kitty_and_money() {
    let mut balances: HashMap<u64, u128> = HashMap::new();
    balances.insert(ALICE, 50);
    balances.insert(BOB, 250);
    let mut m = Module::new();
    let k1 = created(m.create_kitty(ALICE, &[5u8; 32]));
    let kitty = m.kitty(k1).unwrap();
    assert_eq!((kitty.gen, kitty.price), (0, 0));
    assert_eq!(m.set_price(ALICE, k1, 100), Ok(Event::PriceSet(ALICE, k1, 100)));
    assert_eq!(m.kitty(k1).unwrap().price, 100);
    let event = m.buy_kitty(BOB, k1, 100, balances[&BOB]);
    assert_eq!(event, Ok(Event::Bought(BOB, ALICE, k1, 100)));
    if let Ok(Event::Bought(buyer, seller, _, price)) = event {
        *balances.get_mut(&buyer).unwrap() -= price;
        *balances.get_mut(&seller).unwrap() += price;
    }
    assert_eq!(balances[&BOB], 150);
    assert_eq!(balances[&ALICE], 150);
    assert_eq!(m.kitty(k1).unwrap().price, 0);
    assert_eq!(m.owner_of(k1), Some(BOB));
    assert_eq!(m.owned_kitty_count(ALICE), 0);
    assert_eq!(m.kitty_of_owner_by_index(BOB, 0), Some(k1));
    assert_eq!(m.buy_kitty(CAROL, k1, 100, 100), Err(Error::NotForSale));
}

#[test]
fn breeding_two_own_kitties() {
    let mut differing = 0;
    for trial in 0..32u8 {
        let mut m = Module::new();
        let k1 = created(m.create_kitty(ALICE, &[trial; 32]));
        let k2 = created(m.create_kitty(ALICE, &[trial.wrapping_add(100); 32]));
        assert_ne!(k1, k2);
        let k3 = created(m.breed_kitty(ALICE, k1, k2, &[trial.wrapping_add(200); 32]));
        let child = m.kitty(k3).unwrap();
        assert_eq!(child.id, k3);
        assert_eq!(child.gen, 1);
        assert_eq!(child.price, 0);
        assert_eq!(m.owner_of(k3), Some(ALICE));
        assert_eq!(m.owned_kitty_count(ALICE), 3);
        assert_eq!(m.kitty_of_owner_by_index(ALICE, 2), Some(k3));
        let d1 = m.kitty(k1).unwrap().dna;
        let d2 = m.kitty(k2).unwrap().dna;
        assert_eq!(child.dna, (d1 & !k3) | (d2 & k3));
        if child.dna != d1 && child.dna != d2 {
            differing += 1;
        }
    }
    assert_eq!(differing, 32);
}

#[test]
fn breeding_depth_is_one_more_than_the_deeper_parent() {
    let mut m = Module::new();
    assert!(m.create_with_id(ALICE, 1).is_ok());
    assert!(m.create_with_id(BOB, 2).is_ok());
    assert_eq!(m.breed_with_id(ALICE, 1, 2, 3), Ok(Event::Created(ALICE, 3)));
    assert_eq!(m.kitty(3).unwrap().gen, 1);
    assert_eq!(m.breed_with_id(BOB, 3, 2, 4), Ok(Event::Created(BOB, 4)));
    assert_eq!(m.kitty(4).unwrap().gen, 2);
    assert_eq!(m.breed_with_id(BOB, 2, 4, 5), Ok(Event::Created(BOB, 5)));
    assert_eq!(m.kitty(5).unwrap().gen, 3);
    assert_eq!(m.breed_with_id(ALICE, 1, 3, 6), Ok(Event::Created(ALICE, 6)));
    assert_eq!(m.kitty(6), Ok(Kitty { id: 6, dna: (1 & !6) | (3 & 6), price: 0, gen: 2 }));
    assert_eq!(m.owner_of(6), Some(ALICE));
}

#[test]
fn breeding_refusals() {
    let mut m = Module::new();
    assert!(m.create_with_id(ALICE, 1).is_ok());
    assert!(m.create_with_id(BOB, 2).is_ok());
    assert_eq!(m.breed_with_id(ALICE, 1, 9, 3), Err(Error::NotFound));
    assert_eq!(m.breed_with_id(ALICE, 9, 1, 3), Err(Error::NotFound));
    assert_eq!(m.breed_with_id(CAROL, 1, 2, 3), Err(Error::NotOwner));
    assert_eq!(m.breed_with_id(CAROL, 1, 1, 3), Err(Error::NotOwner));
    assert_eq!(m.breed_with_id(ALICE, 1, 1, 3), Err(Error::SameParent));
    assert_eq!(m.breed_with_id(ALICE, 1, 2, 2), Err(Error::DuplicateIdentifier));
    assert_eq!(m.check_breed(ALICE, 1, 2), None);
    assert_eq!(m.check_breed(BOB, 1, 2), None);
    assert_eq!(m.check_breed(CAROL, 1, 2), Some(Error::NotOwner));
    assert_eq!(m.all_kitties_count(), 2);
    let nonce = m.nonce();
    assert_eq!(m.breed_kitty(CAROL, 1, 2, &[0u8; 32]), Err(Error::NotOwner));
    assert_eq!(m.breed_kitty(ALICE, 1, 1, &[0u8; 32]), Err(Error::SameParent));
    assert_eq!(m.breed_kitty(ALICE, 1, 7, &[0u8; 32]), Err(Error::NotFound));
    assert_eq!(m.nonce(), nonce);
    assert!(m.breed_kitty(ALICE, 1, 2, &[0u8; 32]).is_ok());
    assert_eq!(m.nonce(), nonce + 1);
}

#[test]
fn mint_refuses_a_taken_identifier() {
    let mut m = Module::new();
    let kitty = Kitty { id: 8u128, dna: 77u128, price: 3u128, gen: 0 };
    assert_eq!(m.mint(ALICE, 8, kitty), Ok(()));
    assert_eq!(m.kitty(8), Ok(kitty));
    assert_eq!(m.owner_of(8), Some(ALICE));
    let other = Kitty { id: 8u128, dna: 1u128, price: 0u128, gen: 1 };
    assert_eq!(m.mint(BOB, 8, other), Err(Error::AlreadyExists));
    assert_eq!(m.kitty(8), Ok(kitty));
    assert_eq!(m.owner_of(8), Some(ALICE));
    assert_eq!(m.all_kitties_count(), 1);
    assert_eq!(m.owned_kitty_count(BOB), 0);
}

#[test]
fn duplicate_identifier_is_refused() {
    let mut m = Module::new();
    assert_eq!(m.create_with_id(ALICE, 8), Ok(Event::Created(ALICE, 8)));
    assert_eq!(m.create_with_id(BOB, 8), Err(Error::DuplicateIdentifier));
    assert_eq!(m.owner_of(8), Some(ALICE));
    assert_eq!(m.all_kitties_count(), 1);
}

#[test]
fn repeated_request_draws_the_same_identifier_only_with_the_same_counter() {
    let mut a = Module::new();
    let mut b = Module::new();
    let ia = a.next_id(ALICE, &[3u8; 32]);
    let ib = b.next_id(ALICE, &[3u8; 32]);
    assert_eq!(ia, ib);
    let ia2 = a.next_id(ALICE, &[3u8; 32]);
    assert_ne!(ia, ia2);
    assert_eq!(a.nonce(), 2);
    let mut c = Module::with_nonce(1);
    assert_eq!(c.next_id(ALICE, &[3u8; 32]), ia2);
    assert_ne!(b.next_id(BOB, &[3u8; 32]), ia2);
}

#[test]
fn counter_wraps_at_the_top() {
    let mut m = Module::with_nonce(u64::MAX);
    assert_eq!(m.nonce(), u64::MAX);
    assert_eq!(m.get_nonce(), vec![0xffu8; 8]);
    assert_eq!(m.nonce(), 0);
    assert_eq!(m.get_nonce(), vec![0u8; 8]);
    assert_eq!(m.nonce(), 1);
    assert_eq!(m.get_nonce(), vec![1u8, 0, 0, 0, 0, 0, 0, 0]);
    let mut n = Module::with_nonce(0x0102030405060708);
    assert_eq!(n.get_nonce(), vec![8u8, 7, 6, 5, 4, 3, 2, 1]);
}

#[test]
fn check_buy_names_seller_and_price() {
    let mut m = Module::new();
    assert_eq!(m.check_buy(BOB, 5, 100, 100), Err(Error::NotFound));
    assert!(m.create_with_id(ALICE, 5).is_ok());
    assert_eq!(m.check_buy(BOB, 5, 100, 100), Err(Error::NotForSale));
    assert!(m.set_price(ALICE, 5, 70).is_ok());
    assert_eq!(m.check_buy(BOB, 5, 69, 100), Err(Error::PriceTooHigh));
    assert_eq!(m.check_buy(BOB, 5, 70, 69), Err(Error::InsufficientFunds));
    assert_eq!(m.check_buy(ALICE, 5, 70, 70), Err(Error::SelfTransfer));
    assert_eq!(m.check_buy(BOB, 5, 70, 70), Ok((ALICE, 70)));
    assert_eq!(m.owner_of(5), Some(ALICE));
}
