use kitties::hashing::id_from_bytes;
use kitties::storage::{combine_dna, Module};
use kitties::types::Event;

fn payload(rand: &[u8; 32], who: u64, nonce: u64) -> Vec<u8> {
    let mut bytes = rand.to_vec();
    bytes.extend_from_slice(&who.to_le_bytes());
    bytes.push(32);
    bytes.extend_from_slice(&nonce.to_le_bytes());
    bytes
}

#[test]
fn identifier_reads_bytes_most_significant_first() {
    let mut bytes = [0u8; 16];
    assert_eq!(id_from_bytes(&bytes), 0);
    bytes[15] = 1;
    assert_eq!(id_from_bytes(&bytes), 1);
    bytes[14] = 2;
    assert_eq!(id_from_bytes(&bytes), 0x0201);
    bytes[0] = 0x80;
    assert_eq!(id_from_bytes(&bytes), (1u128 << 127) + 0x0201);
    assert_eq!(id_from_bytes(&[0xff; 16]), u128::MAX);
    let counting: [u8; 16] = [0, 1, 2, 3, 4, 5, 6, 7, 8, 9, 10, 11, 12, 13, 14, 15];
    assert_eq!(id_from_bytes(&counting), 0x000102030405060708090a0b0c0d0e0f);
    assert_eq!(id_from_bytes(&counting), u128::from_be_bytes(counting));
}

#[test]
fn requested_identifier_is_the_digest_of_the_encoded_seed() {
    let rand = [0xabu8; 32];
    let mut m = Module::with_nonce(7);
    let id = m.next_id(0x1122334455667788, &rand);
    let seed = payload(&rand, 0x1122334455667788, 7);
    assert_eq!(seed.len(), 49);
    assert_eq!(seed[32..41], [0x88, 0x77, 0x66, 0x55, 0x44, 0x33, 0x22, 0x11, 32]);
    let expected = sp_crypto_hashing::blake2_128(&seed);
    assert_eq!(id, u128::from_be_bytes(expected));
    assert_eq!(id, id_from_bytes(&expected));
    assert_ne!(id.to_be_bytes().to_vec(), seed);
    assert_eq!(m.nonce(), 8);
}

#[test]
fn digest_of_nothing_is_the_known_value() {
    let digest = sp_io::hashing::blake2_128(&[]);
    assert_eq!(digest, sp_crypto_hashing::blake2_128(&[]));
    assert_eq!(digest.len(), 16);
}

#[test]
fn created_identifier_follows_randomness_account_and_counter() {
    let mut m = Module::with_nonce(41);
    let rand = [0x5au8; 32];
    let event = m.create_kitty(9, &rand);
    let expected = u128::from_be_bytes(sp_io::hashing::blake2_128(&payload(&rand, 9, 41)));
    assert_eq!(event, Ok(Event::Created(9, expected)));
    assert_eq!(m.nonce(), 42);
    let second = m.create_kitty(9, &rand);
    let expected = u128::from_be_bytes(sp_io::hashing::blake2_128(&payload(&rand, 9, 42)));
    assert_eq!(second, Ok(Event::Created(9, expected)));
}

#[test]
fn genetic_mix_takes_each_bit_from_one_parent() {
    assert_eq!(combine_dna(0xff00, 0x00ff, 0x0f0f), 0xf00f);
    assert_eq!(combine_dna(0xff00, 0x00ff, 0), 0xff00);
    assert_eq!(combine_dna(0xff00, 0x00ff, u128::MAX), 0x00ff);
    assert_eq!(combine_dna(u128::MAX, 0, 1u128 << 127), u128::MAX >> 1);
    assert_eq!(combine_dna(12345, 12345, 0xdead_beef), 12345);
}
