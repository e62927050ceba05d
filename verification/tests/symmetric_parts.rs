use bitcoin_hashes::hkdf::Hkdf;
use bitcoin_hashes::sha256;
use bolti::symmetric::absorb;
use bolti::symmetric::array_32;
use bolti::symmetric::array_33;
use bolti::symmetric::derive_keys;
use bolti::symmetric::encode_nonce;
use bolti::text::bool_text;
use bolti::text::hex_text;

#[test]
fn a_nonce_is_four_zeros_and_the_counter_least_byte_first() {
    assert_eq!(encode_nonce(0), [0; 12]);
    assert_eq!(encode_nonce(1), [0, 0, 0, 0, 1, 0, 0, 0, 0, 0, 0, 0]);
    assert_eq!(encode_nonce(999), [0, 0, 0, 0, 0xe7, 0x03, 0, 0, 0, 0, 0, 0]);
    assert_eq!(
        encode_nonce(0x0102030405060708),
        [0, 0, 0, 0, 8, 7, 6, 5, 4, 3, 2, 1]
    );
    assert_eq!(
        encode_nonce(u64::MAX),
        [0, 0, 0, 0, 255, 255, 255, 255, 255, 255, 255, 255]
    );
}

#[test]
fn absorbing_hashes_the_hash_followed_by_the_data() {
    let h = [0x11u8; 32];
    let mut joined = h.to_vec();
    joined.extend_from_slice(b"lightning");
    assert_eq!(absorb(&h, b"lightning"), sha256::hash(&joined).to_byte_array());
    assert_eq!(absorb(&h, b""), sha256::hash(&h).to_byte_array());
    assert_ne!(absorb(&h, b""), h);
}

#[test]
fn the_initial_chaining_key_is_the_published_one() {
    let ck = sha256::hash(b"Noise_XK_secp256k1_ChaChaPoly_SHA256").to_byte_array();
    assert_eq!(
        hex_text(&ck),
        "2640f52eebcd9e882958951c794250eedb28002c05d7dc2ea0f195406042caf1"
    );
    assert_eq!(
        hex_text(&absorb(&ck, b"lightning")),
        "d1fbf6dee4f686f132fd702c4abf8fba4bb420d89d2a048a3c4f4c092e37b676"
    );
}

#[test]
fn derived_keys_are_the_two_halves_of_the_expansion() {
    let chaining = [0x42u8; 32];
    let mut okm = [0u8; 64];
    Hkdf::<sha256::HashEngine>::new(&chaining, b"input")
        .expand(&[], &mut okm)
        .unwrap();
    let (next, key) = derive_keys(&chaining, b"input");
    assert_eq!(next[..], okm[..32]);
    assert_eq!(key[..], okm[32..]);
    assert_ne!(next, chaining);
}

#[test]
fn rotation_derives_the_published_key() {
    let chaining = hex::decode("919219dbb2920afa8db80f9a51787a840bcf111ed8d588caf9ab4be716e42b01").unwrap();
    let key = hex::decode("969ab31b4d288cedf6218839b27a3e2140827047f2c0f01bf5c04435d43511a9").unwrap();
    let (next_chaining, next_key) = derive_keys(&array_32(&chaining, 0), &key);
    assert_eq!(
        hex_text(&next_chaining),
        "cc2c6e467efc8067720c2d09c139d1f77731893aad1defa14f9bf3c48d3f1d31"
    );
    assert_eq!(
        hex_text(&next_key),
        "3fbdc101abd1132ca3a0ae34a669d8d9ba69a587e0bb4ddd59524541cf4813d8"
    );
}

#[test]
fn arrays_are_cut_from_the_given_place() {
    let bytes: Vec<u8> = (0..100).collect();
    let first = array_32(&bytes, 0);
    assert_eq!(first[..], bytes[..32]);
    let later = array_32(&bytes, 68);
    assert_eq!(later[..], bytes[68..]);
    let point = array_33(&bytes, 1);
    assert_eq!(point[..], bytes[1..34]);
}

#[test]
fn bytes_render_as_lowercase_hexadecimal() {
    assert_eq!(hex_text(&[]), "");
    assert_eq!(hex_text(&[0x00, 0x0f, 0xf0, 0xab, 0xff]), "000ff0abff");
    assert_eq!(hex_text(&[1, 2, 3, 15, 16]), "0102030f10");
}

#[test]
fn flags_render_as_words() {
    assert_eq!(bool_text(true), "true");
    assert_eq!(bool_text(false), "false");
}
