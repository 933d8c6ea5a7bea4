use proof_of_coffee::hash::generate_fake_hash;
use proof_of_coffee::hash::hash_from_nibbles;
use proof_of_coffee::hash::hex_symbol;

#[test]
fn hex_symbols_are_the_lowercase_digits() {
    assert_eq!(hex_symbol(0), "0");
    assert_eq!(hex_symbol(9), "9");
    assert_eq!(hex_symbol(10), "a");
    assert_eq!(hex_symbol(15), "f");
    let mut all = String::new();
    for nibble in 0..16u8 {
        all.push_str(hex_symbol(nibble));
    }
    assert_eq!(all, "0123456789abcdef");
}

#[test]
fn hash_spells_out_its_nibbles() {
    let counting: Vec<u8> = vec![0, 1, 2, 3, 4, 5, 6, 7, 8, 9];
    assert_eq!(hash_from_nibbles(&counting), "proof-of-coffee-0123456789");
    let letters: Vec<u8> = vec![10, 11, 12, 13, 14, 15, 0, 0, 0, 0];
    assert_eq!(hash_from_nibbles(&letters), "proof-of-coffee-abcdef0000");
}

#[test]
fn hash_of_no_nibbles_is_the_tag() {
    let none: Vec<u8> = Vec::new();
    assert_eq!(hash_from_nibbles(&none), "proof-of-coffee-");
}

#[test]
fn generated_hash_is_the_tag_and_ten_hex_digits() {
    for _ in 0..500 {
        let hash = generate_fake_hash();
        assert_eq!(hash.len(), 26);
        assert!(hash.starts_with("proof-of-coffee-"));
        let digits = &hash["proof-of-coffee-".len()..];
        assert_eq!(digits.chars().count(), 10);
        for digit in digits.chars() {
            assert!(matches!(digit, '0'..='9' | 'a'..='f'));
        }
    }
}

#[test]
fn generated_hashes_vary() {
    let first = generate_fake_hash();
    let mut differs = false;
    for _ in 0..50 {
        if generate_fake_hash() != first {
            differs = true;
        }
    }
    assert!(differs);
}
