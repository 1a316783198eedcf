use sha2::{Digest, Sha256};
use yuki_ledger::block::{Block, Transaction};
use yuki_ledger::encode::{bytes_to_hex, i64_to_dec, u64_to_dec};

#[test]
fn decimal_of_unsigned() {
    assert_eq!(u64_to_dec(0), "0");
    assert_eq!(u64_to_dec(7), "7");
    assert_eq!(u64_to_dec(12345), "12345");
    assert_eq!(u64_to_dec(u64::MAX), "18446744073709551615");
}

#[test]
fn decimal_of_signed() {
    assert_eq!(i64_to_dec(0), "0");
    assert_eq!(i64_to_dec(42), "42");
    assert_eq!(i64_to_dec(-42), "-42");
    assert_eq!(i64_to_dec(i64::MIN), "-9223372036854775808");
    assert_eq!(i64_to_dec(i64::MAX), "9223372036854775807");
}

#[test]
fn hex_of_bytes() {
    assert_eq!(bytes_to_hex(&vec![]), "");
    assert_eq!(bytes_to_hex(&vec![0x00, 0xff, 0x1a]), "00ff1a");
}

fn sha256_hex_of(input: &str) -> String {
    let mut hasher = Sha256::new();
    hasher.update(input.as_bytes());
    let mut out = String::new();
    for byte in hasher.finalize().as_slice() {
        out.push_str(&format!("{:02x}", byte));
    }
    out
}

#[test]
fn block_hash_of_empty_transactions() {
    // canonical input: index, timestamp, transaction list text, previous hash
    let expected = sha256_hex_of("7-3abc");
    let got = Block::calculate_hash(7, -3, &vec![], "abc");
    assert_eq!(got, expected);
    assert_eq!(got.len(), 64);
}

#[test]
fn block_hash_of_one_transaction() {
    let tx = Transaction {
        sender: "System".to_string(),
        receiver: "alice".to_string(),
        amount: 10,
        task: "t1".to_string(),
        proof_metadata: "m1".to_string(),
        verified: true,
    };
    let expected = sha256_hex_of("1217System|alice|10|t1|m1|true;prev");
    let got = Block::calculate_hash(12, 17, &vec![tx], "prev");
    assert_eq!(got, expected);
}

#[test]
fn block_hash_is_deterministic() {
    let a = Block::calculate_hash(1, 5, &vec![], "x");
    let b = Block::calculate_hash(1, 5, &vec![], "x");
    assert_eq!(a, b);
    let c = Block::calculate_hash(2, 5, &vec![], "x");
    assert_ne!(a, c);
}
