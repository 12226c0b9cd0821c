use signing_stage::ledger_info::{
    AccountAddress, HashValue, LedgerInfo, LedgerInfoWithSignatures, PartialSignature, Signature,
};
use signing_stage::signing_phase::SigningRequest;
use signing_stage::text::{append_decimal, append_hex};

fn decimal_of(n: u64) -> String {
    let mut text = String::new();
    append_decimal(&mut text, n);
    text
}

fn hex_of(bytes: &[u8]) -> String {
    let mut text = String::new();
    append_hex(&mut text, bytes);
    text
}

fn info() -> LedgerInfo {
    LedgerInfo {
        epoch: 1,
        round: 5,
        block_id: HashValue { bytes: [0xab; 32] },
        executed_state_id: HashValue { bytes: [0x01; 32] },
        timestamp_usecs: 5000,
    }
}

const INFO_TEXT: &str = "LedgerInfo(epoch: 1, round: 5, \
block: abababababababababababababababababababababababababababababababab, \
state: 0101010101010101010101010101010101010101010101010101010101010101, \
timestamp: 5000)";

#[test]
fn decimal_of_small_and_large_numbers() {
    assert_eq!(decimal_of(0), "0");
    assert_eq!(decimal_of(7), "7");
    assert_eq!(decimal_of(9), "9");
    assert_eq!(decimal_of(10), "10");
    assert_eq!(decimal_of(120), "120");
    assert_eq!(decimal_of(1_000_000), "1000000");
    assert_eq!(decimal_of(9_876_543_210), "9876543210");
    assert_eq!(decimal_of(u64::MAX), "18446744073709551615");
}

#[test]
fn decimal_agrees_with_the_standard_library() {
    let mut n: u64 = 1;
    for _ in 0..200 {
        assert_eq!(decimal_of(n), n.to_string());
        n = n.wrapping_mul(6364136223846793005).wrapping_add(1442695040888963407);
    }
}

#[test]
fn decimal_is_written_behind_what_is_there() {
    let mut text = String::from("round ");
    append_decimal(&mut text, 42);
    append_decimal(&mut text, 0);
    assert_eq!(text, "round 420");
}

#[test]
fn hex_has_two_lower_case_digits_for_each_byte() {
    assert_eq!(hex_of(&[]), "");
    assert_eq!(hex_of(&[0x00]), "00");
    assert_eq!(hex_of(&[0x0f]), "0f");
    assert_eq!(hex_of(&[0xf0]), "f0");
    assert_eq!(hex_of(&[0xff]), "ff");
    assert_eq!(hex_of(&[0x01, 0x23, 0x45, 0x67, 0x89, 0xab, 0xcd, 0xef]), "0123456789abcdef");
    let mut text = String::from("0x");
    append_hex(&mut text, &[0xde, 0xad]);
    assert_eq!(text, "0xdead");
}

#[test]
fn hex_of_every_byte() {
    for b in 0..=255u8 {
        assert_eq!(hex_of(&[b]), format!("{:02x}", b));
    }
}

#[test]
fn ledger_info_as_text() {
    assert_eq!(info().to_text(), INFO_TEXT);
    let edge = LedgerInfo {
        epoch: 0,
        round: u64::MAX,
        block_id: HashValue { bytes: [0; 32] },
        executed_state_id: HashValue { bytes: [0xff; 32] },
        timestamp_usecs: 10,
    };
    assert_eq!(
        edge.to_text(),
        format!(
            "LedgerInfo(epoch: 0, round: 18446744073709551615, block: {}, state: {}, timestamp: 10)",
            "0".repeat(64),
            "f".repeat(64)
        )
    );
}

#[test]
fn ledger_info_with_signatures_as_text() {
    let none = LedgerInfoWithSignatures { ledger_info: info(), signatures: Vec::new() };
    assert_eq!(
        none.to_text(),
        format!("LedgerInfoWithSignatures({}, signatures: 0)", INFO_TEXT)
    );
    let vote = PartialSignature {
        validator: AccountAddress { bytes: [4; 32] },
        signature: Signature { bytes: [5; 64] },
    };
    let many = LedgerInfoWithSignatures { ledger_info: info(), signatures: vec![vote; 12] };
    assert_eq!(
        many.to_text(),
        format!("LedgerInfoWithSignatures({}, signatures: 12)", INFO_TEXT)
    );
}

#[test]
fn signing_request_as_text() {
    let mut commit = info();
    commit.block_id = HashValue { bytes: [0xcd; 32] };
    let req = SigningRequest {
        ordered_ledger_info: LedgerInfoWithSignatures {
            ledger_info: info(),
            signatures: Vec::new(),
        },
        commit_ledger_info: commit,
    };
    assert_eq!(
        req.to_text(),
        format!(
            "SigningRequest(LedgerInfoWithSignatures({}, signatures: 0), {})",
            INFO_TEXT,
            INFO_TEXT.replace("ab", "cd")
        )
    );
}
