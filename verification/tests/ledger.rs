use signing_stage::ledger_info::{
    AccountAddress, HashValue, LedgerInfo, LedgerInfoWithSignatures, PartialSignature, Signature,
};

fn info(round: u64) -> LedgerInfo {
    LedgerInfo {
        epoch: 3,
        round,
        block_id: HashValue { bytes: [0x10; 32] },
        executed_state_id: HashValue { bytes: [0x20; 32] },
        timestamp_usecs: 77,
    }
}

fn vote(who: u8) -> PartialSignature {
    PartialSignature {
        validator: AccountAddress { bytes: [who; 32] },
        signature: Signature { bytes: [who.wrapping_mul(3); 64] },
    }
}

#[test]
fn a_clone_holds_the_same_ledger_info_and_votes() {
    let source =
        LedgerInfoWithSignatures { ledger_info: info(9), signatures: vec![vote(1), vote(2)] };
    let mut copy = source.clone();
    assert_eq!(copy, source);
    assert_eq!(copy.ledger_info, info(9));
    assert_eq!(copy.signatures, vec![vote(1), vote(2)]);
    copy.signatures.push(vote(3));
    assert_eq!(source.signatures.len(), 2);
    assert_ne!(copy, source);
}

#[test]
fn a_clone_without_votes_has_none() {
    let source = LedgerInfoWithSignatures { ledger_info: info(1), signatures: Vec::new() };
    let copy = source.clone();
    assert_eq!(copy.ledger_info, info(1));
    assert!(copy.signatures.is_empty());
}

#[test]
fn ledger_infos_differ_when_a_field_differs() {
    assert_eq!(info(4), info(4));
    assert_ne!(info(4), info(5));
    let mut other = info(4);
    other.block_id = HashValue { bytes: [0x11; 32] };
    assert_ne!(info(4), other);
}
