//! Commit metadata of a consensus round, and the values that travel with it.

use vstd::prelude::*;
use crate::text::{append_decimal, append_hex, decimal, hex};

verus! {

/// A 256-bit digest that identifies a block or an executed state.
#[derive(Clone, Copy, Debug, PartialEq, Eq, Hash)]
pub struct HashValue {
    pub bytes: [u8; 32],
}

/// A validator's signature. The stage carries it and never looks inside.
#[derive(Clone, Copy, Debug, PartialEq, Eq, Hash)]
pub struct Signature {
    pub bytes: [u8; 64],
}

/// The identity of a validator.
#[derive(Clone, Copy, Debug, PartialEq, Eq, Hash)]
pub struct AccountAddress {
    pub bytes: [u8; 32],
}

/// Commit metadata of one consensus round.
#[derive(Clone, Copy, Debug, PartialEq, Eq, Hash)]
pub struct LedgerInfo {
    pub epoch: u64,
    pub round: u64,
    pub block_id: HashValue,
    pub executed_state_id: HashValue,
    pub timestamp_usecs: u64,
}

impl LedgerInfo {
    /// Two commits speak of one round when epoch and round agree.
    pub open spec fn same_round(self, other: LedgerInfo) -> bool {
        self.epoch == other.epoch && self.round == other.round
    }

    /// The ledger info as text: numbers in decimal, digests in hexadecimal.
    pub open spec fn text(self) -> Seq<char> {
        "LedgerInfo(epoch: "@ + decimal(self.epoch as nat) + ", round: "@ + decimal(
            self.round as nat,
        ) + ", block: "@ + hex(self.block_id.bytes@) + ", state: "@ + hex(
            self.executed_state_id.bytes@,
        ) + ", timestamp: "@ + decimal(self.timestamp_usecs as nat) + ")"@
    }

    /// Renders the ledger info for a log.
    pub fn to_text(&self) -> (text: String)
        ensures
            text@ == self.text(),
    {
        let mut text = String::from_str("LedgerInfo(epoch: ");
        append_decimal(&mut text, self.epoch);
        text.append(", round: ");
        append_decimal(&mut text, self.round);
        text.append(", block: ");
        append_hex(&mut text, self.block_id.bytes.as_slice());
        text.append(", state: ");
        append_hex(&mut text, self.executed_state_id.bytes.as_slice());
        text.append(", timestamp: ");
        append_decimal(&mut text, self.timestamp_usecs);
        text.append(")");
        text
    }
}

/// One validator's vote on a ledger info.
#[derive(Clone, Copy, Debug, PartialEq, Eq, Hash)]
pub struct PartialSignature {
    pub validator: AccountAddress,
    pub signature: Signature,
}

/// A ledger info with the votes gathered for it so far: enough to order the
/// block, not yet enough to finalize it.
#[derive(Debug, PartialEq, Eq, Hash)]
pub struct LedgerInfoWithSignatures {
    pub ledger_info: LedgerInfo,
    pub signatures: Vec<PartialSignature>,
}

impl Clone for LedgerInfoWithSignatures {
    fn clone(&self) -> (copy: Self)
        ensures
            copy.ledger_info == self.ledger_info,
            copy.signatures@ == self.signatures@,
    {
        LedgerInfoWithSignatures {
            ledger_info: self.ledger_info,
            signatures: self.signatures.clone(),
        }
    }
}

impl LedgerInfoWithSignatures {
    /// The ledger info as text, with the number of votes gathered for it.
    pub open spec fn text(self) -> Seq<char> {
        "LedgerInfoWithSignatures("@ + self.ledger_info.text() + ", signatures: "@ + decimal(
            self.signatures@.len(),
        ) + ")"@
    }

    /// Renders the ledger info and the number of its votes for a log.
    pub fn to_text(&self) -> (text: String)
        ensures
            text@ == self.text(),
    {
        let mut text = String::from_str("LedgerInfoWithSignatures(");
        let ledger_info = self.ledger_info.to_text();
        text.append(ledger_info.as_str());
        text.append(", signatures: ");
        append_decimal(&mut text, self.signatures.len() as u64);
        text.append(")");
        text
    }
}

} // verus!
