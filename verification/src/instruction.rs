//! Byte layout of the two token-ledger instructions the pool issues: a
//! transfer of an asset amount and a supply-increasing mint of shares.  Each
//! serializes as a one-byte instruction tag followed by the amount as eight
//! little-endian bytes; the surrounding ledger adapter puts the bytes on the
//! wire.

use vstd::prelude::*;

verus! {

/// Instruction tag of a token transfer.
pub const TRANSFER_INSTRUCTION: u8 = 3;

/// Instruction tag of a supply-increasing mint.
pub const MINT_TO_INSTRUCTION: u8 = 7;

/// The little-endian bytes of a 64-bit amount, most significant last.
pub open spec fn le_bytes_of(amount: u64) -> Seq<u8> {
    seq![
        ((amount as int) % 256) as u8,
        ((amount as int) / 256 % 256) as u8,
        ((amount as int) / 0x10000 % 256) as u8,
        ((amount as int) / 0x1000000 % 256) as u8,
        ((amount as int) / 0x100000000 % 256) as u8,
        ((amount as int) / 0x10000000000 % 256) as u8,
        ((amount as int) / 0x1000000000000 % 256) as u8,
        ((amount as int) / 0x100000000000000) as u8,
    ]
}

/// A tag byte followed by the amount's little-endian bytes.
pub open spec fn instruction_bytes_of(tag: u8, amount: u64) -> Seq<u8> {
    seq![tag] + le_bytes_of(amount)
}

/// Payload of a token-transfer instruction.
#[derive(Clone, Copy, Debug, PartialEq, Eq, Structural)]
pub struct TransferTokenParams {
    /// Instruction tag; a transfer is tag 3.
    pub instruction: u8,
    /// Amount of the asset to move.
    pub amount: u64,
}

/// Payload of a mint instruction.
#[derive(Clone, Copy, Debug, PartialEq, Eq, Structural)]
pub struct MintToTokenParams {
    /// Instruction tag; a mint is tag 7.
    pub instruction: u8,
    /// Amount of shares to issue.
    pub amount: u64,
}

/// Serialize a tag and an amount as the nine instruction-data bytes.
fn encode_tag_amount(tag: u8, amount: u64) -> (r: Vec<u8>)
    ensures
        r@ == instruction_bytes_of(tag, amount),
{
    let mut bytes: Vec<u8> = Vec::new();
    bytes.push(tag);
    bytes.push((amount % 256) as u8);
    bytes.push((amount / 256 % 256) as u8);
    bytes.push((amount / 0x10000 % 256) as u8);
    bytes.push((amount / 0x1000000 % 256) as u8);
    bytes.push((amount / 0x100000000 % 256) as u8);
    bytes.push((amount / 0x10000000000 % 256) as u8);
    bytes.push((amount / 0x1000000000000 % 256) as u8);
    bytes.push((amount / 0x100000000000000) as u8);
    proof {
        assert(bytes@ =~= instruction_bytes_of(tag, amount));
    }
    bytes
}

impl TransferTokenParams {
    /// The instruction-data bytes of this transfer.
    pub fn to_bytes(&self) -> (r: Vec<u8>)
        ensures
            r@ == instruction_bytes_of(self.instruction, self.amount),
    {
        encode_tag_amount(self.instruction, self.amount)
    }
}

impl MintToTokenParams {
    /// The instruction-data bytes of this mint.
    pub fn to_bytes(&self) -> (r: Vec<u8>)
        ensures
            r@ == instruction_bytes_of(self.instruction, self.amount),
    {
        encode_tag_amount(self.instruction, self.amount)
    }
}

} // verus!
