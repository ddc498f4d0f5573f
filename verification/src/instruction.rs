//! The instructions and their encoding.
//!
//! An encoded instruction is a four-byte little-endian tag followed by the
//! instruction's fields, each little-endian, in the order in which they are
//! declared.  Bytes after the last field are ignored.

use vstd::prelude::*;
use vstd::bytes::{
    lemma_auto_spec_u128_to_from_le_bytes, lemma_auto_spec_u32_to_from_le_bytes,
    lemma_auto_spec_u64_to_from_le_bytes, spec_u128_from_le_bytes, spec_u128_to_le_bytes,
    spec_u32_from_le_bytes, spec_u32_to_le_bytes, spec_u64_from_le_bytes, spec_u64_to_le_bytes,
    u128_from_le_bytes, u128_to_le_bytes, u32_from_le_bytes, u32_to_le_bytes, u64_from_le_bytes,
    u64_to_le_bytes,
};
use vstd::slice::slice_subrange;
use crate::fixed_point::I80F48;

verus! {

/// One request to the processor.
#[derive(Clone, Copy, Debug, PartialEq, Eq)]
pub enum QuasarInstruction {
    /// Sets a group up.
    InitQuasarGroup { signer_nonce: u64 },
    /// Registers a collateral asset.
    AddBaseToken,
    /// Registers a leveraged instrument on a registered collateral asset.
    AddLeverageToken { target_leverage: I80F48 },
    /// Deposits collateral towards minting a leveraged instrument.
    MintLeverageToken { target_leverage: I80F48, quantity: u64 },
    /// Redeems a leveraged instrument.
    RedeemLeverageToken { quantity: u64 },
    /// Creates a small account; for tests.
    TestCreateAccount,
}

/// The fixed-point number whose bits are stored in sixteen little-endian
/// bytes.
pub open spec fn spec_fixed_from_le_bytes(bytes: Seq<u8>) -> I80F48 {
    I80F48 { bits: spec_u128_from_le_bytes(bytes) as i128 }
}

/// The sixteen little-endian bytes of a fixed-point number's bits.
pub open spec fn spec_fixed_to_le_bytes(number: I80F48) -> Seq<u8> {
    spec_u128_to_le_bytes(number.bits as u128)
}

/// The instruction that a payload decodes to, if it decodes.
pub open spec fn spec_unpack(input: Seq<u8>) -> Option<QuasarInstruction> {
    if input.len() < 4 {
        None
    } else {
        let tag = spec_u32_from_le_bytes(input.subrange(0, 4));
        if tag == 0 {
            if input.len() >= 12 {
                Some(
                    QuasarInstruction::InitQuasarGroup {
                        signer_nonce: spec_u64_from_le_bytes(input.subrange(4, 12)),
                    },
                )
            } else {
                None
            }
        } else if tag == 1 {
            Some(QuasarInstruction::AddBaseToken)
        } else if tag == 2 {
            if input.len() >= 20 {
                Some(
                    QuasarInstruction::AddLeverageToken {
                        target_leverage: spec_fixed_from_le_bytes(input.subrange(4, 20)),
                    },
                )
            } else {
                None
            }
        } else if tag == 3 {
            if input.len() >= 28 {
                Some(
                    QuasarInstruction::MintLeverageToken {
                        target_leverage: spec_fixed_from_le_bytes(input.subrange(4, 20)),
                        quantity: spec_u64_from_le_bytes(input.subrange(20, 28)),
                    },
                )
            } else {
                None
            }
        } else if tag == 4 {
            if input.len() >= 12 {
                Some(
                    QuasarInstruction::RedeemLeverageToken {
                        quantity: spec_u64_from_le_bytes(input.subrange(4, 12)),
                    },
                )
            } else {
                None
            }
        } else if tag == 5 {
            Some(QuasarInstruction::TestCreateAccount)
        } else {
            None
        }
    }
}

/// The payload that an instruction encodes to.
pub open spec fn spec_pack(instruction: QuasarInstruction) -> Seq<u8> {
    match instruction {
        QuasarInstruction::InitQuasarGroup { signer_nonce } => spec_u32_to_le_bytes(0)
            + spec_u64_to_le_bytes(signer_nonce),
        QuasarInstruction::AddBaseToken => spec_u32_to_le_bytes(1),
        QuasarInstruction::AddLeverageToken { target_leverage } => spec_u32_to_le_bytes(2)
            + spec_fixed_to_le_bytes(target_leverage),
        QuasarInstruction::MintLeverageToken { target_leverage, quantity } => spec_u32_to_le_bytes(3)
            + spec_fixed_to_le_bytes(target_leverage) + spec_u64_to_le_bytes(quantity),
        QuasarInstruction::RedeemLeverageToken { quantity } => spec_u32_to_le_bytes(4)
            + spec_u64_to_le_bytes(quantity),
        QuasarInstruction::TestCreateAccount => spec_u32_to_le_bytes(5),
    }
}

fn read_u64(input: &[u8], start: usize) -> (value: u64)
    requires
        start + 8 <= input@.len(),
    ensures
        value == spec_u64_from_le_bytes(input@.subrange(start as int, start + 8)),
{
    let len = input.len();
    u64_from_le_bytes(slice_subrange(input, start, start + 8))
}

fn read_fixed(input: &[u8], start: usize) -> (value: I80F48)
    requires
        start + 16 <= input@.len(),
    ensures
        value == spec_fixed_from_le_bytes(input@.subrange(start as int, start + 16)),
{
    let len = input.len();
    let bits = u128_from_le_bytes(slice_subrange(input, start, start + 16));
    I80F48 { bits: #[verifier::truncate] (bits as i128) }
}

fn append(buffer: &mut Vec<u8>, bytes: &Vec<u8>)
    ensures
        final(buffer)@ == old(buffer)@ + bytes@,
{
    let mut i: usize = 0;
    while i < bytes.len()
        invariant
            i <= bytes@.len(),
            buffer@ == old(buffer)@ + bytes@.take(i as int),
        decreases bytes@.len() - i,
    {
        buffer.push(bytes[i]);
        assert(bytes@.take(i + 1) =~= bytes@.take(i as int).push(bytes@[i as int]));
        assert(buffer@ =~= old(buffer)@ + bytes@.take(i + 1));
        i += 1;
    }
    assert(bytes@.take(i as int) =~= bytes@);
}

impl QuasarInstruction {
    /// Decodes a payload.  A payload shorter than its tag or its fields, and
    /// an unknown tag, give `None`.
    pub fn unpack(input: &[u8]) -> (instruction: Option<QuasarInstruction>)
        ensures
            instruction == spec_unpack(input@),
    {
        if input.len() < 4 {
            return None;
        }
        let tag = u32_from_le_bytes(slice_subrange(input, 0, 4));
        if tag == 0 {
            if input.len() < 12 {
                return None;
            }
            Some(QuasarInstruction::InitQuasarGroup { signer_nonce: read_u64(input, 4) })
        } else if tag == 1 {
            Some(QuasarInstruction::AddBaseToken)
        } else if tag == 2 {
            if input.len() < 20 {
                return None;
            }
            Some(QuasarInstruction::AddLeverageToken { target_leverage: read_fixed(input, 4) })
        } else if tag == 3 {
            if input.len() < 28 {
                return None;
            }
            Some(
                QuasarInstruction::MintLeverageToken {
                    target_leverage: read_fixed(input, 4),
                    quantity: read_u64(input, 20),
                },
            )
        } else if tag == 4 {
            if input.len() < 12 {
                return None;
            }
            Some(QuasarInstruction::RedeemLeverageToken { quantity: read_u64(input, 4) })
        } else if tag == 5 {
            Some(QuasarInstruction::TestCreateAccount)
        } else {
            None
        }
    }

    /// Encodes the instruction.
    pub fn pack(&self) -> (output: Vec<u8>)
        ensures
            output@ == spec_pack(*self),
    {
        match self {
            QuasarInstruction::InitQuasarGroup { signer_nonce } => {
                let mut output = u32_to_le_bytes(0);
                append(&mut output, &u64_to_le_bytes(*signer_nonce));
                output
            },
            QuasarInstruction::AddBaseToken => u32_to_le_bytes(1),
            QuasarInstruction::AddLeverageToken { target_leverage } => {
                let mut output = u32_to_le_bytes(2);
                append(&mut output, &u128_to_le_bytes(target_leverage.bits as u128));
                output
            },
            QuasarInstruction::MintLeverageToken { target_leverage, quantity } => {
                let mut output = u32_to_le_bytes(3);
                append(&mut output, &u128_to_le_bytes(target_leverage.bits as u128));
                append(&mut output, &u64_to_le_bytes(*quantity));
                output
            },
            QuasarInstruction::RedeemLeverageToken { quantity } => {
                let mut output = u32_to_le_bytes(4);
                append(&mut output, &u64_to_le_bytes(*quantity));
                output
            },
            QuasarInstruction::TestCreateAccount => u32_to_le_bytes(5),
        }
    }
}

/// Storing a number's bits and reading them back gives the number.
pub proof fn lemma_fixed_le_bytes_roundtrip(number: I80F48)
    ensures
        spec_fixed_to_le_bytes(number).len() == 16,
        spec_fixed_from_le_bytes(spec_fixed_to_le_bytes(number)) == number,
{
    lemma_auto_spec_u128_to_from_le_bytes();
    let bits = number.bits;
    let stored = #[verifier::truncate] (bits as u128);
    assert(stored as i128 == bits) by (bit_vector)
        requires
            stored == bits as u128,
    ;
    assert(spec_u128_to_le_bytes(stored).len() == 16);
}

/// Decoding undoes encoding: every instruction is read back from its
/// payload, also where more bytes follow the payload.
pub proof fn lemma_unpack_pack(instruction: QuasarInstruction, trailing: Seq<u8>)
    ensures
        spec_unpack(spec_pack(instruction) + trailing) == Some(instruction),
{
    lemma_auto_spec_u32_to_from_le_bytes();
    lemma_auto_spec_u64_to_from_le_bytes();
    let input = spec_pack(instruction) + trailing;
    match instruction {
        QuasarInstruction::InitQuasarGroup { signer_nonce } => {
            assert(input.subrange(0, 4) =~= spec_u32_to_le_bytes(0));
            assert(input.subrange(4, 12) =~= spec_u64_to_le_bytes(signer_nonce));
        },
        QuasarInstruction::AddBaseToken => {
            assert(input.subrange(0, 4) =~= spec_u32_to_le_bytes(1));
        },
        QuasarInstruction::AddLeverageToken { target_leverage } => {
            lemma_fixed_le_bytes_roundtrip(target_leverage);
            assert(input.subrange(0, 4) =~= spec_u32_to_le_bytes(2));
            assert(input.subrange(4, 20) =~= spec_fixed_to_le_bytes(target_leverage));
        },
        QuasarInstruction::MintLeverageToken { target_leverage, quantity } => {
            lemma_fixed_le_bytes_roundtrip(target_leverage);
            assert(input.subrange(0, 4) =~= spec_u32_to_le_bytes(3));
            assert(input.subrange(4, 20) =~= spec_fixed_to_le_bytes(target_leverage));
            assert(input.subrange(20, 28) =~= spec_u64_to_le_bytes(quantity));
        },
        QuasarInstruction::RedeemLeverageToken { quantity } => {
            assert(input.subrange(0, 4) =~= spec_u32_to_le_bytes(4));
            assert(input.subrange(4, 12) =~= spec_u64_to_le_bytes(quantity));
        },
        QuasarInstruction::TestCreateAccount => {
            assert(input.subrange(0, 4) =~= spec_u32_to_le_bytes(5));
        },
    }
}

} // verus!
