use vstd::prelude::*;

use crate::error::VaultError;

verus! {

/// The operations that a client can request.
#[derive(Clone, Copy, Debug, PartialEq, Eq, Structural)]
pub enum SolanaInstruction {
    InitializeAccount,
    Deposit { amount: u64 },
    Withdraw { amount: u64 },
}

/// The value of the first eight bytes of `s`, read as a little-endian integer.
pub open spec fn le_u64_spec(s: Seq<u8>) -> int
    recommends
        s.len() >= 8,
{
    s[0] as int + 256 * (s[1] as int) + 0x1_0000 * (s[2] as int) + 0x100_0000 * (s[3] as int)
        + 0x1_0000_0000 * (s[4] as int) + 0x100_0000_0000 * (s[5] as int)
        + 0x1_0000_0000_0000 * (s[6] as int) + 0x100_0000_0000_0000 * (s[7] as int)
}

/// What a request decodes to: the opcode byte selects the operation, and
/// deposits and withdrawals carry an amount in the next eight bytes.
pub open spec fn decode_spec(input: Seq<u8>) -> Result<SolanaInstruction, VaultError> {
    if input.len() == 0 {
        Err(VaultError::MalformedRequest)
    } else if input[0] == 0 {
        Ok(SolanaInstruction::InitializeAccount)
    } else if (input[0] == 1 || input[0] == 2) && input.len() >= 9 {
        let amount = le_u64_spec(input.drop_first()) as u64;
        if input[0] == 1 {
            Ok(SolanaInstruction::Deposit { amount })
        } else {
            Ok(SolanaInstruction::Withdraw { amount })
        }
    } else {
        Err(VaultError::MalformedRequest)
    }
}

/// Reads the little-endian `u64` held by `s[start..start + 8]`.
pub fn le_u64(s: &[u8], start: usize) -> (r: u64)
    requires
        start + 8 <= s@.len(),
    ensures
        r as int == le_u64_spec(s@.subrange(start as int, start + 8)),
{
    let r = (s[start] as u64) + 256 * (s[start + 1] as u64) + 0x1_0000 * (s[start + 2] as u64)
        + 0x100_0000 * (s[start + 3] as u64) + 0x1_0000_0000 * (s[start + 4] as u64)
        + 0x100_0000_0000 * (s[start + 5] as u64) + 0x1_0000_0000_0000 * (s[start + 6] as u64)
        + 0x100_0000_0000_0000 * (s[start + 7] as u64);
    r
}

impl SolanaInstruction {
    /// Decodes a request: a one-byte opcode, followed for deposits and
    /// withdrawals by the amount. Bytes past what the opcode reads are ignored.
    pub fn match_instruction(input: &[u8]) -> (r: Result<Self, VaultError>)
        ensures
            r == decode_spec(input@),
    {
        if input.len() == 0 {
            return Err(VaultError::MalformedRequest);
        }
        let tag = input[0];
        if tag == 0 {
            Ok(SolanaInstruction::InitializeAccount)
        } else if (tag == 1 || tag == 2) && input.len() >= 9 {
            let amount = le_u64(input, 1);
            assert(input@.subrange(1, 9) =~= input@.drop_first().subrange(0, 8));
            if tag == 1 {
                Ok(SolanaInstruction::Deposit { amount })
            } else {
                Ok(SolanaInstruction::Withdraw { amount })
            }
        } else {
            Err(VaultError::MalformedRequest)
        }
    }
}

} // verus!
