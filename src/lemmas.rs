use vstd::prelude::*;

use crate::address::{is_vault_derivation, vault_address, Address};
use crate::error::VaultError;
use crate::instruction::{decode_spec, SolanaInstruction};
use crate::processor::{process_spec, Account, Action};

verus! {

/// Deriving the vault of one user under one program twice gives the same
/// address and the same bump, or fails both times.
pub proof fn lemma_vault_address_deterministic(
    user: Address,
    program_id: Address,
    first: Result<(Address, u8), VaultError>,
    second: Result<(Address, u8), VaultError>,
)
    requires
        is_vault_derivation(user@, program_id@, first),
        is_vault_derivation(user@, program_id@, second),
    ensures
        match (first, second) {
            (Ok((a1, b1)), Ok((a2, b2))) => a1@ == a2@ && b1 == b2,
            (Err(e1), Err(e2)) => e1 == e2,
            _ => false,
        },
{
}

/// A deposit of zero is refused as an invalid amount, whatever the accounts
/// hold.
pub proof fn lemma_zero_deposit_refused(
    program_id: Address,
    accounts: Seq<Account>,
    instruction_data: Seq<u8>,
    rent_exemption: u64,
)
    requires
        decode_spec(instruction_data) == Ok::<SolanaInstruction, VaultError>(
            SolanaInstruction::Deposit { amount: 0 },
        ),
    ensures
        process_spec(program_id, accounts, instruction_data, rent_exemption) == Err::<
            (Action, Seq<Account>),
            VaultError,
        >(VaultError::InvalidAmount),
{
}

/// A withdrawal of more than the vault holds is refused for want of funds.
pub proof fn lemma_withdraw_over_balance_refused(
    program_id: Address,
    accounts: Seq<Account>,
    instruction_data: Seq<u8>,
    rent_exemption: u64,
    amount: u64,
)
    requires
        decode_spec(instruction_data) == Ok::<SolanaInstruction, VaultError>(
            SolanaInstruction::Withdraw { amount },
        ),
        accounts.len() >= 2,
        amount > accounts[1].lamports,
    ensures
        process_spec(program_id, accounts, instruction_data, rent_exemption) == Err::<
            (Action, Seq<Account>),
            VaultError,
        >(VaultError::InsufficientFunds),
{
}

/// A withdrawal of zero from the user's own vault succeeds and leaves every
/// balance as it was.
pub proof fn lemma_zero_withdraw_keeps_balances(
    program_id: Address,
    accounts: Seq<Account>,
    instruction_data: Seq<u8>,
    rent_exemption: u64,
)
    requires
        decode_spec(instruction_data) == Ok::<SolanaInstruction, VaultError>(
            SolanaInstruction::Withdraw { amount: 0 },
        ),
        accounts.len() >= 2,
        accounts[1].owner@ == program_id@,
        vault_address(accounts[0].key@, program_id@) matches Some((pda, _)) && pda
            == accounts[1].key@,
    ensures
        process_spec(program_id, accounts, instruction_data, rent_exemption) == Ok::<
            (Action, Seq<Account>),
            VaultError,
        >((Action::BalancesUpdated, accounts)),
{
    if accounts[0].key@ != accounts[1].key@ {
        let s = process_spec(program_id, accounts, instruction_data, rent_exemption)->Ok_0.1;
        assert(s =~= accounts);
    }
}

/// A withdrawal that succeeds takes exactly `amount` from the vault and gives
/// it to the withdrawer, and leaves every other account as it was.
pub proof fn lemma_withdraw_moves_amount(
    program_id: Address,
    accounts: Seq<Account>,
    instruction_data: Seq<u8>,
    rent_exemption: u64,
    amount: u64,
)
    requires
        decode_spec(instruction_data) == Ok::<SolanaInstruction, VaultError>(
            SolanaInstruction::Withdraw { amount },
        ),
        process_spec(program_id, accounts, instruction_data, rent_exemption) is Ok,
        accounts.len() >= 2,
        accounts[0].key@ != accounts[1].key@,
    ensures
        ({
            let after = process_spec(program_id, accounts, instruction_data, rent_exemption)->Ok_0.1;
            &&& after.len() == accounts.len()
            &&& after[1].lamports == accounts[1].lamports - amount
            &&& after[0].lamports == accounts[0].lamports + amount
            &&& after[0].key == accounts[0].key && after[0].owner == accounts[0].owner
            &&& after[1].key == accounts[1].key && after[1].owner == accounts[1].owner
            &&& forall|i: int| 2 <= i < accounts.len() ==> after[i] == accounts[i]
        }),
{
}

/// A deposit that is accepted asks the system program to move exactly the
/// amount from the depositor to the vault, and changes no balance itself.
pub proof fn lemma_deposit_requests_transfer(
    program_id: Address,
    accounts: Seq<Account>,
    instruction_data: Seq<u8>,
    rent_exemption: u64,
    amount: u64,
)
    requires
        decode_spec(instruction_data) == Ok::<SolanaInstruction, VaultError>(
            SolanaInstruction::Deposit { amount },
        ),
        process_spec(program_id, accounts, instruction_data, rent_exemption) is Ok,
    ensures
        process_spec(program_id, accounts, instruction_data, rent_exemption) == Ok::<
            (Action, Seq<Account>),
            VaultError,
        >((Action::Transfer { from: accounts[0].key, to: accounts[1].key, lamports: amount }, accounts)),
{
}

/// The accounts an operation reads.
pub open spec fn accounts_read(ix: SolanaInstruction) -> int {
    match ix {
        SolanaInstruction::Withdraw { .. } => 2,
        _ => 3,
    }
}

/// A vault account whose key is not the address derived for the user is
/// refused as a mismatch by every operation, once the checks that come before
/// the derivation have passed: a non-zero deposit amount, and for a
/// withdrawal a covered amount and a vault owned by the program.
pub proof fn lemma_mismatched_vault_refused(
    program_id: Address,
    accounts: Seq<Account>,
    instruction_data: Seq<u8>,
    rent_exemption: u64,
)
    requires
        decode_spec(instruction_data) is Ok,
        accounts.len() >= accounts_read(decode_spec(instruction_data)->Ok_0),
        vault_address(accounts[0].key@, program_id@) matches Some((pda, _)) && pda
            != accounts[1].key@,
        decode_spec(instruction_data)->Ok_0 matches SolanaInstruction::Deposit { amount } ==> amount
            != 0,
        decode_spec(instruction_data)->Ok_0 matches SolanaInstruction::Withdraw { amount } ==> amount
            <= accounts[1].lamports && accounts[1].owner@ == program_id@,
    ensures
        process_spec(program_id, accounts, instruction_data, rent_exemption) == Err::<
            (Action, Seq<Account>),
            VaultError,
        >(VaultError::AddressMismatch),
{
}

/// A withdrawal from a vault that the program does not own never succeeds;
/// when the amount is covered by the balance it is refused for the owner.
pub proof fn lemma_foreign_vault_refused(
    program_id: Address,
    accounts: Seq<Account>,
    instruction_data: Seq<u8>,
    rent_exemption: u64,
    amount: u64,
)
    requires
        decode_spec(instruction_data) == Ok::<SolanaInstruction, VaultError>(
            SolanaInstruction::Withdraw { amount },
        ),
        accounts.len() >= 2,
        accounts[1].owner@ != program_id@,
    ensures
        process_spec(program_id, accounts, instruction_data, rent_exemption) is Err,
        amount <= accounts[1].lamports ==> process_spec(
            program_id,
            accounts,
            instruction_data,
            rent_exemption,
        ) == Err::<(Action, Seq<Account>), VaultError>(VaultError::WrongOwner),
{
}

} // verus!
