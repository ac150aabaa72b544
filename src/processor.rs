use vstd::prelude::*;

use crate::address::{find_vault_address, same_address, vault_address, Address};
use crate::error::VaultError;
use crate::instruction::{decode_spec, SolanaInstruction};

verus! {

/// What the program reads of an account: its key, its owner and its balance
/// in lamports.
#[derive(Clone, Copy, Debug, PartialEq, Eq)]
pub struct Account {
    pub key: Address,
    pub owner: Address,
    pub lamports: u64,
}

/// What the runtime must carry out after a request was accepted.
#[derive(Clone, Copy, Debug, PartialEq, Eq)]
pub enum Action {
    /// Create `vault` through the system program, funded by `funder` with
    /// `lamports`, with `space` bytes of data and owned by `owner`. The
    /// creation is signed with the vault seeds of `funder` and `bump`.
    CreateAccount { funder: Address, vault: Address, lamports: u64, space: u64, owner: Address, bump: u8 },
    /// Move `lamports` from `from` to `to` through the system program.
    Transfer { from: Address, to: Address, lamports: u64 },
    /// The balances were already moved in the account list.
    BalancesUpdated,
}

/// The account list after `amount` moved from the vault (position 1) to the
/// withdrawer (position 0). When both positions name the same account its
/// balance is unchanged.
pub open spec fn withdrawn(accounts: Seq<Account>, amount: u64) -> Seq<Account> {
    if accounts[0].key@ == accounts[1].key@ {
        accounts
    } else {
        let vault = accounts[1];
        let user = accounts[0];
        accounts.update(1, Account { lamports: (vault.lamports - amount) as u64, ..vault }).update(
            0,
            Account { lamports: (user.lamports + amount) as u64, ..user },
        )
    }
}

/// The outcome of one decoded operation: the action to carry out and the
/// account list afterwards, or the reason for refusal.
pub open spec fn apply_spec(
    ix: SolanaInstruction,
    program_id: Address,
    accounts: Seq<Account>,
    rent_exemption: u64,
) -> Result<(Action, Seq<Account>), VaultError> {
    match ix {
        SolanaInstruction::InitializeAccount => {
            if accounts.len() < 3 {
                Err(VaultError::NotEnoughAccountKeys)
            } else {
                match vault_address(accounts[0].key@, program_id@) {
                    None => Err(VaultError::NoViableBump),
                    Some((pda, bump)) => if pda != accounts[1].key@ {
                        Err(VaultError::AddressMismatch)
                    } else {
                        Ok(
                            (
                                Action::CreateAccount {
                                    funder: accounts[0].key,
                                    vault: accounts[1].key,
                                    lamports: rent_exemption,
                                    space: 0,
                                    owner: program_id,
                                    bump,
                                },
                                accounts,
                            ),
                        )
                    },
                }
            }
        },
        SolanaInstruction::Deposit { amount } => {
            if amount == 0 {
                Err(VaultError::InvalidAmount)
            } else if accounts.len() < 3 {
                Err(VaultError::NotEnoughAccountKeys)
            } else {
                match vault_address(accounts[0].key@, program_id@) {
                    None => Err(VaultError::NoViableBump),
                    Some((pda, _)) => if pda != accounts[1].key@ {
                        Err(VaultError::AddressMismatch)
                    } else {
                        Ok(
                            (
                                Action::Transfer {
                                    from: accounts[0].key,
                                    to: accounts[1].key,
                                    lamports: amount,
                                },
                                accounts,
                            ),
                        )
                    },
                }
            }
        },
        SolanaInstruction::Withdraw { amount } => {
            if accounts.len() < 2 {
                Err(VaultError::NotEnoughAccountKeys)
            } else if amount > accounts[1].lamports {
                Err(VaultError::InsufficientFunds)
            } else if accounts[1].owner@ != program_id@ {
                Err(VaultError::WrongOwner)
            } else {
                match vault_address(accounts[0].key@, program_id@) {
                    None => Err(VaultError::NoViableBump),
                    Some((pda, _)) => if pda != accounts[1].key@ {
                        Err(VaultError::AddressMismatch)
                    } else if accounts[0].key@ != accounts[1].key@ && accounts[0].lamports
                        + amount > u64::MAX {
                        Err(VaultError::ArithmeticOverflow)
                    } else {
                        Ok((Action::BalancesUpdated, withdrawn(accounts, amount)))
                    },
                }
            }
        },
    }
}

/// The outcome of a request given as bytes.
pub open spec fn process_spec(
    program_id: Address,
    accounts: Seq<Account>,
    instruction_data: Seq<u8>,
    rent_exemption: u64,
) -> Result<(Action, Seq<Account>), VaultError> {
    match decode_spec(instruction_data) {
        Ok(ix) => apply_spec(ix, program_id, accounts, rent_exemption),
        Err(e) => Err(e),
    }
}

/// Checks a decoded operation against the accounts and applies it. Accounts
/// are read by position: the user at 0, the vault at 1 and, for creation and
/// deposit, the system program at 2. A withdrawal moves the lamports in
/// `accounts` itself; creation and deposit return what the system program
/// must do. On a refusal `accounts` is left as it was.
pub fn apply_instruction(
    ix: SolanaInstruction,
    program_id: &Address,
    accounts: &mut Vec<Account>,
    rent_exemption: u64,
) -> (r: Result<Action, VaultError>)
    ensures
        match apply_spec(ix, *program_id, old(accounts)@, rent_exemption) {
            Ok((a, s)) => r == Ok::<Action, VaultError>(a) && final(accounts)@ == s,
            Err(e) => r == Err::<Action, VaultError>(e) && final(accounts)@ == old(accounts)@,
        },
{
    match ix {
        SolanaInstruction::InitializeAccount => {
            if accounts.len() < 3 {
                return Err(VaultError::NotEnoughAccountKeys);
            }
            let user = accounts[0].key;
            let vault = accounts[1].key;
            let (pda, bump) = find_vault_address(&user, program_id)?;
            if !same_address(&pda, &vault) {
                return Err(VaultError::AddressMismatch);
            }
            Ok(
                Action::CreateAccount {
                    funder: user,
                    vault,
                    lamports: rent_exemption,
                    space: 0,
                    owner: *program_id,
                    bump,
                },
            )
        },
        SolanaInstruction::Deposit { amount } => {
            if amount == 0 {
                return Err(VaultError::InvalidAmount);
            }
            if accounts.len() < 3 {
                return Err(VaultError::NotEnoughAccountKeys);
            }
            let user = accounts[0].key;
            let vault = accounts[1].key;
            let (pda, _) = find_vault_address(&user, program_id)?;
            if !same_address(&pda, &vault) {
                return Err(VaultError::AddressMismatch);
            }
            Ok(Action::Transfer { from: user, to: vault, lamports: amount })
        },
        SolanaInstruction::Withdraw { amount } => {
            if accounts.len() < 2 {
                return Err(VaultError::NotEnoughAccountKeys);
            }
            let user = accounts[0];
            let vault = accounts[1];
            if amount > vault.lamports {
                return Err(VaultError::InsufficientFunds);
            }
            if !same_address(&vault.owner, program_id) {
                return Err(VaultError::WrongOwner);
            }
            let (pda, _) = find_vault_address(&user.key, program_id)?;
            if !same_address(&pda, &vault.key) {
                return Err(VaultError::AddressMismatch);
            }
            if same_address(&user.key, &vault.key) {
                return Ok(Action::BalancesUpdated);
            }
            let credited = match user.lamports.checked_add(amount) {
                Some(v) => v,
                None => return Err(VaultError::ArithmeticOverflow),
            };
            accounts.set(1, Account { lamports: vault.lamports - amount, ..vault });
            accounts.set(0, Account { lamports: credited, ..user });
            Ok(Action::BalancesUpdated)
        },
    }
}

/// Decodes a request and applies it, as `apply_instruction` describes.
/// `rent_exemption` is the balance that keeps an account of no data alive.
pub fn process_instruction(
    program_id: &Address,
    accounts: &mut Vec<Account>,
    instruction_data: &[u8],
    rent_exemption: u64,
) -> (r: Result<Action, VaultError>)
    ensures
        match process_spec(*program_id, old(accounts)@, instruction_data@, rent_exemption) {
            Ok((a, s)) => r == Ok::<Action, VaultError>(a) && final(accounts)@ == s,
            Err(e) => r == Err::<Action, VaultError>(e) && final(accounts)@ == old(accounts)@,
        },
{
    let ix = SolanaInstruction::match_instruction(instruction_data)?;
    apply_instruction(ix, program_id, accounts, rent_exemption)
}

} // verus!
