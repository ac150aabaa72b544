use vstd::prelude::*;

use solana_program::pubkey::Pubkey;

use crate::error::VaultError;

verus! {

/// The 32-byte key of an account, of a user or of a program.
pub type Address = [u8; 32];

/// What `Pubkey::try_find_program_address` returns for these seeds and this
/// program: the first off-curve address found with a bump seed appended, with
/// that bump, or nothing when no bump seed gives one.
pub uninterp spec fn program_address_of(seeds: Seq<Seq<u8>>, program_id: Seq<u8>) -> Option<(Seq<u8>, u8)>;

/// The ghost view of a derived address and its bump.
pub open spec fn found_view(r: Option<(Address, u8)>) -> Option<(Seq<u8>, u8)> {
    match r {
        Some((a, b)) => Some((a@, b)),
        None => None,
    }
}

/// Relies on solana_program's `Pubkey::try_find_program_address`, which is a
/// function of the seeds and the program key alone (a hash searched over bump
/// seeds), and which returns `None` rather than panicking when no bump works.
#[verifier::external_body]
fn try_find_program_address(seeds: &Vec<Vec<u8>>, program_id: &Address) -> (r: Option<(Address, u8)>)
    ensures
        found_view(r) == program_address_of(seeds@.map_values(|s: Vec<u8>| s@), program_id@),
{
    let seeds: Vec<&[u8]> = seeds.iter().map(|s| s.as_slice()).collect();
    Pubkey::try_find_program_address(&seeds, &Pubkey::new_from_array(*program_id)).map(
        |(key, bump)| (key.to_bytes(), bump),
    )
}

/// The domain tag that starts the seeds of every vault address: `"user"`.
pub open spec fn vault_tag() -> Seq<u8> {
    seq![117u8, 115u8, 101u8, 114u8]
}

/// The seeds of the vault that belongs to `user`.
pub open spec fn vault_seeds(user: Seq<u8>) -> Seq<Seq<u8>> {
    seq![vault_tag(), user]
}

/// The vault address and bump of `user` under `program_id`, if one exists.
pub open spec fn vault_address(user: Seq<u8>, program_id: Seq<u8>) -> Option<(Seq<u8>, u8)> {
    program_address_of(vault_seeds(user), program_id)
}

/// Whether `r` is what deriving the vault of `user` under `program_id` gives.
pub open spec fn is_vault_derivation(
    user: Seq<u8>,
    program_id: Seq<u8>,
    r: Result<(Address, u8), VaultError>,
) -> bool {
    match r {
        Ok((a, b)) => vault_address(user, program_id) == Some((a@, b)),
        Err(e) => e == VaultError::NoViableBump && vault_address(user, program_id) is None,
    }
}

/// Derives the vault address of `user` under `program_id`, with its bump.
pub fn find_vault_address(user: &Address, program_id: &Address) -> (r: Result<(Address, u8), VaultError>)
    ensures
        is_vault_derivation(user@, program_id@, r),
{
    let tag: Vec<u8> = vec![117u8, 115u8, 101u8, 114u8];
    let mut key: Vec<u8> = Vec::new();
    let mut i: usize = 0;
    while i < 32
        invariant
            i <= 32,
            key@ == user@.subrange(0, i as int),
        decreases 32 - i,
    {
        key.push(user[i]);
        i = i + 1;
    }
    let seeds: Vec<Vec<u8>> = vec![tag, key];
    proof {
        assert(key@ =~= user@);
        assert(seeds@.map_values(|s: Vec<u8>| s@) =~= vault_seeds(user@));
    }
    match try_find_program_address(&seeds, program_id) {
        Some(found) => Ok(found),
        None => Err(VaultError::NoViableBump),
    }
}

/// Whether two keys are the same bytes.
pub fn same_address(a: &Address, b: &Address) -> (r: bool)
    ensures
        r == (a@ == b@),
{
    let mut i: usize = 0;
    while i < 32
        invariant
            i <= 32,
            forall|j: int| 0 <= j < i ==> a@[j] == b@[j],
        decreases 32 - i,
    {
        if a[i] != b[i] {
            return false;
        }
        i = i + 1;
    }
    assert(a@ =~= b@);
    true
}

} // verus!
