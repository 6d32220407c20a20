//! The pool's derived authority: a keyless address computed from a fixed
//! label and the program's identity, which owns the vault.
use vstd::prelude::*;

use crate::key::Key;
use crate::state::{CustomError, HoldingAccount};

verus! {

/// The program-derived address and bump for `seed` under `program`, or `None`
/// when no bump yields an address off the curve.
pub uninterp spec fn program_address_of(seed: Seq<u8>, program: Seq<u8>) -> Option<(Seq<u8>, u8)>;

/// Relies on `Pubkey::try_find_program_address` of solana-program (through
/// anchor-lang): a search over bump seeds of a hash of `seed`, the bump and
/// `program`, whose result depends on those bytes alone; it returns `None`
/// rather than panicking when the search fails.
#[verifier::external_body]
fn find_program_address(seed: &[u8], program: &Key) -> (r: Option<(Key, u8)>)
    ensures
        r matches Some((k, bump)) ==> program_address_of(seed@, program@) == Some((k@, bump)),
        r is None ==> program_address_of(seed@, program@) is None,
{
    let program_id = anchor_lang::prelude::Pubkey::new_from_array(program.bytes);
    match anchor_lang::prelude::Pubkey::try_find_program_address(&[seed], &program_id) {
        Some((address, bump)) => Some((Key { bytes: address.to_bytes() }, bump)),
        None => None,
    }
}

/// The label the vault's authority is derived from: the bytes of "vault".
pub open spec fn vault_seed() -> Seq<u8> {
    seq![118u8, 97u8, 117u8, 108u8, 116u8]
}

/// The vault's address under `program`, which is also its authority.
pub open spec fn vault_address(program: Seq<u8>) -> Option<Seq<u8>> {
    match program_address_of(vault_seed(), program) {
        Some((address, _)) => Some(address),
        None => None,
    }
}

/// The vault's address (and owner) for the program `program_id`.
pub fn vault_authority(program_id: &Key) -> (r: Option<Key>)
    ensures
        r is Some <==> vault_address(program_id@) is Some,
        r matches Some(k) ==> vault_address(program_id@) == Some(k@),
{
    let seed: [u8; 5] = [118, 97, 117, 108, 116];
    assert(seed@ =~= vault_seed());
    match find_program_address(seed.as_slice(), program_id) {
        Some((address, _)) => Some(address),
        None => None,
    }
}

/// `vault` sits at the vault address of `program`.
pub open spec fn is_vault(program: Key, vault: HoldingAccount) -> bool {
    vault_address(program@) == Some(vault.key@)
}

/// Checks that `vault` is the pool's vault under `program_id`.
pub fn check_vault(program_id: &Key, vault: &HoldingAccount) -> (r: Result<(), CustomError>)
    ensures
        r is Ok <==> is_vault(*program_id, *vault),
        r matches Err(e) ==> e == CustomError::InvalidVault,
{
    match vault_authority(program_id) {
        Some(address) => {
            if address.same_as(&vault.key) {
                Ok(())
            } else {
                Err(CustomError::InvalidVault)
            }
        },
        None => Err(CustomError::InvalidVault),
    }
}

} // verus!
