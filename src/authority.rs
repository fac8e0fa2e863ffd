use vstd::prelude::*;
use anchor_lang::prelude::Pubkey;
use crate::address::Address;
use crate::error::FaucetError;

verus! {

/// The program address found for the single seed `seed` under `program`, with
/// its bump, or `None` where no bump gives one.
pub uninterp spec fn found_program_address(seed: Seq<u8>, program: Seq<u8>) -> Option<(Seq<u8>, u8)>;

/// The program address of the seeds `seed` and `[bump]` under `program`, or
/// `None` where those seeds give no valid program address.
pub uninterp spec fn created_program_address(seed: Seq<u8>, bump: u8, program: Seq<u8>) -> Option<Seq<u8>>;

/// Relies on `Pubkey::try_find_program_address` with the seeds `[seed]`: it
/// tries each bump from 255 down and returns the first address that
/// `Pubkey::create_program_address` gives for the seeds `[seed, [bump]]`, and
/// `None` where none does or where `seed` is longer than 32 bytes.
#[verifier::external_body]
fn find_program_address(seed: &[u8], program_id: &Address) -> (r: Option<(Address, u8)>)
    ensures
        r.is_some() == found_program_address(seed@, program_id@).is_some(),
        r.is_some() ==> found_program_address(seed@, program_id@) == Some(
            (r.unwrap().0@, r.unwrap().1),
        ),
        r.is_some() ==> created_program_address(seed@, r.unwrap().1, program_id@) == Some(
            r.unwrap().0@,
        ),
        seed@.len() > 32 ==> r.is_none(),
{
    let program = Pubkey::new_from_array(program_id.bytes);
    match Pubkey::try_find_program_address(&[seed], &program) {
        Some((key, bump)) => Some((Address { bytes: key.to_bytes() }, bump)),
        None => None,
    }
}

/// Relies on `Pubkey::create_program_address` with the seeds `[seed, [bump]]`:
/// the address is a function of the seeds and the program alone, and a seed
/// longer than 32 bytes is refused.
#[verifier::external_body]
fn create_program_address(seed: &[u8], bump: u8, program_id: &Address) -> (r: Option<Address>)
    ensures
        r.is_some() == created_program_address(seed@, bump, program_id@).is_some(),
        r.is_some() ==> created_program_address(seed@, bump, program_id@) == Some(r.unwrap()@),
        seed@.len() > 32 ==> r.is_none(),
{
    let program = Pubkey::new_from_array(program_id.bytes);
    let bump_seed = [bump];
    match Pubkey::create_program_address(&[seed, &bump_seed], &program) {
        Ok(key) => Some(Address { bytes: key.to_bytes() }),
        Err(_) => None,
    }
}

/// A key-less identity derived from a label: its address and the bump that
/// proves the derivation.
#[derive(Debug, Clone, Copy, PartialEq, Eq)]
pub struct AuthorityIdentity {
    pub address: Address,
    pub bump: u8,
}

/// Whether `identity` is the one that `label` derives under `program`.
pub open spec fn derives(label: Seq<u8>, program: Seq<u8>, identity: AuthorityIdentity) -> bool {
    found_program_address(label, program) == Some((identity.address@, identity.bump))
}

/// Derives the authority identity of `label` under the program `program_id`.
/// The result is the same on every call; it fails only where no bump gives a
/// valid program address.
pub fn derive_authority(label: &[u8], program_id: &Address) -> (r: Result<AuthorityIdentity, FaucetError>)
    ensures
        found_program_address(label@, program_id@).is_none() <==> r.is_err(),
        r.is_err() ==> r == Err::<AuthorityIdentity, FaucetError>(FaucetError::NoValidProof),
        r.is_ok() ==> derives(label@, program_id@, r.unwrap()),
        r.is_ok() ==> created_program_address(label@, r.unwrap().bump, program_id@) == Some(
            r.unwrap().address@,
        ),
        label@.len() > 32 ==> r.is_err(),
{
    match find_program_address(label, program_id) {
        Some((address, bump)) => Ok(AuthorityIdentity { address, bump }),
        None => Err(FaucetError::NoValidProof),
    }
}

/// The address on whose behalf the proof `bump` lets the program sign, given
/// the label: the one way to act as a derived identity.
pub fn signer_address(label: &[u8], bump: u8, program_id: &Address) -> (r: Option<Address>)
    ensures
        r.is_some() == created_program_address(label@, bump, program_id@).is_some(),
        r.is_some() ==> created_program_address(label@, bump, program_id@) == Some(r.unwrap()@),
{
    create_program_address(label, bump, program_id)
}

/// Recomputes the address from the label and the proof of `identity` and
/// tells whether it is the identity's address.
pub fn verify_identity(label: &[u8], identity: &AuthorityIdentity, program_id: &Address) -> (r: bool)
    ensures
        r == (created_program_address(label@, identity.bump, program_id@) == Some(
            identity.address@,
        )),
{
    match create_program_address(label, identity.bump, program_id) {
        Some(a) => a.same(&identity.address),
        None => false,
    }
}

} // verus!
