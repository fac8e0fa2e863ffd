use vstd::prelude::*;
use crate::address::Address;
use crate::error::FaucetError;

verus! {

/// An asset: its address, the identity allowed to mint it, its total supply
/// and its divisibility.
#[derive(Debug, Clone, Copy, PartialEq, Eq)]
pub struct Mint {
    pub address: Address,
    pub mint_authority: Option<Address>,
    pub supply: u64,
    pub decimals: u8,
}

/// A holding of one asset, controlled by its owner.
#[derive(Debug, Clone, Copy, PartialEq, Eq)]
pub struct TokenAccount {
    pub address: Address,
    pub mint: Address,
    pub owner: Address,
    pub amount: u64,
}

/// Whether `signer` is the mint authority of `mint`.
pub open spec fn is_mint_authority(mint: Mint, signer: Seq<u8>) -> bool {
    mint.mint_authority.is_some() && mint.mint_authority.unwrap()@ == signer
}

/// The outcome of minting `amount` of `mint` into `dest`, signed by `signer`.
pub open spec fn mint_to_result(mint: Mint, dest: TokenAccount, signer: Seq<u8>, amount: u64) -> Result<(), FaucetError> {
    if !is_mint_authority(mint, signer) {
        Err(FaucetError::InsufficientAuthority)
    } else if dest.mint@ != mint.address@ {
        Err(FaucetError::MintMismatch)
    } else if mint.supply + amount > u64::MAX || dest.amount + amount > u64::MAX {
        Err(FaucetError::Overflow)
    } else {
        Ok(())
    }
}

/// The outcome of moving `amount` from `from` to `to`, signed by `signer`.
pub open spec fn transfer_result(from: TokenAccount, to: TokenAccount, signer: Seq<u8>, amount: u64) -> Result<(), FaucetError> {
    if from.owner@ != signer {
        Err(FaucetError::InsufficientAuthority)
    } else if to.mint@ != from.mint@ {
        Err(FaucetError::MintMismatch)
    } else if from.amount < amount {
        Err(FaucetError::InsufficientFunds)
    } else if to.amount + amount > u64::MAX {
        Err(FaucetError::Overflow)
    } else {
        Ok(())
    }
}

/// Mint flavour of issuance: raises the supply of `mint` and the balance of
/// `dest` by `amount`, where `signer` is the mint authority. On failure
/// nothing changes.
pub fn mint_to(mint: &mut Mint, dest: &mut TokenAccount, signer: &Address, amount: u64) -> (r: Result<(), FaucetError>)
    ensures
        r == mint_to_result(*old(mint), *old(dest), signer@, amount),
        r.is_ok() ==> *final(mint) == (Mint { supply: (old(mint).supply + amount) as u64, ..*old(mint) }),
        r.is_ok() ==> *final(dest) == (TokenAccount { amount: (old(dest).amount + amount) as u64, ..*old(dest) }),
        r.is_err() ==> *final(mint) == *old(mint) && *final(dest) == *old(dest),
{
    let authorized = match &mint.mint_authority {
        Some(a) => a.same(signer),
        None => false,
    };
    if !authorized {
        return Err(FaucetError::InsufficientAuthority);
    }
    if !dest.mint.same(&mint.address) {
        return Err(FaucetError::MintMismatch);
    }
    if mint.supply > u64::MAX - amount || dest.amount > u64::MAX - amount {
        return Err(FaucetError::Overflow);
    }
    mint.supply = mint.supply + amount;
    dest.amount = dest.amount + amount;
    Ok(())
}

/// Transfer flavour of issuance: moves `amount` from `from` to `to`, where
/// `signer` owns `from`. On failure nothing changes.
pub fn transfer(from: &mut TokenAccount, to: &mut TokenAccount, signer: &Address, amount: u64) -> (r: Result<(), FaucetError>)
    ensures
        r == transfer_result(*old(from), *old(to), signer@, amount),
        r.is_ok() ==> *final(from) == (TokenAccount { amount: (old(from).amount - amount) as u64, ..*old(from) }),
        r.is_ok() ==> *final(to) == (TokenAccount { amount: (old(to).amount + amount) as u64, ..*old(to) }),
        r.is_err() ==> *final(from) == *old(from) && *final(to) == *old(to),
{
    if !from.owner.same(signer) {
        return Err(FaucetError::InsufficientAuthority);
    }
    if !to.mint.same(&from.mint) {
        return Err(FaucetError::MintMismatch);
    }
    if from.amount < amount {
        return Err(FaucetError::InsufficientFunds);
    }
    if to.amount > u64::MAX - amount {
        return Err(FaucetError::Overflow);
    }
    from.amount = from.amount - amount;
    to.amount = to.amount + amount;
    Ok(())
}

} // verus!
