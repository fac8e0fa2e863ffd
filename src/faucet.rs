use vstd::prelude::*;
use crate::address::Address;
use crate::authority::{derive_authority, found_program_address, signer_address};
use crate::error::FaucetError;
use crate::ledger::ClaimLedger;
use crate::policy::{check_amount, decimals_in_force, within_policy, DecimalsSource};
use crate::token::{mint_to, mint_to_result, transfer, transfer_result, Mint, TokenAccount};

verus! {

/// The faucet's fixed configuration: the label its authority is derived
/// from, the ceiling in whole tokens, where the decimals come from, and the
/// amount issued when a request names none.
#[derive(Debug)]
pub struct FaucetConfig {
    pub authority_label: Vec<u8>,
    pub max_whole_tokens: u64,
    pub decimals: DecimalsSource,
    pub default_amount: u64,
}

/// The holdings an airdrop touches: the asset, minted by the faucet's
/// authority, and the destination holding.
#[derive(Debug, Clone, Copy, PartialEq, Eq)]
pub struct Airdrop {
    pub user_token_account: TokenAccount,
    pub mint: Mint,
}

/// What a claim touches: the requester, the asset, the requester's holding
/// and the reserve holding owned by the faucet's authority.
#[derive(Debug, Clone, Copy, PartialEq, Eq)]
pub struct Claim {
    pub user: Address,
    pub asset: Mint,
    pub user_token: TokenAccount,
    pub faucet_token: TokenAccount,
}

/// The amount a request stands for.
pub open spec fn requested_amount(config: FaucetConfig, requested: Option<u64>) -> u64 {
    match requested {
        Some(a) => a,
        None => config.default_amount,
    }
}

/// Whether `amount` of `asset` is within the policy of `config`.
pub open spec fn allowed(config: FaucetConfig, asset: Mint, amount: u64) -> bool {
    within_policy(amount, decimals_in_force(config.decimals, asset.decimals), config.max_whole_tokens)
}

/// The outcome of an airdrop of `amount` signed by the identity at `signer`.
pub open spec fn issue_airdrop_result(config: FaucetConfig, signer: Seq<u8>, ctx: Airdrop, amount: u64) -> Result<(), FaucetError> {
    if !allowed(config, ctx.mint, amount) {
        Err(FaucetError::AmountExceedsPolicy)
    } else {
        mint_to_result(ctx.mint, ctx.user_token_account, signer, amount)
    }
}

/// The outcome of an airdrop of `amount` by the faucet of `program`.
pub open spec fn airdrop_result(config: FaucetConfig, program: Seq<u8>, ctx: Airdrop, amount: u64) -> Result<(), FaucetError> {
    match found_program_address(config.authority_label@, program) {
        None => Err(FaucetError::NoValidProof),
        Some((signer, _)) => issue_airdrop_result(config, signer, ctx, amount),
    }
}

/// The key of the marker a claim creates.
pub open spec fn claim_key(ctx: Claim) -> (Seq<u8>, Seq<u8>) {
    (ctx.user@, ctx.asset.address@)
}

/// The outcome of a claim of `amount` signed by the identity at `signer`,
/// against the markers `claimed`.
pub open spec fn issue_claim_result(
    config: FaucetConfig,
    signer: Seq<u8>,
    claimed: Set<(Seq<u8>, Seq<u8>)>,
    ctx: Claim,
    amount: u64,
) -> Result<(), FaucetError> {
    if claimed.contains(claim_key(ctx)) {
        Err(FaucetError::AlreadyClaimed)
    } else if !allowed(config, ctx.asset, amount) {
        Err(FaucetError::AmountExceedsPolicy)
    } else if ctx.user_token.owner@ != ctx.user@ {
        Err(FaucetError::DestinationNotOwned)
    } else if ctx.user_token.mint@ != ctx.asset.address@ {
        Err(FaucetError::MintMismatch)
    } else {
        transfer_result(ctx.faucet_token, ctx.user_token, signer, amount)
    }
}

/// The outcome of a claim of `amount` from the faucet of `program`.
pub open spec fn claim_result(
    config: FaucetConfig,
    program: Seq<u8>,
    claimed: Set<(Seq<u8>, Seq<u8>)>,
    ctx: Claim,
    amount: u64,
) -> Result<(), FaucetError> {
    match found_program_address(config.authority_label@, program) {
        None => Err(FaucetError::NoValidProof),
        Some((signer, _)) => issue_claim_result(config, signer, claimed, ctx, amount),
    }
}

/// Checks the amount policy, then mints `amount` into the destination,
/// signed by the identity at `signer`. On failure nothing changes.
pub fn issue_airdrop(config: &FaucetConfig, signer: &Address, ctx: &mut Airdrop, amount: u64) -> (r: Result<(), FaucetError>)
    ensures
        r == issue_airdrop_result(*config, signer@, *old(ctx), amount),
        r.is_ok() ==> final(ctx).mint == (Mint { supply: (old(ctx).mint.supply + amount) as u64, ..old(ctx).mint }),
        r.is_ok() ==> final(ctx).user_token_account == (TokenAccount {
            amount: (old(ctx).user_token_account.amount + amount) as u64,
            ..old(ctx).user_token_account
        }),
        r.is_err() ==> *final(ctx) == *old(ctx),
{
    let decimals = match config.decimals {
        DecimalsSource::FromAsset => ctx.mint.decimals,
        DecimalsSource::Fixed(d) => d,
    };
    if let Err(e) = check_amount(amount, decimals, config.max_whole_tokens) {
        return Err(e);
    }
    mint_to(&mut ctx.mint, &mut ctx.user_token_account, signer, amount)
}

/// Mints the requested amount (the configured default where none is named)
/// into the destination, authorized by the identity derived from the
/// configured label under `program_id`. On failure nothing changes.
pub fn airdrop(program_id: &Address, config: &FaucetConfig, ctx: &mut Airdrop, requested: Option<u64>) -> (r: Result<(), FaucetError>)
    ensures
        r == airdrop_result(*config, program_id@, *old(ctx), requested_amount(*config, requested)),
        r.is_ok() ==> final(ctx).mint == (Mint {
            supply: (old(ctx).mint.supply + requested_amount(*config, requested)) as u64,
            ..old(ctx).mint
        }),
        r.is_ok() ==> final(ctx).user_token_account == (TokenAccount {
            amount: (old(ctx).user_token_account.amount + requested_amount(*config, requested)) as u64,
            ..old(ctx).user_token_account
        }),
        r.is_err() ==> *final(ctx) == *old(ctx),
{
    let amount = match requested {
        Some(a) => a,
        None => config.default_amount,
    };
    let identity = match derive_authority(config.authority_label.as_slice(), program_id) {
        Ok(i) => i,
        Err(e) => {
            return Err(e);
        },
    };
    let signer = match signer_address(config.authority_label.as_slice(), identity.bump, program_id) {
        Some(s) => s,
        None => {
            return Err(FaucetError::InsufficientAuthority);
        },
    };
    issue_airdrop(config, &signer, ctx, amount)
}

/// Claims `amount` for the requester out of the reserve, signed by the
/// identity at `signer`: fails with `AlreadyClaimed` where the requester has
/// claimed the asset before, and otherwise checks the policy and the
/// holdings, moves the tokens and creates the marker together. On failure
/// nothing changes.
pub fn issue_claim(
    config: &FaucetConfig,
    signer: &Address,
    ledger: &mut ClaimLedger,
    ctx: &mut Claim,
    amount: u64,
) -> (r: Result<(), FaucetError>)
    requires
        old(ledger).wf(),
    ensures
        final(ledger).wf(),
        r == issue_claim_result(*config, signer@, old(ledger)@, *old(ctx), amount),
        r.is_ok() ==> final(ledger)@ == old(ledger)@.insert(claim_key(*old(ctx))),
        r.is_ok() ==> *final(ctx) == (Claim {
            faucet_token: TokenAccount {
                amount: (old(ctx).faucet_token.amount - amount) as u64,
                ..old(ctx).faucet_token
            },
            user_token: TokenAccount {
                amount: (old(ctx).user_token.amount + amount) as u64,
                ..old(ctx).user_token
            },
            ..*old(ctx)
        }),
        r.is_err() ==> final(ledger)@ == old(ledger)@ && *final(ctx) == *old(ctx),
{
    if ledger.has_claimed(&ctx.user, &ctx.asset.address) {
        return Err(FaucetError::AlreadyClaimed);
    }
    let decimals = match config.decimals {
        DecimalsSource::FromAsset => ctx.asset.decimals,
        DecimalsSource::Fixed(d) => d,
    };
    if let Err(e) = check_amount(amount, decimals, config.max_whole_tokens) {
        return Err(e);
    }
    if !ctx.user_token.owner.same(&ctx.user) {
        return Err(FaucetError::DestinationNotOwned);
    }
    if !ctx.user_token.mint.same(&ctx.asset.address) {
        return Err(FaucetError::MintMismatch);
    }
    if let Err(e) = transfer(&mut ctx.faucet_token, &mut ctx.user_token, signer, amount) {
        return Err(e);
    }
    match ledger.create_marker(&ctx.user, &ctx.asset.address) {
        Ok(()) => Ok(()),
        Err(e) => Err(e),
    }
}

/// Claims the requested amount (the configured default where none is named)
/// for the requester, once per requester and asset, authorized by the
/// identity derived from the configured label under `program_id`. On failure
/// nothing changes, the ledger included.
pub fn claim(
    program_id: &Address,
    config: &FaucetConfig,
    ledger: &mut ClaimLedger,
    ctx: &mut Claim,
    requested: Option<u64>,
) -> (r: Result<(), FaucetError>)
    requires
        old(ledger).wf(),
    ensures
        final(ledger).wf(),
        r == claim_result(*config, program_id@, old(ledger)@, *old(ctx), requested_amount(*config, requested)),
        r.is_ok() ==> final(ledger)@ == old(ledger)@.insert(claim_key(*old(ctx))),
        r.is_ok() ==> *final(ctx) == (Claim {
            faucet_token: TokenAccount {
                amount: (old(ctx).faucet_token.amount - requested_amount(*config, requested)) as u64,
                ..old(ctx).faucet_token
            },
            user_token: TokenAccount {
                amount: (old(ctx).user_token.amount + requested_amount(*config, requested)) as u64,
                ..old(ctx).user_token
            },
            ..*old(ctx)
        }),
        r.is_err() ==> final(ledger)@ == old(ledger)@ && *final(ctx) == *old(ctx),
{
    let amount = match requested {
        Some(a) => a,
        None => config.default_amount,
    };
    let identity = match derive_authority(config.authority_label.as_slice(), program_id) {
        Ok(i) => i,
        Err(e) => {
            return Err(e);
        },
    };
    let signer = match signer_address(config.authority_label.as_slice(), identity.bump, program_id) {
        Some(s) => s,
        None => {
            return Err(FaucetError::InsufficientAuthority);
        },
    };
    issue_claim(config, &signer, ledger, ctx, amount)
}

} // verus!
