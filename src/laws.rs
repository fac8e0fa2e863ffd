use vstd::prelude::*;
use crate::authority::found_program_address;
use crate::error::FaucetError;
use crate::faucet::{airdrop_result, allowed, claim_key, claim_result, Airdrop, Claim, FaucetConfig};
use crate::policy::{ceiling, decimals_in_force, within_policy};
use crate::token::{is_mint_authority, mint_to_result, transfer_result};

verus! {

/// The amount policy is inclusive: the ceiling itself is allowed and one base
/// unit more is not.
pub proof fn policy_boundary(decimals: u8, whole_tokens: u64)
    requires
        ceiling(decimals, whole_tokens) < u64::MAX,
    ensures
        within_policy(ceiling(decimals, whole_tokens) as u64, decimals, whole_tokens),
        !within_policy((ceiling(decimals, whole_tokens) + 1) as u64, decimals, whole_tokens),
{
}

/// An airdrop or a claim succeeds only within the amount policy; at the
/// ceiling the policy lets it through to the issuance, and one base unit above
/// the ceiling it fails with `AmountExceedsPolicy` (a claim: where the
/// requester has not claimed the asset yet).
pub proof fn issuance_bounded_by_policy(
    config: FaucetConfig,
    program: Seq<u8>,
    ctx: Airdrop,
    claimed: Set<(Seq<u8>, Seq<u8>)>,
    claim_ctx: Claim,
    amount: u64,
)
    ensures
        airdrop_result(config, program, ctx, amount) is Ok ==> allowed(config, ctx.mint, amount),
        claim_result(config, program, claimed, claim_ctx, amount) is Ok ==> allowed(
            config,
            claim_ctx.asset,
            amount,
        ),
        ({
            let c = ceiling(decimals_in_force(config.decimals, ctx.mint.decimals), config.max_whole_tokens);
            found_program_address(config.authority_label@, program) is Some && c < u64::MAX ==> {
                &&& airdrop_result(config, program, ctx, c as u64) == mint_to_result(
                    ctx.mint,
                    ctx.user_token_account,
                    found_program_address(config.authority_label@, program).unwrap().0,
                    c as u64,
                )
                &&& airdrop_result(config, program, ctx, (c + 1) as u64) == Err::<(), FaucetError>(
                    FaucetError::AmountExceedsPolicy,
                )
            }
        }),
        ({
            let c = ceiling(decimals_in_force(config.decimals, claim_ctx.asset.decimals), config.max_whole_tokens);
            found_program_address(config.authority_label@, program) is Some && c < u64::MAX
                && !claimed.contains(claim_key(claim_ctx)) ==> {
                &&& claim_result(config, program, claimed, claim_ctx, c as u64) != Err::<(), FaucetError>(
                    FaucetError::AmountExceedsPolicy,
                )
                &&& claim_result(config, program, claimed, claim_ctx, (c + 1) as u64) == Err::<(), FaucetError>(
                    FaucetError::AmountExceedsPolicy,
                )
            }
        }),
{
    let d = decimals_in_force(config.decimals, ctx.mint.decimals);
    if ceiling(d, config.max_whole_tokens) < u64::MAX {
        policy_boundary(d, config.max_whole_tokens);
    }
    let e = decimals_in_force(config.decimals, claim_ctx.asset.decimals);
    if ceiling(e, config.max_whole_tokens) < u64::MAX {
        policy_boundary(e, config.max_whole_tokens);
    }
}

/// Once a claim for a requester and an asset has succeeded, every later claim
/// for that pair fails with `AlreadyClaimed`, whatever its amount and
/// holdings, against any ledger that kept the markers and gained the new one.
pub proof fn repeat_claim_denied(
    config: FaucetConfig,
    program: Seq<u8>,
    claimed: Set<(Seq<u8>, Seq<u8>)>,
    first: Claim,
    first_amount: u64,
    later_claimed: Set<(Seq<u8>, Seq<u8>)>,
    second: Claim,
    second_amount: u64,
)
    requires
        claim_result(config, program, claimed, first, first_amount) is Ok,
        claimed.insert(claim_key(first)).subset_of(later_claimed),
        claim_key(second) == claim_key(first),
    ensures
        claim_result(config, program, later_claimed, second, second_amount) == Err::<(), FaucetError>(
            FaucetError::AlreadyClaimed,
        ),
{
    assert(claimed.insert(claim_key(first)).contains(claim_key(first)));
}

/// A claim that failed for want of funds left no marker behind: against the
/// same ledger, the same claim for an amount that the policy allows, the
/// reserve covers and the destination can hold succeeds.
pub proof fn failed_claim_can_be_retried(
    config: FaucetConfig,
    program: Seq<u8>,
    claimed: Set<(Seq<u8>, Seq<u8>)>,
    ctx: Claim,
    failed_amount: u64,
    amount: u64,
)
    requires
        claim_result(config, program, claimed, ctx, failed_amount) == Err::<(), FaucetError>(
            FaucetError::InsufficientFunds,
        ),
        allowed(config, ctx.asset, amount),
        amount <= ctx.faucet_token.amount,
        ctx.user_token.amount + amount <= u64::MAX,
    ensures
        claim_result(config, program, claimed, ctx, amount) == Ok::<(), FaucetError>(()),
{
}

/// The identity derived from the configured label never authorizes issuance
/// from an asset or a reserve configured with another authority: no such
/// request succeeds, and within the policy (for a claim: also on a fresh key
/// and a matching destination) it fails with `InsufficientAuthority`.
pub proof fn authority_isolation(
    config: FaucetConfig,
    program: Seq<u8>,
    ctx: Airdrop,
    claimed: Set<(Seq<u8>, Seq<u8>)>,
    claim_ctx: Claim,
    amount: u64,
)
    requires
        found_program_address(config.authority_label@, program) is Some,
    ensures
        ({
            let signer = found_program_address(config.authority_label@, program).unwrap().0;
            !is_mint_authority(ctx.mint, signer) ==> {
                &&& airdrop_result(config, program, ctx, amount) is Err
                &&& allowed(config, ctx.mint, amount) ==> airdrop_result(config, program, ctx, amount)
                    == Err::<(), FaucetError>(FaucetError::InsufficientAuthority)
            }
        }),
        ({
            let signer = found_program_address(config.authority_label@, program).unwrap().0;
            claim_ctx.faucet_token.owner@ != signer ==> {
                &&& claim_result(config, program, claimed, claim_ctx, amount) is Err
                &&& !claimed.contains(claim_key(claim_ctx)) && allowed(config, claim_ctx.asset, amount)
                    && claim_ctx.user_token.owner@ == claim_ctx.user@
                    && claim_ctx.user_token.mint@ == claim_ctx.asset.address@
                    ==> claim_result(config, program, claimed, claim_ctx, amount)
                    == Err::<(), FaucetError>(FaucetError::InsufficientAuthority)
            }
        }),
{
    let signer = found_program_address(config.authority_label@, program).unwrap().0;
    assert(transfer_result(claim_ctx.faucet_token, claim_ctx.user_token, signer, amount) is Err
        || claim_ctx.faucet_token.owner@ == signer);
}

} // verus!
