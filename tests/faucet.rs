use anchor_lang::prelude::Pubkey;
use token_faucet::address::Address;
use token_faucet::authority::{derive_authority, signer_address, verify_identity, AuthorityIdentity};
use token_faucet::error::FaucetError;
use token_faucet::faucet::{airdrop, claim, issue_airdrop, Airdrop, Claim, FaucetConfig};
use token_faucet::ledger::ClaimLedger;
use token_faucet::policy::DecimalsSource;
use token_faucet::token::{mint_to, transfer, Mint, TokenAccount};

const LABEL: &[u8] = b"Faucet Authority";

fn program() -> Address {
    Address::new([7u8; 32])
}

fn addr(b: u8) -> Address {
    Address::new([b; 32])
}

fn authority() -> AuthorityIdentity {
    derive_authority(LABEL, &program()).unwrap()
}

fn config(default_amount: u64) -> FaucetConfig {
    FaucetConfig {
        authority_label: LABEL.to_vec(),
        max_whole_tokens: 1000,
        decimals: DecimalsSource::FromAsset,
        default_amount,
    }
}

fn asset(authority: Option<Address>, decimals: u8) -> Mint {
    Mint { address: addr(1), mint_authority: authority, supply: 0, decimals }
}

fn holding(address: u8, owner: Address, amount: u64) -> TokenAccount {
    TokenAccount { address: addr(address), mint: addr(1), owner, amount }
}

fn claim_ctx(user: Address, reserve: u64) -> Claim {
    Claim {
        user,
        asset: asset(None, 6),
        user_token: holding(20, user, 0),
        faucet_token: holding(10, authority().address, reserve),
    }
}

#[test]
fn derivation_matches_find_program_address() {
    let id = authority();
    let (key, bump) = Pubkey::find_program_address(&[LABEL], &Pubkey::new_from_array([7u8; 32]));
    assert_eq!(id.address.bytes, key.to_bytes());
    assert_eq!(id.bump, bump);
    assert_ne!(id.address, program());
}

#[test]
fn derivation_is_stable() {
    assert_eq!(authority(), authority());
    assert!(verify_identity(LABEL, &authority(), &program()));
    assert_eq!(signer_address(LABEL, authority().bump, &program()), Some(authority().address));
}

#[test]
fn distinct_labels_give_distinct_identities() {
    let other = derive_authority(b"Vault Authority", &program()).unwrap();
    assert_ne!(other.address, authority().address);
    assert!(!verify_identity(b"Vault Authority", &authority(), &program()));
}

#[test]
fn forged_proof_is_not_verified() {
    let id = authority();
    let forged = AuthorityIdentity { address: id.address, bump: id.bump.wrapping_sub(1) };
    assert!(!verify_identity(LABEL, &forged, &program()));
}

#[test]
fn overlong_label_has_no_proof() {
    let label = [b'x'; 33];
    assert_eq!(derive_authority(&label, &program()), Err(FaucetError::NoValidProof));
    assert_eq!(signer_address(&label, 255, &program()), None);
}

#[test]
fn mint_to_raises_supply_and_balance() {
    let signer = addr(9);
    let mut mint = asset(Some(signer), 6);
    mint.supply = 50;
    let mut dest = holding(20, addr(3), 5);
    assert_eq!(mint_to(&mut mint, &mut dest, &signer, 100), Ok(()));
    assert_eq!(mint.supply, 150);
    assert_eq!(dest.amount, 105);
}

#[test]
fn mint_to_errors_change_nothing() {
    let signer = addr(9);
    let mut mint = asset(Some(signer), 6);
    let mut dest = holding(20, addr(3), 5);
    assert_eq!(mint_to(&mut mint, &mut dest, &addr(8), 1), Err(FaucetError::InsufficientAuthority));
    let mut no_authority = asset(None, 6);
    assert_eq!(mint_to(&mut no_authority, &mut dest, &signer, 1), Err(FaucetError::InsufficientAuthority));
    let mut foreign = dest;
    foreign.mint = addr(2);
    assert_eq!(mint_to(&mut mint, &mut foreign, &signer, 1), Err(FaucetError::MintMismatch));
    mint.supply = u64::MAX;
    assert_eq!(mint_to(&mut mint, &mut dest, &signer, 1), Err(FaucetError::Overflow));
    assert_eq!(mint.supply, u64::MAX);
    assert_eq!(dest.amount, 5);
}

#[test]
fn transfer_conserves_amount() {
    let owner = addr(9);
    let mut from = holding(10, owner, 100);
    let mut to = holding(20, addr(3), 7);
    assert_eq!(transfer(&mut from, &mut to, &owner, 40), Ok(()));
    assert_eq!(from.amount, 60);
    assert_eq!(to.amount, 47);
    assert_eq!(transfer(&mut from, &mut to, &owner, 60), Ok(()));
    assert_eq!(from.amount, 0);
    assert_eq!(to.amount, 107);
}

#[test]
fn transfer_errors_change_nothing() {
    let owner = addr(9);
    let mut from = holding(10, owner, 100);
    let mut to = holding(20, addr(3), 7);
    assert_eq!(transfer(&mut from, &mut to, &addr(8), 1), Err(FaucetError::InsufficientAuthority));
    assert_eq!(transfer(&mut from, &mut to, &owner, 101), Err(FaucetError::InsufficientFunds));
    let mut foreign = to;
    foreign.mint = addr(2);
    assert_eq!(transfer(&mut from, &mut foreign, &owner, 1), Err(FaucetError::MintMismatch));
    let mut full = holding(20, addr(3), u64::MAX);
    assert_eq!(transfer(&mut from, &mut full, &owner, 1), Err(FaucetError::Overflow));
    assert_eq!(from.amount, 100);
    assert_eq!(to.amount, 7);
    assert_eq!(full.amount, u64::MAX);
}

#[test]
fn marker_is_created_once() {
    let mut ledger = ClaimLedger::new();
    assert_eq!(ledger.len(), 0);
    assert!(!ledger.has_claimed(&addr(3), &addr(1)));
    assert_eq!(ledger.create_marker(&addr(3), &addr(1)), Ok(()));
    assert!(ledger.has_claimed(&addr(3), &addr(1)));
    assert_eq!(ledger.create_marker(&addr(3), &addr(1)), Err(FaucetError::AlreadyClaimed));
    assert_eq!(ledger.create_marker(&addr(3), &addr(2)), Ok(()));
    assert_eq!(ledger.create_marker(&addr(4), &addr(1)), Ok(()));
    assert_eq!(ledger.len(), 3);
}

#[test]
fn airdrop_of_fixed_amount() {
    let mut ctx = Airdrop { user_token_account: holding(20, addr(3), 0), mint: asset(Some(authority().address), 6) };
    assert_eq!(airdrop(&program(), &config(100_000_000), &mut ctx, None), Ok(()));
    assert_eq!(ctx.user_token_account.amount, 100_000_000);
    assert_eq!(ctx.mint.supply, 100_000_000);
}

#[test]
fn airdrop_at_and_above_ceiling() {
    let mut ctx = Airdrop { user_token_account: holding(20, addr(3), 0), mint: asset(Some(authority().address), 6) };
    assert_eq!(
        airdrop(&program(), &config(0), &mut ctx, Some(1_000_000_001)),
        Err(FaucetError::AmountExceedsPolicy)
    );
    assert_eq!(ctx.user_token_account.amount, 0);
    assert_eq!(airdrop(&program(), &config(0), &mut ctx, Some(1_000_000_000)), Ok(()));
    assert_eq!(ctx.user_token_account.amount, 1_000_000_000);
    assert_eq!(ctx.mint.supply, 1_000_000_000);
}

#[test]
fn airdrop_with_fixed_decimals() {
    let mut cfg = config(0);
    cfg.decimals = DecimalsSource::Fixed(9);
    let mut ctx = Airdrop { user_token_account: holding(20, addr(3), 0), mint: asset(Some(authority().address), 6) };
    assert_eq!(airdrop(&program(), &cfg, &mut ctx, Some(1_000_000_000_000)), Ok(()));
    assert_eq!(
        airdrop(&program(), &cfg, &mut ctx, Some(1_000_000_000_001)),
        Err(FaucetError::AmountExceedsPolicy)
    );
}

#[test]
fn airdrop_on_foreign_mint_is_refused() {
    let mut ctx = Airdrop { user_token_account: holding(20, addr(3), 0), mint: asset(Some(addr(9)), 6) };
    assert_eq!(airdrop(&program(), &config(100), &mut ctx, None), Err(FaucetError::InsufficientAuthority));
    assert_eq!(ctx.mint.supply, 0);
    assert_eq!(ctx.user_token_account.amount, 0);
}

#[test]
fn issue_airdrop_with_given_signer() {
    let signer = addr(9);
    let mut ctx = Airdrop { user_token_account: holding(20, addr(3), 0), mint: asset(Some(signer), 6) };
    assert_eq!(issue_airdrop(&config(0), &signer, &mut ctx, 25), Ok(()));
    assert_eq!(ctx.user_token_account.amount, 25);
    assert_eq!(issue_airdrop(&config(0), &addr(8), &mut ctx, 25), Err(FaucetError::InsufficientAuthority));
}

#[test]
fn claim_scenario_once_per_user_and_asset() {
    let user = addr(3);
    let mut ledger = ClaimLedger::new();
    let mut ctx = claim_ctx(user, 10_000_000);
    assert_eq!(claim(&program(), &config(0), &mut ledger, &mut ctx, Some(5_000_000)), Ok(()));
    assert_eq!(ctx.faucet_token.amount, 5_000_000);
    assert_eq!(ctx.user_token.amount, 5_000_000);
    assert!(ledger.has_claimed(&user, &addr(1)));
    assert_eq!(
        claim(&program(), &config(0), &mut ledger, &mut ctx, Some(1)),
        Err(FaucetError::AlreadyClaimed)
    );
    assert_eq!(ctx.faucet_token.amount, 5_000_000);
}

#[test]
fn repeat_claim_denied_for_any_amount_or_holding() {
    let user = addr(3);
    let mut ledger = ClaimLedger::new();
    let mut ctx = claim_ctx(user, 10_000_000);
    assert_eq!(claim(&program(), &config(0), &mut ledger, &mut ctx, Some(5)), Ok(()));
    let mut other = claim_ctx(user, 10_000_000);
    other.user_token.address = addr(21);
    for amount in [0u64, 5, 2_000_000_000] {
        assert_eq!(
            claim(&program(), &config(0), &mut ledger, &mut other, Some(amount)),
            Err(FaucetError::AlreadyClaimed)
        );
    }
    assert_eq!(other.user_token.amount, 0);
    assert_eq!(ledger.len(), 1);
    let mut second_user = claim_ctx(addr(4), 10_000_000);
    assert_eq!(claim(&program(), &config(0), &mut ledger, &mut second_user, Some(5)), Ok(()));
    assert_eq!(ledger.len(), 2);
}

#[test]
fn underfunded_claim_leaves_no_marker() {
    let user = addr(3);
    let mut ledger = ClaimLedger::new();
    let mut ctx = claim_ctx(user, 1_000);
    assert_eq!(
        claim(&program(), &config(0), &mut ledger, &mut ctx, Some(5_000)),
        Err(FaucetError::InsufficientFunds)
    );
    assert!(!ledger.has_claimed(&user, &addr(1)));
    assert_eq!(ledger.len(), 0);
    assert_eq!(claim(&program(), &config(0), &mut ledger, &mut ctx, Some(1_000)), Ok(()));
    assert_eq!(ctx.faucet_token.amount, 0);
    assert_eq!(ctx.user_token.amount, 1_000);
}

#[test]
fn claim_of_default_amount() {
    let mut ledger = ClaimLedger::new();
    let mut ctx = claim_ctx(addr(3), 10_000_000);
    assert_eq!(claim(&program(), &config(2_500_000), &mut ledger, &mut ctx, None), Ok(()));
    assert_eq!(ctx.user_token.amount, 2_500_000);
}

#[test]
fn claim_over_policy_is_refused() {
    let mut ledger = ClaimLedger::new();
    let mut ctx = claim_ctx(addr(3), u64::MAX);
    assert_eq!(
        claim(&program(), &config(0), &mut ledger, &mut ctx, Some(1_000_000_001)),
        Err(FaucetError::AmountExceedsPolicy)
    );
    assert_eq!(ledger.len(), 0);
}

#[test]
fn claim_from_foreign_reserve_is_refused() {
    let mut ledger = ClaimLedger::new();
    let mut ctx = claim_ctx(addr(3), 10_000_000);
    ctx.faucet_token.owner = addr(9);
    assert_eq!(
        claim(&program(), &config(0), &mut ledger, &mut ctx, Some(5)),
        Err(FaucetError::InsufficientAuthority)
    );
    assert_eq!(ctx.faucet_token.amount, 10_000_000);
    assert_eq!(ledger.len(), 0);
}

#[test]
fn claim_into_holding_of_someone_else_is_refused() {
    let mut ledger = ClaimLedger::new();
    let mut ctx = claim_ctx(addr(3), 10_000_000);
    ctx.user_token.owner = addr(4);
    assert_eq!(
        claim(&program(), &config(0), &mut ledger, &mut ctx, Some(5)),
        Err(FaucetError::DestinationNotOwned)
    );
}

#[test]
fn claim_into_holding_of_other_asset_is_refused() {
    let mut ledger = ClaimLedger::new();
    let mut ctx = claim_ctx(addr(3), 10_000_000);
    ctx.user_token.mint = addr(2);
    assert_eq!(
        claim(&program(), &config(0), &mut ledger, &mut ctx, Some(5)),
        Err(FaucetError::MintMismatch)
    );
}

#[test]
fn claim_with_overlong_label_has_no_proof() {
    let mut ledger = ClaimLedger::new();
    let mut ctx = claim_ctx(addr(3), 10_000_000);
    let mut cfg = config(0);
    cfg.authority_label = vec![b'x'; 40];
    assert_eq!(claim(&program(), &cfg, &mut ledger, &mut ctx, Some(5)), Err(FaucetError::NoValidProof));
}
