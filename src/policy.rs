use vstd::prelude::*;
use crate::error::FaucetError;

verus! {

/// `10^d`.
pub open spec fn pow10(d: nat) -> nat
    decreases d,
{
    if d == 0 {
        1
    } else {
        10 * pow10((d - 1) as nat)
    }
}

/// The most an asset of `decimals` decimals may issue at once, in base units,
/// when the policy allows `whole_tokens` whole tokens.
pub open spec fn ceiling(decimals: u8, whole_tokens: u64) -> int {
    pow10(decimals as nat) * whole_tokens
}

/// Whether `amount` base units are within the policy.
pub open spec fn within_policy(amount: u64, decimals: u8, whole_tokens: u64) -> bool {
    amount <= ceiling(decimals, whole_tokens)
}

pub proof fn lemma_pow10_positive(d: nat)
    ensures
        pow10(d) >= 1,
    decreases d,
{
    if d > 0 {
        lemma_pow10_positive((d - 1) as nat);
    }
}

pub proof fn lemma_pow10_add(a: nat, b: nat)
    ensures
        pow10(a + b) == pow10(a) * pow10(b),
    decreases b,
{
    if b == 0 {
        assert(pow10(0) == 1);
    } else {
        lemma_pow10_add(a, (b - 1) as nat);
        assert((a + b - 1) as nat == a + (b - 1) as nat);
        assert(pow10(a + b) == 10 * pow10((a + b - 1) as nat));
        assert(pow10(a) * pow10(b) == pow10(a) * (10 * pow10((b - 1) as nat)));
        assert(pow10(a) * (10 * pow10((b - 1) as nat)) == 10 * (pow10(a) * pow10((b - 1) as nat)))
            by (nonlinear_arith);
    }
}

/// The ceiling in base units, or `None` where it does not fit in `u64`.
pub fn amount_ceiling(decimals: u8, whole_tokens: u64) -> (r: Option<u64>)
    ensures
        r.is_some() <==> ceiling(decimals, whole_tokens) <= u64::MAX,
        r.is_some() ==> r.unwrap() == ceiling(decimals, whole_tokens),
{
    let mut c: u64 = whole_tokens;
    let mut i: u8 = 0;
    assert(pow10(0) == 1);
    while i < decimals
        invariant
            i <= decimals,
            c == pow10(i as nat) * whole_tokens,
        decreases decimals - i,
    {
        match c.checked_mul(10) {
            Some(n) => {
                proof {
                    assert(pow10((i + 1) as nat) == 10 * pow10(i as nat));
                    assert(10 * (pow10(i as nat) * whole_tokens) == (10 * pow10(i as nat))
                        * whole_tokens) by (nonlinear_arith);
                }
                c = n;
            },
            None => {
                proof {
                    let rest = (decimals - i - 1) as nat;
                    lemma_pow10_add((i + 1) as nat, rest);
                    lemma_pow10_positive(rest);
                    assert(pow10((i + 1) as nat) == 10 * pow10(i as nat));
                    let p = pow10((i + 1) as nat);
                    let q = pow10(rest);
                    assert(p * whole_tokens == 10 * (c as int)) by (nonlinear_arith)
                        requires
                            p == 10 * pow10(i as nat),
                            c == pow10(i as nat) * whole_tokens,
                    ;
                    assert((p * q) * whole_tokens >= p * whole_tokens) by (nonlinear_arith)
                        requires
                            q >= 1,
                            p >= 0,
                    ;
                    assert((i + 1) as nat + rest == decimals as nat);
                }
                return None;
            },
        }
        i = i + 1;
    }
    Some(c)
}

/// Where the divisibility of an asset is taken from.
#[derive(Debug, Clone, Copy, PartialEq, Eq, Structural)]
pub enum DecimalsSource {
    /// The asset's own decimals field.
    FromAsset,
    /// A fixed number of decimals, whatever the asset says.
    Fixed(u8),
}

/// The decimals that apply to an asset whose own field reads `asset_decimals`.
pub open spec fn decimals_in_force(source: DecimalsSource, asset_decimals: u8) -> u8 {
    match source {
        DecimalsSource::FromAsset => asset_decimals,
        DecimalsSource::Fixed(d) => d,
    }
}

/// The guard of the amount policy: `Ok` exactly when `amount` is at most
/// `10^decimals * whole_tokens`. A ceiling beyond `u64` admits every amount.
pub fn check_amount(amount: u64, decimals: u8, whole_tokens: u64) -> (r: Result<(), FaucetError>)
    ensures
        r.is_ok() <==> within_policy(amount, decimals, whole_tokens),
        r.is_err() ==> r == Err::<(), FaucetError>(FaucetError::AmountExceedsPolicy),
{
    match amount_ceiling(decimals, whole_tokens) {
        Some(c) => {
            if amount <= c {
                Ok(())
            } else {
                Err(FaucetError::AmountExceedsPolicy)
            }
        },
        None => Ok(()),
    }
}

} // verus!
