//! The fixed 5% tax split on a transfer amount.

use vstd::prelude::*;

verus! {

/// The fixed tax rate, in percent. It is a constant of the system, not
/// configurable.
pub const TAX_RATE: u64 = 5;

/// The divisor that turns the rate into a fraction of the amount.
pub const TAX_DIVISOR: u64 = 100;

/// The tax taken from `amount`: `floor(amount * 5 / 100)`, truncating
/// toward zero.
pub open spec fn tax_of(amount: u64) -> int {
    amount * (TAX_RATE as int) / (TAX_DIVISOR as int)
}

/// What the recipient receives: the amount less the tax.
pub open spec fn transfer_of(amount: u64) -> int {
    amount - tax_of(amount)
}

/// No value is created or destroyed by the split: the tax is at most the
/// amount, and tax plus remainder give back the amount exactly.
pub proof fn lemma_tax_split(amount: u64)
    ensures
        0 <= tax_of(amount) <= amount,
        tax_of(amount) + transfer_of(amount) == amount,
{
    let x = amount * TAX_RATE;
    vstd::arithmetic::div_mod::lemma_fundamental_div_mod(x as int, TAX_DIVISOR as int);
    vstd::arithmetic::div_mod::lemma_mod_bound(x as int, TAX_DIVISOR as int);
}

/// Splits `amount` into the tax and the remainder for the recipient.
///
/// The widened multiplication cannot overflow and the tax never exceeds the
/// amount, so the split is exact for every `u64` amount.
pub fn split_amount(amount: u64) -> (r: (u64, u64))
    ensures
        r.0 == tax_of(amount),
        r.1 == transfer_of(amount),
        r.0 + r.1 == amount,
{
    proof {
        lemma_tax_split(amount);
    }
    let tax_wide: u128 = (amount as u128) * (TAX_RATE as u128) / (TAX_DIVISOR as u128);
    let tax: u64 = tax_wide as u64;
    let rest: u64 = amount - tax;
    (tax, rest)
}

} // verus!
