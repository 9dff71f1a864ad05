//! Planning a taxed transfer: validation, the 5% split, and the ordered
//! ledger moves it issues.

use crate::config::Config;
use crate::error::ErrorCode;
use crate::identity::Identity;
use crate::tax::{lemma_tax_split, split_amount, tax_of, transfer_of};
use vstd::prelude::*;

verus! {

/// One instruction to the external ledger: move `amount` from one account to
/// another, on the authority of the signer that owns the source account.
#[derive(Clone, Copy, Debug, PartialEq, Eq)]
pub struct LedgerMove {
    /// The account the value leaves.
    pub from: Identity,
    /// The account the value reaches.
    pub to: Identity,
    /// How much value moves; never zero in a plan.
    pub amount: u64,
    /// The authenticated caller that authorizes the move.
    pub authorized_by: Identity,
}

/// The accounts a `transfer_with_tax` call touches: source, destination, the
/// claimed tax-destination account, and the authenticated caller entitled to
/// move value out of the source.
#[derive(Clone, Copy, Debug, PartialEq, Eq)]
pub struct TransferWithTax {
    /// The account the value leaves.
    pub from: Identity,
    /// The account the recipient's share reaches.
    pub to: Identity,
    /// The claimed tax destination; it must equal the configured one exactly.
    pub tax_wallet: Identity,
    /// The authenticated caller; the host has already verified its signature.
    pub authority: Identity,
}

/// The moves a successful transfer of `amount` issues, in order: the tax cut
/// to the tax destination first, then the remainder to the recipient, each
/// move only when its amount is not zero.
pub open spec fn planned_moves(accounts: TransferWithTax, amount: u64) -> Seq<LedgerMove> {
    let tax_part = if tax_of(amount) > 0 {
        seq![
            (LedgerMove {
                from: accounts.from,
                to: accounts.tax_wallet,
                amount: tax_of(amount) as u64,
                authorized_by: accounts.authority,
            }),
        ]
    } else {
        Seq::<LedgerMove>::empty()
    };
    let recipient_part = if transfer_of(amount) > 0 {
        seq![
            (LedgerMove {
                from: accounts.from,
                to: accounts.to,
                amount: transfer_of(amount) as u64,
                authorized_by: accounts.authority,
            }),
        ]
    } else {
        Seq::<LedgerMove>::empty()
    };
    tax_part + recipient_part
}

/// Validates a taxed transfer and plans its ledger moves.
///
/// On a live configuration and a matching tax account it returns the ordered
/// plan: the tax cut first, the recipient's remainder second, zero-value
/// moves skipped. The host executes the plan against its ledger in order and
/// stops at the first move the ledger refuses, so a failed tax move is never
/// followed by the recipient move.
///
/// A renounced configuration fails with `ContractRenounced`, a tax account
/// other than the configured destination with `InvalidTaxWallet`, each before
/// any move is planned. The remainder is computed by a checked subtraction
/// surfaced as `MathOverflow`; it cannot underflow, since the tax never
/// exceeds the amount.
pub fn transfer_with_tax(config: &Config, accounts: &TransferWithTax, amount: u64) -> (r: Result<
    Vec<LedgerMove>,
    ErrorCode,
>)
    ensures
        r is Ok <==> (!config.is_renounced && accounts.tax_wallet == config.tax_wallet),
        config.is_renounced ==> r == Err::<Vec<LedgerMove>, ErrorCode>(
            ErrorCode::ContractRenounced,
        ),
        (!config.is_renounced && accounts.tax_wallet != config.tax_wallet) ==> r == Err::<
            Vec<LedgerMove>,
            ErrorCode,
        >(ErrorCode::InvalidTaxWallet),
        r matches Ok(moves) ==> moves@ == planned_moves(*accounts, amount),
{
    if config.is_renounced {
        return Err(ErrorCode::ContractRenounced);
    }
    if !(accounts.tax_wallet == config.tax_wallet) {
        return Err(ErrorCode::InvalidTaxWallet);
    }

    let (tax_amount, _) = split_amount(amount);
    let transfer_amount = match amount.checked_sub(tax_amount) {
        Some(rest) => rest,
        None => {
            return Err(ErrorCode::MathOverflow);
        },
    };

    let mut moves: Vec<LedgerMove> = Vec::new();
    if tax_amount > 0 {
        moves.push(
            LedgerMove {
                from: accounts.from,
                to: accounts.tax_wallet,
                amount: tax_amount,
                authorized_by: accounts.authority,
            },
        );
    }
    if transfer_amount > 0 {
        moves.push(
            LedgerMove {
                from: accounts.from,
                to: accounts.to,
                amount: transfer_amount,
                authorized_by: accounts.authority,
            },
        );
    }
    proof {
        assert(moves@ =~= planned_moves(*accounts, amount));
    }
    Ok(moves)
}

/// At most two moves make up a plan, the tax move first; every move in it
/// draws on the source account, is authorized by the caller, moves a
/// positive amount, and the amounts of the whole plan sum to the transferred
/// amount exactly.
pub proof fn lemma_plan_shape(accounts: TransferWithTax, amount: u64)
    ensures
        planned_moves(accounts, amount).len() <= 2,
        amount == 0 ==> planned_moves(accounts, amount).len() == 0,
        tax_of(amount) > 0 ==> (planned_moves(accounts, amount).first().to
            == accounts.tax_wallet && planned_moves(accounts, amount).first().amount == tax_of(
            amount,
        )),
        transfer_of(amount) > 0 ==> (planned_moves(accounts, amount).last().to == accounts.to
            && planned_moves(accounts, amount).last().amount == transfer_of(amount)),
        forall|i: int| 0 <= i < planned_moves(accounts, amount).len() ==> {
            let m = #[trigger] planned_moves(accounts, amount)[i];
            m.from == accounts.from && m.authorized_by == accounts.authority && m.amount > 0
        },
        plan_total(planned_moves(accounts, amount)) == amount,
{
    lemma_tax_split(amount);
    let plan = planned_moves(accounts, amount);
    if plan.len() == 2 {
        assert(plan.skip(1).skip(1) =~= Seq::<LedgerMove>::empty());
        assert(plan_total(plan.skip(1).skip(1)) == 0);
        assert(plan_total(plan.skip(1)) == plan.skip(1)[0].amount);
        assert(plan_total(plan) == plan[0].amount + plan[1].amount);
    } else if plan.len() == 1 {
        assert(plan.skip(1) =~= Seq::<LedgerMove>::empty());
        assert(plan_total(plan.skip(1)) == 0);
        assert(plan_total(plan) == plan[0].amount);
    } else {
        assert(plan_total(plan) == 0);
    }
}

/// The value a plan moves out of the source account in all: the sum of its
/// moves' amounts.
pub open spec fn plan_total(plan: Seq<LedgerMove>) -> int
    decreases plan.len(),
{
    if plan.len() == 0 {
        0
    } else {
        plan[0].amount + plan_total(plan.skip(1))
    }
}

} // verus!
