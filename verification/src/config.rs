//! The single global configuration record and the operations that create and
//! renounce it.

use crate::error::ErrorCode;
use crate::identity::Identity;
use vstd::prelude::*;

verus! {

/// The persistent configuration: the account that collects tax, the identity
/// allowed to renounce control, and the irreversible renounced flag.
#[derive(Clone, Copy, Debug, PartialEq, Eq)]
pub struct Config {
    /// The account that receives the tax cut of every transfer.
    pub tax_wallet: Identity,
    /// The identity permitted to renounce control; fixed at creation.
    pub authority: Identity,
    /// Once true, transfers are disabled forever and no field changes again.
    pub is_renounced: bool,
}

impl Config {
    /// The size in bytes of the persisted record: two identities and a flag.
    pub const LEN: usize = 65;
}

/// The fixed location that holds the one configuration record.
///
/// All callers resolve the same store, so at most one configuration ever
/// exists; `None` means no configuration has been created yet.
#[derive(Clone, Copy, Debug, PartialEq, Eq)]
pub struct ConfigStore {
    /// The record, once `initialize` has created it.
    pub config: Option<Config>,
}

impl ConfigStore {
    /// A store in which no configuration exists yet.
    pub fn empty() -> (r: ConfigStore)
        ensures
            r.config is None,
    {
        ConfigStore { config: None }
    }
}

/// The accounts an `initialize` call touches: the caller, whose identity
/// becomes the stored authority.
#[derive(Clone, Copy, Debug, PartialEq, Eq)]
pub struct Initialize {
    /// The authenticated caller; the host has already verified its signature.
    pub authority: Identity,
}

/// The accounts a `renounce_ownership` call touches: the caller, who must be
/// the stored authority.
#[derive(Clone, Copy, Debug, PartialEq, Eq)]
pub struct RenounceOwnership {
    /// The authenticated caller; the host has already verified its signature.
    pub authority: Identity,
}

/// The record that `initialize` creates for a tax destination and a caller.
pub open spec fn initialized_config(tax_wallet: Identity, authority: Identity) -> Config {
    Config { tax_wallet, authority, is_renounced: false }
}

/// Creates the one configuration record with the given tax destination, the
/// caller as authority, and the renounced flag clear.
///
/// Fails with `AlreadyInitialized`, and changes nothing, when the fixed
/// location is already occupied; creation happens whole or not at all.
pub fn initialize(store: &mut ConfigStore, accounts: &Initialize, tax_wallet: Identity) -> (r: Result<
    (),
    ErrorCode,
>)
    ensures
        old(store).config is None ==> r is Ok && final(store).config == Some(
            initialized_config(tax_wallet, accounts.authority),
        ),
        old(store).config is Some ==> (r == Err::<(), ErrorCode>(ErrorCode::AlreadyInitialized)
            && *final(store) == *old(store)),
{
    match store.config {
        Some(_) => Err(ErrorCode::AlreadyInitialized),
        None => {
            store.config = Some(Config { tax_wallet, authority: accounts.authority, is_renounced: false });
            Ok(())
        },
    }
}

/// How `renounce_ownership` changes the record: the caller that owns the
/// authority sets the renounced flag and nothing else; any other caller
/// leaves the record untouched.
pub open spec fn renounce_effect(c: Config, caller: Identity) -> Config {
    if caller == c.authority {
        Config { is_renounced: true, ..c }
    } else {
        c
    }
}

/// Renounces administrative control: sets the renounced flag, permanently.
///
/// Only the stored authority may renounce; any other caller fails with
/// `Unauthorized` and the record is unchanged. A repeated call by the
/// authority succeeds again as a no-op, a deliberate choice: the end state is
/// identical and no invariant is broken by repeating it.
pub fn renounce_ownership(config: &mut Config, accounts: &RenounceOwnership) -> (r: Result<
    (),
    ErrorCode,
>)
    ensures
        *final(config) == renounce_effect(*old(config), accounts.authority),
        accounts.authority == old(config).authority ==> r is Ok,
        accounts.authority != old(config).authority ==> r == Err::<(), ErrorCode>(
            ErrorCode::Unauthorized,
        ),
        old(config).is_renounced ==> final(config).is_renounced,
        final(config).is_renounced ==> (old(config).is_renounced || accounts.authority == old(
            config,
        ).authority),
        final(config).tax_wallet == old(config).tax_wallet,
        final(config).authority == old(config).authority,
{
    if !(accounts.authority == config.authority) {
        return Err(ErrorCode::Unauthorized);
    }
    config.is_renounced = true;
    Ok(())
}

/// The record after a whole sequence of renounce attempts, applied in order.
pub open spec fn apply_renounces(c: Config, callers: Seq<Identity>) -> Config
    decreases callers.len(),
{
    if callers.len() == 0 {
        c
    } else {
        apply_renounces(renounce_effect(c, callers[0]), callers.skip(1))
    }
}

/// The renounced flag moves in one direction only. Over any sequence of
/// renounce attempts the other fields never change, and the flag ends up set
/// exactly when it already was or the true authority called at least once;
/// in particular it is never cleared again.
pub proof fn lemma_renounced_monotone(c: Config, callers: Seq<Identity>)
    ensures
        apply_renounces(c, callers).tax_wallet == c.tax_wallet,
        apply_renounces(c, callers).authority == c.authority,
        apply_renounces(c, callers).is_renounced == (c.is_renounced || exists|i: int|
            0 <= i < callers.len() && callers[i] == c.authority),
    decreases callers.len(),
{
    if callers.len() == 0 {
    } else {
        let c1 = renounce_effect(c, callers[0]);
        lemma_renounced_monotone(c1, callers.skip(1));
        assert(apply_renounces(c, callers).is_renounced == (c1.is_renounced || exists|j: int|
            0 <= j < callers.len() - 1 && callers.skip(1)[j] == c1.authority));
        if c.is_renounced || exists|i: int| 0 <= i < callers.len() && callers[i] == c.authority {
            if !c.is_renounced && !(callers[0] == c.authority) {
                let i = choose|i: int| 0 <= i < callers.len() && callers[i] == c.authority;
                assert(callers.skip(1)[i - 1] == c.authority);
            }
        } else {
            assert(!c1.is_renounced);
            assert(forall|j: int|
                0 <= j < callers.len() - 1 ==> #[trigger] callers.skip(1)[j] == callers[j + 1]);
        }
    }
}

} // verus!
