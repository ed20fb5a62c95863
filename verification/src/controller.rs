use vstd::prelude::*;
use crate::error::VaultError;
use crate::events::{DepositEvent, FeeUpdatedEvent, RedeemEvent};
use crate::laws::{
    lemma_deposit_rate_never_falls, lemma_redeem_rate_never_falls, lemma_redeem_succeeds,
};
use crate::message::{redeem_message, redeem_message_spec};
use crate::principal::Principal;
use crate::replay::{check_spec, UserNonce};
use crate::settlement::{Instruction, Settlement};
use crate::vault::{RedeemQuote, Vault, MAX_FEE_BPS};

verus! {

/// What creating a vault needs to know.
#[derive(Clone, Copy, Debug, PartialEq, Eq)]
pub struct Initialize {
    pub authority: Principal,
    pub asset_mint: Principal,
    pub share_mint: Principal,
    pub asset_vault: Principal,
    pub bump: u8,
}

/// A deposit in progress: the ledger and the depositor.
#[derive(Clone, Copy, Debug, PartialEq, Eq)]
pub struct Deposit {
    pub vault: Vault,
    pub user: Principal,
}

/// A redemption in progress: the ledger and the holder of the shares.
#[derive(Clone, Copy, Debug, PartialEq, Eq)]
pub struct Redeem {
    pub vault: Vault,
    pub user: Principal,
}

/// A delegated redemption in progress: a relayer submits it, the owner's
/// shares are burned and the receiver is paid.
#[derive(Clone, Copy, Debug, PartialEq, Eq)]
pub struct MetaRedeem {
    pub vault: Vault,
    pub owner: Principal,
    pub relayer: Principal,
    pub receiver: Principal,
    pub user_nonce: UserNonce,
}

/// A fee change in progress: the ledger and the caller.
#[derive(Clone, Copy, Debug, PartialEq, Eq)]
pub struct UpdateFee {
    pub vault: Vault,
    pub authority: Principal,
}

/// An emergency withdrawal in progress: the ledger, the caller, and the
/// account the caller has designated to receive the assets.
#[derive(Clone, Copy, Debug, PartialEq, Eq)]
pub struct EmergencyWithdraw {
    pub vault: Vault,
    pub authority: Principal,
    pub admin_asset: Principal,
}

/// The signature service's answer, with what it was asked: whether
/// `signature` over `message` verifies against the public identity `signer`.
#[derive(Debug, PartialEq, Eq)]
pub struct SignatureVerdict {
    pub signer: Principal,
    pub message: Vec<u8>,
    pub valid: bool,
}

/// The ledger and the shares minted after a deposit of `assets`.
pub open spec fn deposit_spec(vault: Vault, assets: u64) -> Result<(Vault, u64), VaultError> {
    match vault.quote_deposit_spec(assets) {
        Err(e) => Err(e),
        Ok(shares) => match vault.apply_deposit_spec(assets, shares) {
            Err(e) => Err(e),
            Ok(after) => Ok((after, shares)),
        },
    }
}

/// The ledger and the quote after a redemption of `shares`.
pub open spec fn redeem_spec(vault: Vault, shares: u64) -> Result<(Vault, RedeemQuote), VaultError> {
    match vault.quote_redeem_spec(shares) {
        Err(e) => Err(e),
        Ok(quote) => match vault.apply_redeem_spec(shares, quote.net_assets) {
            Err(e) => Err(e),
            Ok(after) => Ok((after, quote)),
        },
    }
}

/// The value movements of a deposit: the assets go into custody first, then
/// the shares are minted.
pub open spec fn deposit_instructions(vault: Vault, user: Principal, assets: u64, shares: u64) -> Seq<
    Instruction,
> {
    seq![
        Instruction::Transfer { from: user, to: vault.asset_vault, amount: assets },
        Instruction::Mint { to: user, amount: shares },
    ]
}

/// The value movements of a redemption: the shares are burned first, then the
/// payout leaves custody.
pub open spec fn redeem_instructions(
    vault: Vault,
    owner: Principal,
    receiver: Principal,
    shares: u64,
    net_assets: u64,
) -> Seq<Instruction> {
    seq![
        Instruction::Burn { from: owner, amount: shares },
        Instruction::Transfer { from: vault.asset_vault, to: receiver, amount: net_assets },
    ]
}

/// Whether a verdict vouches for exactly this delegated redemption: it is
/// positive, it was given for the owner, and it was given for the canonical
/// message of the request.
pub open spec fn vouches_for(
    verdict: SignatureVerdict,
    owner: Principal,
    shares: u64,
    receiver: Principal,
    nonce: u64,
    deadline: i64,
) -> bool {
    &&& verdict.valid
    &&& verdict.signer == owner
    &&& verdict.message@ == redeem_message_spec(owner, shares, receiver, nonce, deadline)
}

/// The outcome of a delegated redemption: the ledger, the owner's next nonce
/// and the quote when it goes through, and otherwise the first check that
/// refuses it.
pub open spec fn meta_redeem_spec(
    ctx: MetaRedeem,
    shares: u64,
    deadline: i64,
    nonce: u64,
    current_time: i64,
    verdict: SignatureVerdict,
) -> Result<(Vault, u64, RedeemQuote), VaultError> {
    if current_time > deadline {
        Err(VaultError::DeadlineExpired)
    } else if !vouches_for(verdict, ctx.owner, shares, ctx.receiver, nonce, deadline) {
        Err(VaultError::InvalidSignature)
    } else if ctx.user_nonce.owner != ctx.owner {
        Err(VaultError::Unauthorized)
    } else {
        match check_spec(ctx.user_nonce.nonce, nonce, deadline, current_time) {
            Err(e) => Err(e),
            Ok(next) => match redeem_spec(ctx.vault, shares) {
                Err(e) => Err(e),
                Ok((after, quote)) => Ok((after, next, quote)),
            },
        }
    }
}

/// Creates a vault with zero totals.
///
/// Fails with `InvalidFee` exactly when `fee_bps` is above the cap.
pub fn initialize(ctx: &Initialize, fee_bps: u16) -> (r: Result<Vault, VaultError>)
    ensures
        fee_bps > MAX_FEE_BPS ==> r == Err::<Vault, VaultError>(VaultError::InvalidFee),
        fee_bps <= MAX_FEE_BPS ==> r == Ok::<Vault, VaultError>(
            Vault {
                authority: ctx.authority,
                asset_mint: ctx.asset_mint,
                share_mint: ctx.share_mint,
                asset_vault: ctx.asset_vault,
                total_assets: 0,
                total_shares: 0,
                fee_bps,
                bump: ctx.bump,
            },
        ),
        r matches Ok(vault) ==> vault.wf() && vault.is_empty(),
{
    if fee_bps > MAX_FEE_BPS {
        return Err(VaultError::InvalidFee);
    }
    Ok(
        Vault {
            authority: ctx.authority,
            asset_mint: ctx.asset_mint,
            share_mint: ctx.share_mint,
            asset_vault: ctx.asset_vault,
            total_assets: 0,
            total_shares: 0,
            fee_bps,
            bump: ctx.bump,
        },
    )
}

/// Takes a deposit of `assets` from the user.
///
/// The shares are quoted against the ledger as it stands, the new totals are
/// checked to fit, and only then is the ledger in `ctx` advanced and the
/// settlement handed out: the transfer into custody, then the mint. A deposit
/// that is refused leaves `ctx` as it was.
///
/// On an empty vault every positive deposit succeeds and is taken one for one.
/// While shares are outstanding a deposit never lowers the assets behind each
/// share.
pub fn deposit(ctx: &mut Deposit, assets: u64) -> (r: Result<Settlement<DepositEvent>, VaultError>)
    requires
        old(ctx).vault.wf(),
    ensures
        final(ctx).user == old(ctx).user,
        final(ctx).vault.wf(),
        match deposit_spec(old(ctx).vault, assets) {
            Ok((after, shares)) => {
                &&& r matches Ok(settlement)
                &&& final(ctx).vault == after
                &&& settlement.instructions@ == deposit_instructions(
                    old(ctx).vault,
                    old(ctx).user,
                    assets,
                    shares,
                )
                &&& settlement.event == (DepositEvent { user: old(ctx).user, assets, shares })
            },
            Err(e) => r == Err::<Settlement<DepositEvent>, VaultError>(e) && *final(ctx) == *old(
                ctx,
            ),
        },
        old(ctx).vault.is_empty() && assets > 0 ==> {
            &&& r matches Ok(settlement)
            &&& settlement.event.shares == assets
            &&& final(ctx).vault.total_assets == assets
            &&& final(ctx).vault.total_shares == assets
        },
        r is Ok && old(ctx).vault.total_shares > 0 ==> final(ctx).vault.total_assets * old(
            ctx,
        ).vault.total_shares >= old(ctx).vault.total_assets * final(ctx).vault.total_shares,
{
    let user = ctx.user;
    let custody = ctx.vault.asset_vault;
    let shares = match ctx.vault.quote_deposit(assets) {
        Ok(shares) => shares,
        Err(e) => {
            return Err(e);
        },
    };
    match ctx.vault.apply_deposit(assets, shares) {
        Ok(()) => {},
        Err(e) => {
            return Err(e);
        },
    }
    proof {
        lemma_deposit_rate_never_falls(old(ctx).vault, assets);
    }
    let mut instructions: Vec<Instruction> = Vec::new();
    instructions.push(Instruction::Transfer { from: user, to: custody, amount: assets });
    instructions.push(Instruction::Mint { to: user, amount: shares });
    assert(instructions@ =~= deposit_instructions(old(ctx).vault, user, assets, shares));
    Ok(Settlement { instructions, event: DepositEvent { user, assets, shares } })
}

/// Redeems `shares` of `owner` against the ledger and pays `receiver`.
///
/// The quote is taken against the ledger as it stands; the ledger is then
/// reduced by the shares and by the payout, so the fee stays in the pool. The
/// settlement burns the shares first and pays out of custody second. A
/// redemption that is refused leaves the ledger as it was.
pub fn redeem_to(vault: &mut Vault, owner: Principal, receiver: Principal, shares: u64) -> (r:
    Result<Settlement<RedeemEvent>, VaultError>)
    requires
        old(vault).wf(),
    ensures
        final(vault).wf(),
        match redeem_spec(*old(vault), shares) {
            Ok((after, quote)) => {
                &&& r matches Ok(settlement)
                &&& *final(vault) == after
                &&& settlement.instructions@ == redeem_instructions(
                    *old(vault),
                    owner,
                    receiver,
                    shares,
                    quote.net_assets,
                )
                &&& settlement.event == (RedeemEvent {
                    user: owner,
                    shares,
                    assets: quote.net_assets,
                    fee: quote.fee,
                })
            },
            Err(e) => r == Err::<Settlement<RedeemEvent>, VaultError>(e) && *final(vault) == *old(
                vault,
            ),
        },
        r is Err <==> shares == 0 || shares > old(vault).total_shares,
        r is Ok ==> final(vault).total_assets * old(vault).total_shares >= old(vault).total_assets
            * final(vault).total_shares,
{
    let custody = vault.asset_vault;
    let quote = match vault.quote_redeem(shares) {
        Ok(quote) => quote,
        Err(e) => {
            return Err(e);
        },
    };
    proof {
        lemma_redeem_succeeds(*old(vault), shares);
        lemma_redeem_rate_never_falls(*old(vault), shares);
    }
    match vault.apply_redeem(shares, quote.net_assets) {
        Ok(()) => {},
        Err(e) => {
            return Err(e);
        },
    }
    let mut instructions: Vec<Instruction> = Vec::new();
    instructions.push(Instruction::Burn { from: owner, amount: shares });
    instructions.push(Instruction::Transfer { from: custody, to: receiver, amount: quote.net_assets });
    assert(instructions@ =~= redeem_instructions(
        *old(vault),
        owner,
        receiver,
        shares,
        quote.net_assets,
    ));
    Ok(
        Settlement {
            instructions,
            event: RedeemEvent { user: owner, shares, assets: quote.net_assets, fee: quote.fee },
        },
    )
}

/// Redeems `shares` of the user for assets, net of the fee.
///
/// Fails with `ZeroAmount` when `shares` is zero and with
/// `InsufficientShares` when more shares are presented than are outstanding,
/// and succeeds otherwise. The user's shares are burned and the user is paid.
pub fn redeem(ctx: &mut Redeem, shares: u64) -> (r: Result<Settlement<RedeemEvent>, VaultError>)
    requires
        old(ctx).vault.wf(),
    ensures
        final(ctx).user == old(ctx).user,
        final(ctx).vault.wf(),
        match redeem_spec(old(ctx).vault, shares) {
            Ok((after, quote)) => {
                &&& r matches Ok(settlement)
                &&& final(ctx).vault == after
                &&& settlement.instructions@ == redeem_instructions(
                    old(ctx).vault,
                    old(ctx).user,
                    old(ctx).user,
                    shares,
                    quote.net_assets,
                )
                &&& settlement.event == (RedeemEvent {
                    user: old(ctx).user,
                    shares,
                    assets: quote.net_assets,
                    fee: quote.fee,
                })
            },
            Err(e) => r == Err::<Settlement<RedeemEvent>, VaultError>(e) && *final(ctx) == *old(
                ctx,
            ),
        },
        r is Err <==> shares == 0 || shares > old(ctx).vault.total_shares,
        r is Ok ==> final(ctx).vault.total_assets * old(ctx).vault.total_shares >= old(
            ctx,
        ).vault.total_assets * final(ctx).vault.total_shares,
{
    let user = ctx.user;
    redeem_to(&mut ctx.vault, user, user, shares)
}

fn same_bytes(left: &Vec<u8>, right: &Vec<u8>) -> (same: bool)
    ensures
        same == (left@ == right@),
{
    if left.len() != right.len() {
        return false;
    }
    let mut i: usize = 0;
    while i < left.len()
        invariant
            i <= left@.len(),
            left@.len() == right@.len(),
            forall|j: int| 0 <= j < i ==> left@[j] == right@[j],
        decreases left@.len() - i,
    {
        if left[i] != right[i] {
            return false;
        }
        i += 1;
    }
    assert(left@ =~= right@);
    true
}

/// Redeems `shares` of the owner on the owner's signed authorization,
/// submitted by a relayer, and pays the receiver.
///
/// The checks are made in this order, and the first that fails decides the
/// error: the deadline has not passed (`DeadlineExpired`); the verdict is
/// positive and was given for the owner and for the canonical message of this
/// very request (`InvalidSignature`); the nonce record belongs to the owner
/// (`Unauthorized`); the presented nonce is the stored one (`NonceMismatch`,
/// or `ArithmeticOverflow` for an exhausted counter); the redemption itself
/// can be quoted (`ZeroAmount`, `InsufficientShares`).
///
/// Only when all of them pass is the nonce advanced by one and the ledger
/// reduced, together. The settlement burns the owner's shares and pays the
/// receiver out of custody: the relayer is party to neither movement. A
/// request that is refused leaves `ctx` as it was, nonce included.
pub fn meta_redeem(
    ctx: &mut MetaRedeem,
    shares: u64,
    deadline: i64,
    nonce: u64,
    current_time: i64,
    verdict: &SignatureVerdict,
) -> (r: Result<Settlement<RedeemEvent>, VaultError>)
    requires
        old(ctx).vault.wf(),
    ensures
        final(ctx).vault.wf(),
        final(ctx).owner == old(ctx).owner,
        final(ctx).relayer == old(ctx).relayer,
        final(ctx).receiver == old(ctx).receiver,
        final(ctx).user_nonce.owner == old(ctx).user_nonce.owner,
        match meta_redeem_spec(*old(ctx), shares, deadline, nonce, current_time, *verdict) {
            Ok((after, next, quote)) => {
                &&& r matches Ok(settlement)
                &&& final(ctx).vault == after
                &&& final(ctx).user_nonce.nonce == next
                &&& next == nonce + 1
                &&& settlement.instructions@ == redeem_instructions(
                    old(ctx).vault,
                    old(ctx).owner,
                    old(ctx).receiver,
                    shares,
                    quote.net_assets,
                )
                &&& settlement.event == (RedeemEvent {
                    user: old(ctx).owner,
                    shares,
                    assets: quote.net_assets,
                    fee: quote.fee,
                })
            },
            Err(e) => r == Err::<Settlement<RedeemEvent>, VaultError>(e) && *final(ctx) == *old(
                ctx,
            ),
        },
{
    if current_time > deadline {
        return Err(VaultError::DeadlineExpired);
    }
    let owner = ctx.owner;
    let receiver = ctx.receiver;
    let message = redeem_message(&owner, shares, &receiver, nonce, deadline);
    if !(verdict.valid && verdict.signer == owner && same_bytes(&verdict.message, &message)) {
        return Err(VaultError::InvalidSignature);
    }
    if ctx.user_nonce.owner != owner {
        return Err(VaultError::Unauthorized);
    }
    let mut record = ctx.user_nonce;
    match record.check_and_consume(nonce, deadline, current_time) {
        Ok(()) => {},
        Err(e) => {
            return Err(e);
        },
    }
    let mut vault = ctx.vault;
    let settlement = match redeem_to(&mut vault, owner, receiver, shares) {
        Ok(settlement) => settlement,
        Err(e) => {
            return Err(e);
        },
    };
    ctx.user_nonce = record;
    ctx.vault = vault;
    Ok(settlement)
}

/// Changes the redemption fee.
///
/// Fails with `Unauthorized` when the caller is not the vault's authority,
/// and otherwise with `InvalidFee` when the new fee is above the cap. A
/// refused change leaves `ctx` as it was; an accepted one changes the fee and
/// nothing else.
pub fn update_fee(ctx: &mut UpdateFee, new_fee_bps: u16) -> (r: Result<FeeUpdatedEvent, VaultError>)
    ensures
        final(ctx).authority == old(ctx).authority,
        old(ctx).vault.wf() ==> final(ctx).vault.wf(),
        old(ctx).authority != old(ctx).vault.authority ==> r == Err::<FeeUpdatedEvent, VaultError>(
            VaultError::Unauthorized,
        ),
        old(ctx).authority == old(ctx).vault.authority && new_fee_bps > MAX_FEE_BPS ==> r == Err::<
            FeeUpdatedEvent,
            VaultError,
        >(VaultError::InvalidFee),
        old(ctx).authority == old(ctx).vault.authority && new_fee_bps <= MAX_FEE_BPS ==> r == Ok::<
            FeeUpdatedEvent,
            VaultError,
        >(FeeUpdatedEvent { new_fee_bps }),
        r is Err ==> *final(ctx) == *old(ctx),
        r is Ok ==> final(ctx).vault == (Vault { fee_bps: new_fee_bps, ..old(ctx).vault }),
{
    if ctx.authority != ctx.vault.authority {
        return Err(VaultError::Unauthorized);
    }
    if new_fee_bps > MAX_FEE_BPS {
        return Err(VaultError::InvalidFee);
    }
    ctx.vault.fee_bps = new_fee_bps;
    Ok(FeeUpdatedEvent { new_fee_bps })
}

/// Releases `amount` from custody to the account the authority has
/// designated, as a last resort.
///
/// Fails with `Unauthorized` exactly when the caller is not the vault's
/// authority. The ledger is only read: neither total changes, so after the
/// transfer the pool holds less than its ledger accounts for, and stays
/// under-collateralized until assets are restored or shares written down.
pub fn emergency_withdraw(ctx: &EmergencyWithdraw, amount: u64) -> (r: Result<
    Instruction,
    VaultError,
>)
    ensures
        ctx.authority != ctx.vault.authority ==> r == Err::<Instruction, VaultError>(
            VaultError::Unauthorized,
        ),
        ctx.authority == ctx.vault.authority ==> r == Ok::<Instruction, VaultError>(
            Instruction::Transfer { from: ctx.vault.asset_vault, to: ctx.admin_asset, amount },
        ),
{
    if ctx.authority != ctx.vault.authority {
        return Err(VaultError::Unauthorized);
    }
    Ok(Instruction::Transfer { from: ctx.vault.asset_vault, to: ctx.admin_asset, amount })
}

} // verus!
