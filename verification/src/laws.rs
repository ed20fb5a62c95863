use vstd::prelude::*;
use crate::controller::{deposit_spec, redeem_spec};
use crate::error::VaultError;
use crate::math::{floor_ratio, lemma_floor_ratio_bounds, lemma_floor_ratio_monotonic};
use crate::principal::Principal;
use crate::replay::{check_spec, ReplayGuard};
use crate::vault::{RedeemQuote, Vault, BPS_DENOMINATOR};

verus! {

/// A deposit that goes through keeps the ledger well formed and, while shares
/// are outstanding, never lowers the assets behind each share: the new ratio
/// of assets to shares is at least the old one.
pub proof fn lemma_deposit_rate_never_falls(vault: Vault, assets: u64)
    requires
        vault.wf(),
        deposit_spec(vault, assets) is Ok,
    ensures
        deposit_spec(vault, assets)->Ok_0.0.wf(),
        vault.total_shares > 0 ==> deposit_spec(vault, assets)->Ok_0.0.total_assets
            * vault.total_shares >= vault.total_assets * deposit_spec(
            vault,
            assets,
        )->Ok_0.0.total_shares,
{
    let (after, shares) = deposit_spec(vault, assets)->Ok_0;
    if vault.total_shares > 0 {
        let a = vault.total_assets as int;
        let s = vault.total_shares as int;
        let d = assets as int;
        let m = shares as int;
        lemma_floor_ratio_bounds(d, s, a);
        assert(m * a <= d * s);
        assert((a + d) * s >= a * (s + m)) by (nonlinear_arith)
            requires
                m * a <= d * s,
        ;
    }
}

/// On a well-formed ledger, a redemption is refused only for a share amount
/// of zero or one above what is outstanding; the defensive balance check
/// never fires.
pub proof fn lemma_redeem_succeeds(vault: Vault, shares: u64)
    requires
        vault.wf(),
    ensures
        redeem_spec(vault, shares) is Err <==> shares == 0 || shares > vault.total_shares,
        redeem_spec(vault, shares) is Err ==> redeem_spec(vault, shares)
            == Err::<(Vault, RedeemQuote), VaultError>(
            vault.quote_redeem_spec(shares)->Err_0,
        ),
        redeem_spec(vault, shares) matches Ok((after, quote)) ==> {
            &&& after.wf()
            &&& quote.fee <= quote.gross_assets <= vault.total_assets
            &&& quote.net_assets == quote.gross_assets - quote.fee
            &&& after.total_assets == vault.total_assets - quote.net_assets
            &&& after.total_shares == vault.total_shares - shares
        },
{
    if 0 < shares <= vault.total_shares {
        vault.lemma_quote_redeem_bounds(shares);
    }
}

/// A redemption never lowers the assets behind each remaining share: the new
/// ratio of assets to shares is at least the old one.
pub proof fn lemma_redeem_rate_never_falls(vault: Vault, shares: u64)
    requires
        vault.wf(),
        redeem_spec(vault, shares) is Ok,
    ensures
        redeem_spec(vault, shares)->Ok_0.0.total_assets * vault.total_shares
            >= vault.total_assets * redeem_spec(vault, shares)->Ok_0.0.total_shares,
{
    lemma_redeem_succeeds(vault, shares);
    vault.lemma_quote_redeem_bounds(shares);
    let (after, quote) = redeem_spec(vault, shares)->Ok_0;
    let a = vault.total_assets as int;
    let s = vault.total_shares as int;
    let k = shares as int;
    let g = quote.gross_assets as int;
    let n = quote.net_assets as int;
    lemma_floor_ratio_bounds(k, a, s);
    assert(g * s <= k * a);
    assert((a - n) * s >= a * (s - k)) by (nonlinear_arith)
        requires
            g * s <= k * a,
            0 <= n <= g,
            0 < s,
    ;
}

/// The first deposit sets the rate: on a vault that holds nothing, every
/// positive deposit succeeds, mints exactly as many shares as assets came in,
/// and leaves both totals equal to the deposit.
pub proof fn lemma_first_deposit_is_one_to_one(vault: Vault, assets: u64)
    requires
        vault.is_empty(),
        assets > 0,
    ensures
        deposit_spec(vault, assets) == Ok::<(Vault, u64), VaultError>(
            (vault.with_totals(assets, assets), assets),
        ),
{
}

/// A deposit keeps assets and shares pegged to each other whenever it mints
/// at least one share, and a redemption keeps them pegged while no fee is
/// charged: without fees, the pool is empty of assets exactly when it is
/// empty of shares.
pub proof fn lemma_pegged_is_kept(vault: Vault, amount: u64)
    requires
        vault.wf(),
        vault.is_pegged(),
    ensures
        deposit_spec(vault, amount) matches Ok((after, shares)) ==> (shares > 0
            ==> after.is_pegged()),
        redeem_spec(vault, amount) matches Ok((after, quote)) ==> (vault.fee_bps == 0
            ==> after.is_pegged()),
{
    if redeem_spec(vault, amount) is Ok && vault.fee_bps == 0 {
        lemma_redeem_succeeds(vault, amount);
        vault.lemma_quote_redeem_bounds(amount);
        let gross = vault.gross_of(amount);
        lemma_floor_ratio_bounds(gross, 0, BPS_DENOMINATOR as int);
        assert(gross * 0 == 0);
        if amount == vault.total_shares {
            let a = vault.total_assets as int;
            let s = vault.total_shares as int;
            lemma_floor_ratio_bounds(s, a, s);
            assert(gross == a) by (nonlinear_arith)
                requires
                    gross * s <= s * a,
                    s * a < (gross + 1) * s,
                    0 < s,
            ;
        }
    }
}

/// Redeeming the shares of a deposit straight away never returns more than
/// was deposited, whatever the fee: both roundings favour the pool.
///
/// The law is stated for a pegged ledger. A pool that holds retained fees but
/// no shares hands those fees to the next depositor, who then can redeem more
/// than was put in.
pub proof fn lemma_round_trip_returns_at_most_deposit(vault: Vault, assets: u64)
    requires
        vault.wf(),
        vault.is_pegged(),
        deposit_spec(vault, assets) is Ok,
        redeem_spec(deposit_spec(vault, assets)->Ok_0.0, deposit_spec(vault, assets)->Ok_0.1) is Ok,
    ensures
        redeem_spec(
            deposit_spec(vault, assets)->Ok_0.0,
            deposit_spec(vault, assets)->Ok_0.1,
        )->Ok_0.1.net_assets <= redeem_spec(
            deposit_spec(vault, assets)->Ok_0.0,
            deposit_spec(vault, assets)->Ok_0.1,
        )->Ok_0.1.gross_assets <= assets,
{
    let (mid, shares) = deposit_spec(vault, assets)->Ok_0;
    lemma_deposit_rate_never_falls(vault, assets);
    lemma_redeem_succeeds(mid, shares);
    let a = vault.total_assets as int;
    let s = vault.total_shares as int;
    let d = assets as int;
    let m = shares as int;
    let g = mid.gross_of(shares);
    lemma_floor_ratio_bounds(m, a + d, s + m);
    assert(g * (s + m) <= m * (a + d));
    if s > 0 {
        lemma_floor_ratio_bounds(d, s, a);
        assert(m * a <= d * s);
        assert(g <= d) by (nonlinear_arith)
            requires
                g * (s + m) <= m * (a + d),
                m * a <= d * s,
                0 < s + m,
                0 <= g,
        ;
    } else {
        assert(g <= d) by (nonlinear_arith)
            requires
                g * m <= m * d,
                0 < m,
        ;
    }
}

/// The fee never lowers a quote below zero nor lifts it above the gross
/// claim, and a higher fee rate never pays out more: with the totals and the
/// share amount fixed, the gross claim is the same, the fee does not shrink
/// and the payout does not grow. The payout is strictly smaller as soon as
/// the two rates differ by a whole asset unit on the gross claim; below that,
/// rounding toward zero can charge both rates the same fee.
pub proof fn lemma_fee_monotonic(low: Vault, high: Vault, shares: u64)
    requires
        low.wf(),
        high.wf(),
        low.total_assets == high.total_assets,
        low.total_shares == high.total_shares,
        low.fee_bps <= high.fee_bps,
        0 < shares <= low.total_shares,
    ensures
        low.quote_redeem_spec(shares) is Ok,
        high.quote_redeem_spec(shares) is Ok,
        low.quote_redeem_spec(shares)->Ok_0.gross_assets == high.quote_redeem_spec(
            shares,
        )->Ok_0.gross_assets,
        0 <= low.quote_redeem_spec(shares)->Ok_0.fee <= high.quote_redeem_spec(shares)->Ok_0.fee
            <= high.quote_redeem_spec(shares)->Ok_0.gross_assets,
        high.quote_redeem_spec(shares)->Ok_0.net_assets <= low.quote_redeem_spec(
            shares,
        )->Ok_0.net_assets,
        low.gross_of(shares) * (high.fee_bps - low.fee_bps) >= BPS_DENOMINATOR
            ==> high.quote_redeem_spec(shares)->Ok_0.net_assets < low.quote_redeem_spec(
            shares,
        )->Ok_0.net_assets,
{
    low.lemma_quote_redeem_bounds(shares);
    high.lemma_quote_redeem_bounds(shares);
    let g = low.gross_of(shares);
    let fl = low.fee_bps as int;
    let fh = high.fee_bps as int;
    let d = BPS_DENOMINATOR as int;
    lemma_floor_ratio_monotonic(g, fl, fh, d);
    lemma_floor_ratio_bounds(g, fl, d);
    lemma_floor_ratio_bounds(g, fh, d);
    let ql = floor_ratio(g, fl, d);
    let qh = floor_ratio(g, fh, d);
    if g * (fh - fl) >= d {
        assert(ql < qh) by (nonlinear_arith)
            requires
                ql * d <= g * fl,
                g * fh < (qh + 1) * d,
                g * (fh - fl) >= d,
                0 < d,
        ;
    }
}

/// An authorization is good for one use: once a nonce has been accepted the
/// stored value is one higher, so presenting the same nonce again is refused,
/// and refused as a mismatch whenever the second request is still in time.
pub proof fn lemma_nonce_is_single_use(
    stored: u64,
    presented: u64,
    deadline: i64,
    current_time: i64,
    later_deadline: i64,
    later_time: i64,
)
    requires
        check_spec(stored, presented, deadline, current_time) is Ok,
    ensures
        presented == stored,
        current_time <= deadline,
        check_spec(stored, presented, deadline, current_time)->Ok_0 == stored + 1,
        check_spec(
            check_spec(stored, presented, deadline, current_time)->Ok_0,
            presented,
            later_deadline,
            later_time,
        ) is Err,
        later_time <= later_deadline ==> check_spec(
            check_spec(stored, presented, deadline, current_time)->Ok_0,
            presented,
            later_deadline,
            later_time,
        ) == Err::<u64, VaultError>(VaultError::NonceMismatch),
{
}

/// In a guard, accepting an authorization of one owner makes a replay of it
/// fail and leaves the nonce of every other principal as it was.
pub proof fn lemma_guard_is_single_use(
    before: ReplayGuard,
    after: ReplayGuard,
    owner: Principal,
    presented: u64,
    deadline: i64,
    current_time: i64,
    later_deadline: i64,
    later_time: i64,
)
    requires
        check_spec(before.stored_nonce(owner), presented, deadline, current_time) is Ok,
        after@ == before@.insert(
            owner,
            check_spec(before.stored_nonce(owner), presented, deadline, current_time)->Ok_0,
        ),
    ensures
        after.stored_nonce(owner) == before.stored_nonce(owner) + 1,
        check_spec(after.stored_nonce(owner), presented, later_deadline, later_time) is Err,
        later_time <= later_deadline ==> check_spec(
            after.stored_nonce(owner),
            presented,
            later_deadline,
            later_time,
        ) == Err::<u64, VaultError>(VaultError::NonceMismatch),
        forall|other: Principal|
            other != owner ==> #[trigger] after.stored_nonce(other) == before.stored_nonce(other),
{
}

/// One operation on the ledger, as far as the totals are concerned.
pub enum LedgerOp {
    Deposit { assets: u64 },
    Redeem { shares: u64 },
}

/// The ledger after one operation; an operation that is refused changes
/// nothing.
pub open spec fn step(vault: Vault, op: LedgerOp) -> Vault {
    match op {
        LedgerOp::Deposit { assets } => match deposit_spec(vault, assets) {
            Ok((after, _)) => after,
            Err(_) => vault,
        },
        LedgerOp::Redeem { shares } => match redeem_spec(vault, shares) {
            Ok((after, _)) => after,
            Err(_) => vault,
        },
    }
}

/// The ledger after a sequence of operations, applied first to last.
pub open spec fn run(vault: Vault, ops: Seq<LedgerOp>) -> Vault
    decreases ops.len(),
{
    if ops.len() == 0 {
        vault
    } else {
        step(run(vault, ops.drop_last()), ops.last())
    }
}

/// One operation keeps the ledger well formed, never lowers the assets behind
/// each share while shares are outstanding, and never lets the assets fall
/// below the number of shares once they cover it.
pub proof fn lemma_step(vault: Vault, op: LedgerOp)
    requires
        vault.wf(),
    ensures
        step(vault, op).wf(),
        step(vault, op).fee_bps == vault.fee_bps,
        vault.total_shares > 0 ==> step(vault, op).total_assets * vault.total_shares
            >= vault.total_assets * step(vault, op).total_shares,
        vault.total_assets >= vault.total_shares ==> step(vault, op).total_assets >= step(
            vault,
            op,
        ).total_shares,
{
    let a = vault.total_assets as int;
    let s = vault.total_shares as int;
    match op {
        LedgerOp::Deposit { assets } => {
            if deposit_spec(vault, assets) is Ok {
                lemma_deposit_rate_never_falls(vault, assets);
                let m = deposit_spec(vault, assets)->Ok_0.1 as int;
                if s > 0 && a >= s {
                    lemma_floor_ratio_bounds(assets as int, s, a);
                    assert(m <= assets) by (nonlinear_arith)
                        requires
                            m * a <= assets * s,
                            0 < s <= a,
                            0 <= m,
                    ;
                }
            }
        },
        LedgerOp::Redeem { shares } => {
            lemma_redeem_succeeds(vault, shares);
            if redeem_spec(vault, shares) is Ok {
                lemma_redeem_rate_never_falls(vault, shares);
                vault.lemma_quote_redeem_bounds(shares);
                let g = vault.gross_of(shares);
                let k = shares as int;
                if a >= s {
                    lemma_floor_ratio_bounds(k, a, s);
                    assert(g - k <= a - s) by (nonlinear_arith)
                        requires
                            g * s <= k * a,
                            0 < k <= s <= a,
                    ;
                }
            }
        },
    }
}

/// Every sequence of deposits and redemptions keeps the ledger well formed
/// and the fee unchanged, and a ledger whose assets cover its shares one for
/// one, as the empty ledger does, stays so: a share is never worth less than
/// the rate the first deposit set.
pub proof fn lemma_run_keeps_invariants(vault: Vault, ops: Seq<LedgerOp>)
    requires
        vault.wf(),
    ensures
        run(vault, ops).wf(),
        run(vault, ops).fee_bps == vault.fee_bps,
        vault.total_assets >= vault.total_shares ==> run(vault, ops).total_assets >= run(
            vault,
            ops,
        ).total_shares,
    decreases ops.len(),
{
    if ops.len() > 0 {
        lemma_run_keeps_invariants(vault, ops.drop_last());
        lemma_step(run(vault, ops.drop_last()), ops.last());
    }
}

/// Over every sequence of deposits and redemptions during which shares stay
/// outstanding, the assets behind each share never fall: the ratio of assets
/// to shares at the end is at least the ratio at the start. Rounding and fees
/// only ever move it upward.
///
/// The ratio is undefined while no shares are outstanding, and the deposit
/// that follows sets it anew, so the law speaks of sequences that never pass
/// through that state.
pub proof fn lemma_rate_never_falls_over_run(vault: Vault, ops: Seq<LedgerOp>)
    requires
        vault.wf(),
        forall|k: int| 0 <= k <= ops.len() ==> (#[trigger] run(vault, ops.take(k))).total_shares > 0,
    ensures
        run(vault, ops).total_assets * vault.total_shares >= vault.total_assets * run(
            vault,
            ops,
        ).total_shares,
    decreases ops.len(),
{
    assert(ops.take(0) =~= Seq::<LedgerOp>::empty());
    assert(run(vault, ops.take(0)) == vault);
    if ops.len() > 0 {
        let front = ops.drop_last();
        assert(front =~= ops.take(ops.len() - 1));
        assert forall|k: int| 0 <= k <= front.len() implies (#[trigger] run(
            vault,
            front.take(k),
        )).total_shares > 0 by {
            assert(front.take(k) =~= ops.take(k));
        }
        lemma_rate_never_falls_over_run(vault, front);
        let mid = run(vault, front);
        lemma_run_keeps_invariants(vault, front);
        lemma_step(mid, ops.last());
        assert(ops.take(ops.len() as int) =~= ops);
        let a1 = vault.total_assets as int;
        let s1 = vault.total_shares as int;
        let a2 = mid.total_assets as int;
        let s2 = mid.total_shares as int;
        let a3 = run(vault, ops).total_assets as int;
        let s3 = run(vault, ops).total_shares as int;
        assert(s2 > 0);
        assert(a3 * s1 >= a1 * s3) by (nonlinear_arith)
            requires
                a2 * s1 >= a1 * s2,
                a3 * s2 >= a2 * s3,
                0 < s2,
                0 <= s1,
                0 <= s3,
                0 <= a1,
                0 <= a2,
                0 <= a3,
        {
            assert(a2 * s1 * s3 >= a1 * s2 * s3);
            assert(a3 * s2 * s1 >= a2 * s3 * s1);
            assert((a3 * s1) * s2 >= (a1 * s3) * s2);
        }
    }
}

} // verus!
