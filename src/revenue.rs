use vstd::prelude::*;
use crate::accounts::DistributeRevenue;
use crate::error::ErrorCode;
use crate::events::RevenueDistributed;

verus! {

/// A holder's share of `total_revenue`:
/// `floor(total_revenue * holder_balance / total_supply)`.
pub open spec fn share_of(total_revenue: int, holder_balance: int, total_supply: int) -> int {
    total_revenue * holder_balance / total_supply
}

/// The share, computed with a 128-bit product; `None` when it does not fit
/// in 64 bits.
fn proportional_share(total_revenue: u64, holder_balance: u64, total_supply: u64) -> (r: Option<
    u64,
>)
    requires
        total_supply > 0,
    ensures
        r == (if share_of(total_revenue as int, holder_balance as int, total_supply as int)
            <= u64::MAX {
            Some(share_of(total_revenue as int, holder_balance as int, total_supply as int) as u64)
        } else {
            None::<u64>
        }),
{
    assert(0 <= (total_revenue as int) * (holder_balance as int) <= u64::MAX * u64::MAX)
        by (nonlinear_arith);
    let wide: u128 = (total_revenue as u128) * (holder_balance as u128);
    let share: u128 = wide / (total_supply as u128);
    if share <= u64::MAX as u128 {
        Some(share as u64)
    } else {
        None
    }
}

/// Previews a holder's share without moving funds.
///
/// Fails with `InvalidQuantity` when `total_supply` is zero and with
/// `Overflow` when the share does not fit in 64 bits (a balance above the
/// supply); a zero balance gets `0`.
pub fn calculate_distribution(total_revenue: u64, holder_balance: u64, total_supply: u64) -> (r:
    Result<u64, ErrorCode>)
    ensures
        total_supply == 0 ==> r == Err::<u64, ErrorCode>(ErrorCode::InvalidQuantity),
        total_supply > 0 && holder_balance == 0 ==> r == Ok::<u64, ErrorCode>(0),
        total_supply > 0 ==> (r is Err <==> share_of(
            total_revenue as int,
            holder_balance as int,
            total_supply as int,
        ) > u64::MAX),
        total_supply > 0 && r is Err ==> r == Err::<u64, ErrorCode>(ErrorCode::Overflow),
        r matches Ok(share) ==> share == share_of(
            total_revenue as int,
            holder_balance as int,
            total_supply as int,
        ),
{
    if total_supply == 0 {
        return Err(ErrorCode::InvalidQuantity);
    }
    if holder_balance == 0 {
        assert(share_of(total_revenue as int, 0, total_supply as int) == 0) by (nonlinear_arith)
            requires
                total_supply > 0,
        ;
        return Ok(0);
    }
    match proportional_share(total_revenue, holder_balance, total_supply) {
        Some(share) => Ok(share),
        None => Err(ErrorCode::Overflow),
    }
}

/// Whether a payout to one holder goes through, and if not, the first check
/// it fails: a positive supply and balance, a share that fits in 64 bits, an
/// escrow that covers it and a holder balance that can take it.
pub open spec fn distribute_check(
    ctx: DistributeRevenue,
    total_revenue: u64,
    holder_balance: u64,
    total_supply: u64,
) -> Result<(), ErrorCode> {
    let share = share_of(total_revenue as int, holder_balance as int, total_supply as int);
    if total_supply == 0 || holder_balance == 0 {
        Err(ErrorCode::InvalidQuantity)
    } else if share > u64::MAX {
        Err(ErrorCode::Overflow)
    } else if share > 0 && (ctx.escrow_lamports < share || ctx.holder_lamports + share
        > u64::MAX) {
        Err(ErrorCode::Overflow)
    } else {
        Ok(())
    }
}

/// Pays one holder its share of a listing's revenue out of the escrow.
///
/// The share is `floor(total_revenue * holder_balance / total_supply)`. A
/// share that rounds down to zero moves nothing and yields no record; what
/// rounding leaves behind stays in escrow.
pub fn distribute_to_holder(
    ctx: &mut DistributeRevenue,
    total_revenue: u64,
    holder_balance: u64,
    total_supply: u64,
) -> (r: Result<Option<RevenueDistributed>, ErrorCode>)
    ensures
        distribute_check(*old(ctx), total_revenue, holder_balance, total_supply) is Ok ==> r is Ok,
        match r {
            Ok(paid) => {
                let share = share_of(
                    total_revenue as int,
                    holder_balance as int,
                    total_supply as int,
                );
                &&& distribute_check(*old(ctx), total_revenue, holder_balance, total_supply) is Ok
                &&& final(ctx).escrow_lamports == old(ctx).escrow_lamports - share
                &&& final(ctx).holder_lamports == old(ctx).holder_lamports + share
                &&& final(ctx).design_id == old(ctx).design_id
                &&& final(ctx).holder == old(ctx).holder
                &&& (share == 0 <==> paid is None)
                &&& (paid matches Some(rec) ==> rec == (RevenueDistributed {
                    design_id: old(ctx).design_id,
                    holder: old(ctx).holder,
                    amount: share as u64,
                    holder_balance,
                    total_supply,
                }))
            },
            Err(e) => distribute_check(*old(ctx), total_revenue, holder_balance, total_supply)
                == Err::<(), ErrorCode>(e) && *final(ctx) == *old(ctx),
        },
{
    if total_supply == 0 || holder_balance == 0 {
        return Err(ErrorCode::InvalidQuantity);
    }
    let share = match proportional_share(total_revenue, holder_balance, total_supply) {
        Some(s) => s,
        None => return Err(ErrorCode::Overflow),
    };
    if share == 0 {
        return Ok(None);
    }
    if ctx.escrow_lamports < share {
        return Err(ErrorCode::Overflow);
    }
    let holder_after = match ctx.holder_lamports.checked_add(share) {
        Some(b) => b,
        None => return Err(ErrorCode::Overflow),
    };
    ctx.escrow_lamports = ctx.escrow_lamports - share;
    ctx.holder_lamports = holder_after;
    Ok(
        Some(
            RevenueDistributed {
                design_id: ctx.design_id,
                holder: ctx.holder,
                amount: share,
                holder_balance,
                total_supply,
            },
        ),
    )
}

/// Sum of a sequence of balances.
pub open spec fn total_of(balances: Seq<u64>) -> int
    decreases balances.len(),
{
    if balances.len() == 0 {
        0
    } else {
        total_of(balances.drop_last()) + balances.last()
    }
}

/// Sum of the shares that holders with these balances receive.
pub open spec fn shares_of(total_revenue: int, balances: Seq<u64>, total_supply: int) -> int
    decreases balances.len(),
{
    if balances.len() == 0 {
        0
    } else {
        shares_of(total_revenue, balances.drop_last(), total_supply) + share_of(
            total_revenue,
            balances.last() as int,
            total_supply,
        )
    }
}

/// A holder with a positive balance no larger than the supply gets between
/// zero and the whole revenue.
pub proof fn lemma_share_within_revenue(total_revenue: u64, holder_balance: u64, total_supply: u64)
    requires
        total_supply > 0,
        0 < holder_balance <= total_supply,
    ensures
        0 <= share_of(total_revenue as int, holder_balance as int, total_supply as int)
            <= total_revenue,
{
    let (r, b, s) = (total_revenue as int, holder_balance as int, total_supply as int);
    assert(0 <= r * b <= r * s) by (nonlinear_arith)
        requires
            0 <= r,
            0 < b <= s,
    ;
    assert(0 <= r * b / s <= r * s / s) by (nonlinear_arith)
        requires
            0 <= r * b <= r * s,
            s > 0,
    ;
    assert(r * s / s == r) by (nonlinear_arith)
        requires
            s > 0,
    ;
}

/// With a balance no larger than the supply, the share fits in 64 bits, so
/// `calculate_distribution` never fails for a positive supply.
pub proof fn lemma_share_fits(total_revenue: u64, holder_balance: u64, total_supply: u64)
    requires
        total_supply > 0,
        holder_balance <= total_supply,
    ensures
        share_of(total_revenue as int, holder_balance as int, total_supply as int) <= u64::MAX,
{
    if holder_balance == 0 {
        assert(share_of(total_revenue as int, 0, total_supply as int) == 0) by (nonlinear_arith)
            requires
                total_supply > 0,
        ;
    } else {
        lemma_share_within_revenue(total_revenue, holder_balance, total_supply);
    }
}

/// Rounding down loses less than one unit per holder:
/// `shares * supply <= revenue * total <= shares * supply + n * (supply - 1)`.
proof fn lemma_shares_bracket(total_revenue: u64, balances: Seq<u64>, total_supply: u64)
    requires
        total_supply > 0,
    ensures
        total_of(balances) >= 0,
        shares_of(total_revenue as int, balances, total_supply as int) * total_supply
            <= total_revenue * total_of(balances),
        total_revenue * total_of(balances) <= shares_of(
            total_revenue as int,
            balances,
            total_supply as int,
        ) * total_supply + balances.len() * (total_supply - 1),
    decreases balances.len(),
{
    if balances.len() > 0 {
        let rest = balances.drop_last();
        lemma_shares_bracket(total_revenue, rest, total_supply);
        let (r, s, b) = (total_revenue as int, total_supply as int, balances.last() as int);
        let q = share_of(r, b, s);
        let sr = shares_of(r, rest, s);
        let tr = total_of(rest);
        let n = rest.len() as int;
        assert(q * s <= r * b <= q * s + (s - 1)) by (nonlinear_arith)
            requires
                s > 0,
                q == r * b / s,
        ;
        assert((sr + q) * s == sr * s + q * s) by (nonlinear_arith);
        assert(r * (tr + b) == r * tr + r * b) by (nonlinear_arith);
        assert((n + 1) * (s - 1) == n * (s - 1) + (s - 1)) by (nonlinear_arith);
    }
}

/// Paying every holder of a set whose balances add up to at most the supply
/// pays out at most the revenue; when the balances make up the whole supply,
/// what stays behind as dust is at most one unit less than the number of
/// holders.
pub proof fn lemma_partition_within_revenue(
    total_revenue: u64,
    balances: Seq<u64>,
    total_supply: u64,
)
    requires
        total_supply > 0,
        total_of(balances) <= total_supply,
    ensures
        shares_of(total_revenue as int, balances, total_supply as int) <= total_revenue,
        balances.len() > 0 && total_of(balances) == total_supply ==> total_revenue
            - shares_of(total_revenue as int, balances, total_supply as int) <= balances.len()
            - 1,
{
    lemma_shares_bracket(total_revenue, balances, total_supply);
    let (r, s, t) = (total_revenue as int, total_supply as int, total_of(balances));
    let sh = shares_of(r, balances, s);
    let n = balances.len() as int;
    assert(sh <= r) by (nonlinear_arith)
        requires
            s > 0,
            0 <= r,
            0 <= t <= s,
            sh * s <= r * t,
    ;
    if n > 0 && t == s {
        assert(r - sh <= n - 1) by (nonlinear_arith)
            requires
                s > 0,
                n > 0,
                r * s <= sh * s + n * (s - 1),
        ;
    }
}

} // verus!
