use vstd::prelude::*;
use crate::accounts::{Buy, DesignMeta, DesignerProfile, MAX_FEE_BPS};
use crate::error::ErrorCode;
use crate::events::Sale;

verus! {

/// Basis points in a whole.
pub const BPS_DENOMINATOR: u64 = 10000;

/// The platform's cut of a sale: `floor(total_cost * fee_bps / 10000)`.
pub open spec fn fee_of(total_cost: int, fee_bps: int) -> int {
    total_cost * fee_bps / BPS_DENOMINATOR as int
}

/// The platform fee on a sale of `total_cost`, computed without overflow.
pub fn platform_fee(total_cost: u64, fee_bps: u16) -> (fee: u64)
    requires
        fee_bps <= MAX_FEE_BPS,
    ensures
        fee == fee_of(total_cost as int, fee_bps as int),
        fee <= total_cost,
{
    proof {
        lemma_fee_at_most_cost(total_cost as int, fee_bps as int);
    }
    let wide: u128 = (total_cost as u128) * (fee_bps as u128);
    (wide / (BPS_DENOMINATOR as u128)) as u64
}

proof fn lemma_fee_at_most_cost(total_cost: int, fee_bps: int)
    requires
        0 <= total_cost <= u64::MAX,
        0 <= fee_bps <= MAX_FEE_BPS,
    ensures
        total_cost * fee_bps <= u64::MAX * 10000,
        0 <= fee_of(total_cost, fee_bps) <= total_cost,
{
    assert(0 <= total_cost * fee_bps <= total_cost * 10000) by (nonlinear_arith)
        requires
            0 <= total_cost,
            0 <= fee_bps <= 10000,
    ;
    assert(total_cost * 10000 <= u64::MAX * 10000) by (nonlinear_arith)
        requires
            0 <= total_cost <= u64::MAX,
    ;
    assert(total_cost * fee_bps / 10000 <= total_cost * 10000 / 10000) by (nonlinear_arith)
        requires
            0 <= total_cost * fee_bps <= total_cost * 10000,
    ;
    assert(total_cost * 10000 / 10000 == total_cost) by (nonlinear_arith);
    assert(0 <= total_cost * fee_bps / 10000) by (nonlinear_arith)
        requires
            0 <= total_cost * fee_bps,
    ;
}

/// A listing after `quantity` more of its units were sold.
pub open spec fn design_after_sale(d: DesignMeta, quantity: u32) -> DesignMeta {
    DesignMeta {
        designer: d.designer,
        image_hash: d.image_hash,
        ts_unix: d.ts_unix,
        price_lamports: d.price_lamports,
        inventory: (d.inventory - quantity) as u32,
        initial_inventory: d.initial_inventory,
        mint: d.mint,
        total_sales: (d.total_sales + quantity) as u32,
    }
}

/// A designer's profile after `quantity` more of its units were sold.
pub open spec fn profile_after_sale(p: DesignerProfile, quantity: u32) -> DesignerProfile {
    DesignerProfile {
        designer: p.designer,
        name: p.name,
        ipfs_bio_uri: p.ipfs_bio_uri,
        token_mint: p.token_mint,
        total_designs: p.total_designs,
        total_sales: (p.total_sales + quantity) as u32,
        created_at: p.created_at,
    }
}

/// Whether a purchase of `quantity` units goes through, and if not, the
/// first check it fails: a positive quantity, enough stock, a total cost that
/// fits in 64 bits, and balances and counters that can take the sale.
pub open spec fn buy_check(ctx: Buy, quantity: u32) -> Result<(), ErrorCode> {
    let total_cost = ctx.design_meta.price_lamports * quantity;
    let fee = fee_of(total_cost, ctx.platform_state.platform_fee_bps as int);
    if quantity == 0 {
        Err(ErrorCode::InvalidQuantity)
    } else if ctx.design_meta.inventory < quantity {
        Err(ErrorCode::InsufficientInventory)
    } else if total_cost > u64::MAX {
        Err(ErrorCode::Overflow)
    } else if ctx.escrow_lamports + (total_cost - fee) > u64::MAX
        || ctx.platform_treasury_lamports + fee > u64::MAX
        || ctx.designer_profile.total_sales + quantity > u32::MAX {
        Err(ErrorCode::Overflow)
    } else {
        Ok(())
    }
}

/// Settles a purchase of `quantity` units of a listing.
///
/// The buyer's payment of `price * quantity` lands in the listing's escrow,
/// the platform fee moves on to the treasury, and the rest stays in escrow for
/// the token holders. Stock goes down and the sales counters go up by
/// `quantity`. Either all of it happens or, on an error, nothing does.
pub fn buy(ctx: &mut Buy, quantity: u32) -> (r: Result<Sale, ErrorCode>)
    requires
        old(ctx).wf(),
    ensures
        quantity == 0 ==> r == Err::<Sale, ErrorCode>(ErrorCode::InvalidQuantity) && *final(ctx)
            == *old(ctx),
        quantity > old(ctx).design_meta.inventory ==> r is Err && final(ctx).design_meta.inventory
            == old(ctx).design_meta.inventory,
        0 < quantity && quantity > old(ctx).design_meta.inventory ==> r == Err::<Sale, ErrorCode>(
            ErrorCode::InsufficientInventory,
        ),
        final(ctx).design_meta.inventory <= old(ctx).design_meta.inventory,
        buy_check(*old(ctx), quantity) is Ok ==> r is Ok,
        final(ctx).design_meta.initial_inventory == old(ctx).design_meta.initial_inventory,
        match r {
            Ok(sale) => {
                let total_cost = old(ctx).design_meta.price_lamports * quantity;
                let fee = fee_of(total_cost, old(ctx).platform_state.platform_fee_bps as int);
                &&& buy_check(*old(ctx), quantity) is Ok
                &&& sale.design_id == old(ctx).design_id
                &&& sale.buyer == old(ctx).buyer
                &&& sale.quantity == quantity
                &&& sale.total_cost == total_cost
                &&& sale.platform_fee == fee
                &&& sale.revenue_distributed == total_cost - fee
                &&& final(ctx).escrow_lamports == old(ctx).escrow_lamports + (total_cost - fee)
                &&& final(ctx).platform_treasury_lamports == old(ctx).platform_treasury_lamports
                    + fee
                &&& final(ctx).design_meta == design_after_sale(old(ctx).design_meta, quantity)
                &&& final(ctx).designer_profile == profile_after_sale(
                    old(ctx).designer_profile,
                    quantity,
                )
                &&& final(ctx).platform_state == old(ctx).platform_state
                &&& final(ctx).design_id == old(ctx).design_id
                &&& final(ctx).buyer == old(ctx).buyer
                &&& final(ctx).wf()
            },
            Err(e) => buy_check(*old(ctx), quantity) == Err::<(), ErrorCode>(e) && *final(ctx)
                == *old(ctx),
        },
{
    if quantity == 0 {
        return Err(ErrorCode::InvalidQuantity);
    }
    if ctx.design_meta.inventory < quantity {
        return Err(ErrorCode::InsufficientInventory);
    }
    let total_cost = match ctx.design_meta.price_lamports.checked_mul(quantity as u64) {
        Some(c) => c,
        None => return Err(ErrorCode::Overflow),
    };
    let fee = platform_fee(total_cost, ctx.platform_state.platform_fee_bps);
    let revenue = total_cost - fee;
    let escrow = match ctx.escrow_lamports.checked_add(revenue) {
        Some(b) => b,
        None => return Err(ErrorCode::Overflow),
    };
    let treasury = match ctx.platform_treasury_lamports.checked_add(fee) {
        Some(b) => b,
        None => return Err(ErrorCode::Overflow),
    };
    let designer_sales = match ctx.designer_profile.total_sales.checked_add(quantity) {
        Some(n) => n,
        None => return Err(ErrorCode::Overflow),
    };
    ctx.escrow_lamports = escrow;
    ctx.platform_treasury_lamports = treasury;
    ctx.design_meta.inventory = ctx.design_meta.inventory - quantity;
    ctx.design_meta.total_sales = ctx.design_meta.total_sales + quantity;
    ctx.designer_profile.total_sales = designer_sales;
    Ok(
        Sale {
            design_id: ctx.design_id,
            buyer: ctx.buyer,
            quantity,
            total_cost,
            platform_fee: fee,
            revenue_distributed: revenue,
        },
    )
}

} // verus!
