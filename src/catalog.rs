use vstd::prelude::*;
use crate::accounts::{DesignMeta, UpdatePrice, UploadDesign};
use crate::error::ErrorCode;
use crate::events::{DesignUploaded, PriceUpdated};

verus! {

/// Whether a listing can be created, and if not, the first check it fails:
/// a fresh record, a signer that owns the profile, a positive price and
/// stock, and counters with room for one more.
pub open spec fn upload_check(ctx: UploadDesign, price_lamports: u64, inventory: u32) -> Result<
    (),
    ErrorCode,
> {
    if ctx.design_meta is Some {
        Err(ErrorCode::AlreadyInitialized)
    } else if ctx.designer_profile.designer != ctx.designer {
        Err(ErrorCode::NotOwner)
    } else if price_lamports == 0 {
        Err(ErrorCode::InvalidPrice)
    } else if inventory == 0 {
        Err(ErrorCode::InvalidInventory)
    } else if ctx.designer_profile.total_designs == u32::MAX || ctx.platform_state.total_designs
        == u64::MAX {
        Err(ErrorCode::Overflow)
    } else {
        Ok(())
    }
}

/// Lists a new design of the signing designer, bound to the designer's
/// token class, with its whole stock available, and counts it on the profile
/// and the platform.
pub fn upload_design(
    ctx: &mut UploadDesign,
    image_hash: [u8; 32],
    price_lamports: u64,
    inventory: u32,
    ts_unix: i64,
) -> (r: Result<DesignUploaded, ErrorCode>)
    ensures
        upload_check(*old(ctx), price_lamports, inventory) is Ok ==> r is Ok,
        match r {
            Ok(event) => {
                &&& upload_check(*old(ctx), price_lamports, inventory) is Ok
                &&& final(ctx).design_meta == Some(
                    (DesignMeta {
                        designer: old(ctx).designer,
                        image_hash,
                        ts_unix,
                        price_lamports,
                        inventory,
                        initial_inventory: inventory,
                        mint: old(ctx).designer_profile.token_mint,
                        total_sales: 0,
                    }),
                )
                &&& final(ctx).design_meta matches Some(d) && d.wf()
                &&& final(ctx).designer_profile.total_designs == old(
                    ctx,
                ).designer_profile.total_designs + 1
                &&& final(ctx).designer_profile.total_sales == old(ctx).designer_profile.total_sales
                &&& final(ctx).designer_profile.designer == old(ctx).designer_profile.designer
                &&& final(ctx).designer_profile.token_mint == old(ctx).designer_profile.token_mint
                &&& final(ctx).designer_profile.name == old(ctx).designer_profile.name
                &&& final(ctx).designer_profile.ipfs_bio_uri
                    == old(ctx).designer_profile.ipfs_bio_uri
                &&& final(ctx).designer_profile.created_at == old(ctx).designer_profile.created_at
                &&& final(ctx).platform_state.total_designs == old(ctx).platform_state.total_designs
                    + 1
                &&& final(ctx).platform_state.total_designers == old(
                    ctx,
                ).platform_state.total_designers
                &&& final(ctx).platform_state.platform_fee_bps == old(
                    ctx,
                ).platform_state.platform_fee_bps
                &&& final(ctx).platform_state.platform_treasury == old(
                    ctx,
                ).platform_state.platform_treasury
                &&& final(ctx).design_id == old(ctx).design_id
                &&& final(ctx).designer == old(ctx).designer
                &&& event == (DesignUploaded {
                    designer: old(ctx).designer,
                    design_id: old(ctx).design_id,
                    image_hash,
                    price_lamports,
                    inventory,
                })
            },
            Err(e) => upload_check(*old(ctx), price_lamports, inventory) == Err::<(), ErrorCode>(e)
                && *final(ctx) == *old(ctx),
        },
{
    if ctx.design_meta.is_some() {
        return Err(ErrorCode::AlreadyInitialized);
    }
    if ctx.designer_profile.designer != ctx.designer {
        return Err(ErrorCode::NotOwner);
    }
    if price_lamports == 0 {
        return Err(ErrorCode::InvalidPrice);
    }
    if inventory == 0 {
        return Err(ErrorCode::InvalidInventory);
    }
    if ctx.designer_profile.total_designs == u32::MAX || ctx.platform_state.total_designs
        == u64::MAX {
        return Err(ErrorCode::Overflow);
    }
    ctx.design_meta = Some(
        DesignMeta {
            designer: ctx.designer,
            image_hash,
            ts_unix,
            price_lamports,
            inventory,
            initial_inventory: inventory,
            mint: ctx.designer_profile.token_mint,
            total_sales: 0,
        },
    );
    ctx.designer_profile.total_designs = ctx.designer_profile.total_designs + 1;
    ctx.platform_state.total_designs = ctx.platform_state.total_designs + 1;
    Ok(
        DesignUploaded {
            designer: ctx.designer,
            design_id: ctx.design_id,
            image_hash,
            price_lamports,
            inventory,
        },
    )
}

/// Changes a listing's price. Only the listing's designer may, and the new
/// price must be positive; stock, sales and token binding stay as they were.
pub fn update_price(ctx: &mut UpdatePrice, new_price_lamports: u64) -> (r: Result<
    PriceUpdated,
    ErrorCode,
>)
    ensures
        old(ctx).designer != old(ctx).design_meta.designer ==> r == Err::<PriceUpdated, ErrorCode>(
            ErrorCode::NotOwner,
        ),
        old(ctx).designer == old(ctx).design_meta.designer && new_price_lamports == 0 ==> r
            == Err::<PriceUpdated, ErrorCode>(ErrorCode::InvalidPrice),
        r is Err ==> *final(ctx) == *old(ctx),
        old(ctx).designer == old(ctx).design_meta.designer && new_price_lamports > 0 ==> {
            &&& r == Ok::<PriceUpdated, ErrorCode>(
                (PriceUpdated {
                    design_id: old(ctx).design_id,
                    old_price: old(ctx).design_meta.price_lamports,
                    new_price: new_price_lamports,
                }),
            )
            &&& final(ctx).design_meta == (DesignMeta {
                price_lamports: new_price_lamports,
                ..old(ctx).design_meta
            })
            &&& final(ctx).design_id == old(ctx).design_id
            &&& final(ctx).designer == old(ctx).designer
        },
        old(ctx).design_meta.wf() ==> final(ctx).design_meta.wf(),
        final(ctx).design_meta.inventory == old(ctx).design_meta.inventory,
{
    if ctx.designer != ctx.design_meta.designer {
        return Err(ErrorCode::NotOwner);
    }
    if new_price_lamports == 0 {
        return Err(ErrorCode::InvalidPrice);
    }
    let old_price = ctx.design_meta.price_lamports;
    ctx.design_meta.price_lamports = new_price_lamports;
    Ok(PriceUpdated { design_id: ctx.design_id, old_price, new_price: new_price_lamports })
}

} // verus!
