use vstd::prelude::*;
use vstd::string::StrSliceExecFns;
use crate::accounts::{
    DesignerProfile, InitializePlatform, MAX_FEE_BPS, PlatformState, RegisterDesigner, WithdrawFee,
};
use crate::error::ErrorCode;
use crate::events::{DesignerRegistered, FeeWithdrawn};

verus! {

/// Supply of every designer token class: one million whole tokens of six
/// decimals, in minor units.
pub const TOTAL_SUPPLY: u64 = 1_000_000_000_000;

/// Longest display name, in characters.
pub const MAX_NAME_LEN: usize = 50;

/// Longest biography URI, in characters.
pub const MAX_URI_LEN: usize = 200;

/// Percentage of a new token class that goes to its designer; the rest goes
/// to the platform's pool.
pub const DESIGNER_PERCENT: u64 = 90;

/// How a new token class is split at registration.
#[derive(Clone, Copy, Debug, PartialEq, Eq, Structural)]
pub struct TokenAllocation {
    pub designer_share: u64,
    pub pool_share: u64,
}

/// Splits `total_supply` between the designer (90%, rounded down) and the
/// pool (the rest), so that the two always add up to the supply.
pub fn token_allocation(total_supply: u64) -> (a: TokenAllocation)
    ensures
        a.designer_share == total_supply as int * DESIGNER_PERCENT as int / 100,
        a.designer_share + a.pool_share == total_supply,
{
    assert(total_supply as int * 90 <= u64::MAX * 90) by (nonlinear_arith)
        requires
            total_supply <= u64::MAX,
    ;
    let wide: u128 = (total_supply as u128) * (DESIGNER_PERCENT as u128) / 100;
    assert(wide <= total_supply) by (nonlinear_arith)
        requires
            wide == total_supply as int * 90 / 100,
    ;
    let designer_share = wide as u64;
    TokenAllocation { designer_share, pool_share: total_supply - designer_share }
}

/// Sets up the platform configuration with its treasury and fee rate.
/// Counters start at zero. A fee rate above the whole sale is refused.
pub fn initialize_platform(ctx: &mut InitializePlatform, platform_fee_bps: u16) -> (r: Result<
    (),
    ErrorCode,
>)
    ensures
        old(ctx).platform_state is Some ==> r == Err::<(), ErrorCode>(
            ErrorCode::AlreadyInitialized,
        ) && *final(ctx) == *old(ctx),
        old(ctx).platform_state is None && platform_fee_bps > MAX_FEE_BPS ==> r == Err::<
            (),
            ErrorCode,
        >(ErrorCode::InvalidFee) && *final(ctx) == *old(ctx),
        old(ctx).platform_state is None && platform_fee_bps <= MAX_FEE_BPS ==> r is Ok && final(ctx).platform_treasury
            == old(ctx).platform_treasury && final(ctx).platform_state == Some(
            (PlatformState {
                platform_treasury: old(ctx).platform_treasury,
                platform_fee_bps,
                total_designers: 0,
                total_designs: 0,
            }),
        ),
{
    if ctx.platform_state.is_some() {
        return Err(ErrorCode::AlreadyInitialized);
    }
    if platform_fee_bps > MAX_FEE_BPS {
        return Err(ErrorCode::InvalidFee);
    }
    ctx.platform_state = Some(
        PlatformState {
            platform_treasury: ctx.platform_treasury,
            platform_fee_bps,
            total_designers: 0,
            total_designs: 0,
        },
    );
    Ok(())
}

/// Whether a registration goes through, and if not, the first check it
/// fails.
pub open spec fn register_check(ctx: RegisterDesigner, name: Seq<char>, ipfs_bio_uri: Seq<char>) -> Result<(), ErrorCode> {
    if ctx.designer_profile is Some {
        Err(ErrorCode::AlreadyInitialized)
    } else if name.len() > MAX_NAME_LEN {
        Err(ErrorCode::NameTooLong)
    } else if ipfs_bio_uri.len() > MAX_URI_LEN {
        Err(ErrorCode::UriTooLong)
    } else if ctx.platform_state.total_designers == u64::MAX {
        Err(ErrorCode::Overflow)
    } else {
        Ok(())
    }
}

/// Registers a designer: creates its profile, bound to its new token class,
/// and counts it on the platform. Returns the registration record and the
/// split of the token supply to issue, 90% to the designer and 10% to the
/// platform's pool.
pub fn register_designer(
    ctx: &mut RegisterDesigner,
    name: String,
    ipfs_bio_uri: String,
    created_at: i64,
) -> (r: Result<(DesignerRegistered, TokenAllocation), ErrorCode>)
    ensures
        register_check(*old(ctx), name@, ipfs_bio_uri@) is Ok ==> r is Ok,
        match r {
            Ok((event, alloc)) => {
                &&& register_check(*old(ctx), name@, ipfs_bio_uri@) is Ok
                &&& final(ctx).designer_profile matches Some(p) && p.designer == old(ctx).designer
                    && p.name@ == name@ && p.ipfs_bio_uri@ == ipfs_bio_uri@ && p.token_mint
                    == old(ctx).designer_token_mint && p.total_designs == 0 && p.total_sales == 0
                    && p.created_at == created_at
                &&& final(ctx).platform_state.total_designers == old(
                    ctx,
                ).platform_state.total_designers + 1
                &&& final(ctx).platform_state.total_designs == old(ctx).platform_state.total_designs
                &&& final(ctx).platform_state.platform_fee_bps == old(
                    ctx,
                ).platform_state.platform_fee_bps
                &&& final(ctx).platform_state.platform_treasury == old(
                    ctx,
                ).platform_state.platform_treasury
                &&& final(ctx).designer == old(ctx).designer
                &&& final(ctx).designer_token_mint == old(ctx).designer_token_mint
                &&& event.designer == old(ctx).designer
                &&& event.token_mint == old(ctx).designer_token_mint
                &&& event.name@ == name@
                &&& alloc.designer_share == TOTAL_SUPPLY as int * DESIGNER_PERCENT as int / 100
                &&& alloc.designer_share + alloc.pool_share == TOTAL_SUPPLY
            },
            Err(e) => register_check(*old(ctx), name@, ipfs_bio_uri@) == Err::<(), ErrorCode>(e)
                && *final(ctx) == *old(ctx),
        },
{
    if ctx.designer_profile.is_some() {
        return Err(ErrorCode::AlreadyInitialized);
    }
    if name.as_str().unicode_len() > MAX_NAME_LEN {
        return Err(ErrorCode::NameTooLong);
    }
    if ipfs_bio_uri.as_str().unicode_len() > MAX_URI_LEN {
        return Err(ErrorCode::UriTooLong);
    }
    if ctx.platform_state.total_designers == u64::MAX {
        return Err(ErrorCode::Overflow);
    }
    let alloc = token_allocation(TOTAL_SUPPLY);
    let event = DesignerRegistered {
        designer: ctx.designer,
        token_mint: ctx.designer_token_mint,
        name: name.clone(),
    };
    ctx.designer_profile = Some(
        DesignerProfile {
            designer: ctx.designer,
            name,
            ipfs_bio_uri,
            token_mint: ctx.designer_token_mint,
            total_designs: 0,
            total_sales: 0,
            created_at,
        },
    );
    ctx.platform_state.total_designers = ctx.platform_state.total_designers + 1;
    Ok((event, alloc))
}

/// Whether a fee withdrawal goes through, and if not, the first check it
/// fails: the treasury named is the platform's, and the balances can take
/// the move.
pub open spec fn withdraw_check(ctx: WithdrawFee, amount: u64) -> Result<(), ErrorCode> {
    if ctx.platform_treasury != ctx.platform_state.platform_treasury {
        Err(ErrorCode::Unauthorized)
    } else if ctx.platform_treasury_lamports < amount || ctx.destination_lamports + amount
        > u64::MAX {
        Err(ErrorCode::Overflow)
    } else {
        Ok(())
    }
}

/// Moves `amount` of collected fees from the platform treasury to a
/// destination.
pub fn withdraw_fee(ctx: &mut WithdrawFee, amount: u64) -> (r: Result<FeeWithdrawn, ErrorCode>)
    ensures
        withdraw_check(*old(ctx), amount) is Ok ==> r is Ok,
        match r {
            Ok(event) => {
                &&& withdraw_check(*old(ctx), amount) is Ok
                &&& final(ctx).platform_treasury_lamports == old(ctx).platform_treasury_lamports
                    - amount
                &&& final(ctx).destination_lamports == old(ctx).destination_lamports + amount
                &&& final(ctx).platform_state == old(ctx).platform_state
                &&& final(ctx).platform_treasury == old(ctx).platform_treasury
                &&& final(ctx).destination == old(ctx).destination
                &&& final(ctx).authority == old(ctx).authority
                &&& event == (FeeWithdrawn { amount, destination: old(ctx).destination })
            },
            Err(e) => withdraw_check(*old(ctx), amount) == Err::<(), ErrorCode>(e) && *final(ctx)
                == *old(ctx),
        },
{
    if ctx.platform_treasury != ctx.platform_state.platform_treasury {
        return Err(ErrorCode::Unauthorized);
    }
    if ctx.platform_treasury_lamports < amount {
        return Err(ErrorCode::Overflow);
    }
    let destination_after = match ctx.destination_lamports.checked_add(amount) {
        Some(b) => b,
        None => return Err(ErrorCode::Overflow),
    };
    ctx.platform_treasury_lamports = ctx.platform_treasury_lamports - amount;
    ctx.destination_lamports = destination_after;
    Ok(FeeWithdrawn { amount, destination: ctx.destination })
}

} // verus!
