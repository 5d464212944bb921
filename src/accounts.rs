use vstd::prelude::*;
use crate::identity::Identity;

verus! {

/// Largest platform fee, in basis points: the whole sale.
pub const MAX_FEE_BPS: u16 = 10000;

/// The platform-wide configuration record.
#[derive(Clone, Copy, Debug)]
pub struct PlatformState {
    pub platform_treasury: Identity,
    /// Fee taken from each sale, in basis points (500 is 5%).
    pub platform_fee_bps: u16,
    pub total_designers: u64,
    pub total_designs: u64,
}

impl PlatformState {
    /// The fee never exceeds the sale total.
    pub open spec fn wf(&self) -> bool {
        self.platform_fee_bps <= MAX_FEE_BPS
    }
}

/// A designer's profile, one per owner identity.
#[derive(Clone, Debug)]
pub struct DesignerProfile {
    pub designer: Identity,
    pub name: String,
    pub ipfs_bio_uri: String,
    pub token_mint: Identity,
    pub total_designs: u32,
    pub total_sales: u32,
    pub created_at: i64,
}

/// A priced, inventoried listing.
#[derive(Clone, Copy, Debug)]
pub struct DesignMeta {
    pub designer: Identity,
    pub image_hash: [u8; 32],
    pub ts_unix: i64,
    pub price_lamports: u64,
    pub inventory: u32,
    pub initial_inventory: u32,
    pub mint: Identity,
    pub total_sales: u32,
}

impl DesignMeta {
    /// A listing has a positive price, and every unit it started with is
    /// either still in stock or sold.
    pub open spec fn wf(&self) -> bool {
        &&& self.price_lamports > 0
        &&& self.total_sales + self.inventory == self.initial_inventory
    }

    pub fn is_well_formed(&self) -> (r: bool)
        ensures
            r == self.wf(),
    {
        self.price_lamports > 0 && self.inventory <= self.initial_inventory
            && self.total_sales == self.initial_inventory - self.inventory
    }
}

/// Accounts of `initialize_platform`: the configuration record, absent until
/// the platform is set up.
#[derive(Clone, Debug)]
pub struct InitializePlatform {
    pub platform_state: Option<PlatformState>,
    pub platform_treasury: Identity,
}

/// Accounts of `register_designer`.
#[derive(Clone, Debug)]
pub struct RegisterDesigner {
    /// The profile record of `designer`, absent until it registers.
    pub designer_profile: Option<DesignerProfile>,
    /// The token class created for the designer.
    pub designer_token_mint: Identity,
    pub platform_state: PlatformState,
    pub designer: Identity,
}

/// Accounts of `upload_design`.
#[derive(Clone, Debug)]
pub struct UploadDesign {
    /// The listing record, absent until it is created.
    pub design_meta: Option<DesignMeta>,
    /// The address of the listing record, derived from the designer and the
    /// platform's design counter.
    pub design_id: Identity,
    pub designer_profile: DesignerProfile,
    pub platform_state: PlatformState,
    pub designer: Identity,
}

/// Accounts of `update_price`.
#[derive(Clone, Copy, Debug)]
pub struct UpdatePrice {
    pub design_meta: DesignMeta,
    pub design_id: Identity,
    /// The signer of the instruction.
    pub designer: Identity,
}

/// Accounts of `buy`, with the payment-unit balances that the sale moves.
#[derive(Clone, Debug)]
pub struct Buy {
    pub design_meta: DesignMeta,
    pub design_id: Identity,
    pub designer_profile: DesignerProfile,
    pub platform_state: PlatformState,
    /// Balance of the listing's escrow before this sale.
    pub escrow_lamports: u64,
    pub platform_treasury_lamports: u64,
    pub buyer: Identity,
}

impl Buy {
    pub open spec fn wf(&self) -> bool {
        self.design_meta.wf() && self.platform_state.wf()
    }
}

/// Accounts of `withdraw_fee`.
#[derive(Clone, Copy, Debug)]
pub struct WithdrawFee {
    pub platform_state: PlatformState,
    pub platform_treasury: Identity,
    pub platform_treasury_lamports: u64,
    pub destination: Identity,
    pub destination_lamports: u64,
    /// The signer of the withdrawal. It is carried for the record only:
    /// `withdraw_fee` does not check it, since signature and authority checks
    /// belong to the ledger that runs the instruction.
    pub authority: Identity,
}

/// Accounts of `distribute_to_holder`.
#[derive(Clone, Copy, Debug)]
pub struct DistributeRevenue {
    pub design_id: Identity,
    pub escrow_lamports: u64,
    pub holder: Identity,
    pub holder_lamports: u64,
}

} // verus!
