use vstd::prelude::*;
use crate::identity::Identity;

verus! {

/// A designer registered and received a token class.
#[derive(Clone, Debug)]
pub struct DesignerRegistered {
    pub designer: Identity,
    pub token_mint: Identity,
    pub name: String,
}

/// A listing was created.
#[derive(Clone, Copy, Debug)]
pub struct DesignUploaded {
    pub designer: Identity,
    pub design_id: Identity,
    pub image_hash: [u8; 32],
    pub price_lamports: u64,
    pub inventory: u32,
}

/// A listing's price changed.
#[derive(Clone, Copy, Debug)]
pub struct PriceUpdated {
    pub design_id: Identity,
    pub old_price: u64,
    pub new_price: u64,
}

/// A purchase was settled.
#[derive(Clone, Copy, Debug)]
pub struct Sale {
    pub design_id: Identity,
    pub buyer: Identity,
    pub quantity: u32,
    pub total_cost: u64,
    pub platform_fee: u64,
    /// What stays in escrow for the token holders.
    pub revenue_distributed: u64,
}

/// Fees left the platform treasury.
#[derive(Clone, Copy, Debug)]
pub struct FeeWithdrawn {
    pub amount: u64,
    pub destination: Identity,
}

/// A holder was paid its share of a listing's revenue.
#[derive(Clone, Copy, Debug)]
pub struct RevenueDistributed {
    pub design_id: Identity,
    pub holder: Identity,
    pub amount: u64,
    pub holder_balance: u64,
    pub total_supply: u64,
}

} // verus!
