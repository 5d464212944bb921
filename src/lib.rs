//! Ledger of a marketplace for designer-issued tokens: registration, listings,
//! sale settlement with a platform fee, and proportional payout of sale
//! revenue to token holders.

pub mod accounts;
pub mod catalog;
pub mod error;
pub mod events;
pub mod identity;
pub mod payouts;
pub mod platform;
pub mod revenue;
pub mod settlement;

pub use accounts::{
    Buy, DesignMeta, DesignerProfile, DistributeRevenue, InitializePlatform, PlatformState,
    RegisterDesigner, UpdatePrice, UploadDesign, WithdrawFee,
};
pub use catalog::{update_price, upload_design};
pub use error::ErrorCode;
pub use events::{
    DesignUploaded, DesignerRegistered, FeeWithdrawn, PriceUpdated, RevenueDistributed, Sale,
};
pub use identity::Identity;
pub use payouts::{distribute_once, PayoutKey, PayoutLedger};
pub use platform::{
    initialize_platform, register_designer, token_allocation, withdraw_fee, TokenAllocation,
};
pub use revenue::{calculate_distribution, distribute_to_holder};
pub use settlement::buy;
