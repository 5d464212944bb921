use racksavant::{
    initialize_platform, register_designer, token_allocation, upload_design, withdraw_fee,
    DesignerProfile, ErrorCode, Identity, InitializePlatform, PlatformState, RegisterDesigner,
    UploadDesign, WithdrawFee,
};

fn id(n: u128) -> Identity {
    Identity { lo: n, hi: n }
}

fn platform() -> PlatformState {
    PlatformState { platform_treasury: id(4), platform_fee_bps: 500, total_designers: 0, total_designs: 0 }
}

fn profile() -> DesignerProfile {
    DesignerProfile {
        designer: id(1),
        name: "Ada".to_string(),
        ipfs_bio_uri: "ipfs://bio".to_string(),
        token_mint: id(2),
        total_designs: 0,
        total_sales: 0,
        created_at: 5,
    }
}

fn upload_ctx() -> UploadDesign {
    UploadDesign { design_meta: None, design_id: id(3), designer_profile: profile(), platform_state: platform(), designer: id(1) }
}

#[test]
fn platform_is_set_up_once() {
    let mut ctx = InitializePlatform { platform_state: None, platform_treasury: id(4) };
    assert_eq!(initialize_platform(&mut ctx, 500), Ok(()));
    let p = ctx.platform_state.unwrap();
    assert_eq!(p.platform_fee_bps, 500);
    assert_eq!(p.platform_treasury, id(4));
    assert_eq!(p.total_designers, 0);
    assert_eq!(p.total_designs, 0);
    assert_eq!(initialize_platform(&mut ctx, 700), Err(ErrorCode::AlreadyInitialized));
    assert_eq!(ctx.platform_state.unwrap().platform_fee_bps, 500);
}

#[test]
fn fee_above_whole_sale_is_refused() {
    let mut ctx = InitializePlatform { platform_state: None, platform_treasury: id(4) };
    assert_eq!(initialize_platform(&mut ctx, 10001), Err(ErrorCode::InvalidFee));
    assert!(ctx.platform_state.is_none());
    assert_eq!(initialize_platform(&mut ctx, 10000), Ok(()));
}

#[test]
fn supply_split_is_exact() {
    let a = token_allocation(1_000_000_000_000);
    assert_eq!(a.designer_share, 900_000_000_000);
    assert_eq!(a.pool_share, 100_000_000_000);
    let a = token_allocation(7);
    assert_eq!(a.designer_share, 6);
    assert_eq!(a.pool_share, 1);
    let a = token_allocation(u64::MAX);
    assert_eq!(a.designer_share as u128, (u64::MAX as u128) * 90 / 100);
    assert_eq!(a.designer_share + a.pool_share, u64::MAX);
    let a = token_allocation(0);
    assert_eq!((a.designer_share, a.pool_share), (0, 0));
}

#[test]
fn designer_registers() {
    let mut ctx = RegisterDesigner { designer_profile: None, designer_token_mint: id(2), platform_state: platform(), designer: id(1) };
    let (ev, alloc) = register_designer(&mut ctx, "Ada".to_string(), "ipfs://bio".to_string(), 42).unwrap();
    assert_eq!(ev.designer, id(1));
    assert_eq!(ev.token_mint, id(2));
    assert_eq!(ev.name, "Ada");
    assert_eq!(alloc.designer_share, 900_000_000_000);
    assert_eq!(alloc.pool_share, 100_000_000_000);
    let p = ctx.designer_profile.clone().unwrap();
    assert_eq!(p.designer, id(1));
    assert_eq!(p.token_mint, id(2));
    assert_eq!(p.name, "Ada");
    assert_eq!(p.ipfs_bio_uri, "ipfs://bio");
    assert_eq!(p.created_at, 42);
    assert_eq!((p.total_designs, p.total_sales), (0, 0));
    assert_eq!(ctx.platform_state.total_designers, 1);
    let again = register_designer(&mut ctx, "Bob".to_string(), String::new(), 43);
    assert_eq!(again.err(), Some(ErrorCode::AlreadyInitialized));
    assert_eq!(ctx.platform_state.total_designers, 1);
}

#[test]
fn long_fields_are_refused() {
    let mut ctx = RegisterDesigner { designer_profile: None, designer_token_mint: id(2), platform_state: platform(), designer: id(1) };
    let r = register_designer(&mut ctx, "n".repeat(51), String::new(), 1);
    assert_eq!(r.err(), Some(ErrorCode::NameTooLong));
    let r = register_designer(&mut ctx, "n".repeat(50), "u".repeat(201), 1);
    assert_eq!(r.err(), Some(ErrorCode::UriTooLong));
    assert!(ctx.designer_profile.is_none());
    assert_eq!(ctx.platform_state.total_designers, 0);
    let r = register_designer(&mut ctx, "n".repeat(50), "u".repeat(200), 1);
    assert!(r.is_ok());
}

#[test]
fn designer_count_overflow_is_refused() {
    let mut p = platform();
    p.total_designers = u64::MAX;
    let mut ctx = RegisterDesigner { designer_profile: None, designer_token_mint: id(2), platform_state: p, designer: id(1) };
    let r = register_designer(&mut ctx, "Ada".to_string(), String::new(), 1);
    assert_eq!(r.err(), Some(ErrorCode::Overflow));
}

#[test]
fn upload_starts_with_full_stock() {
    let mut ctx = upload_ctx();
    let ev = upload_design(&mut ctx, [9u8; 32], 1000, 5, 77).unwrap();
    assert_eq!(ev.design_id, id(3));
    assert_eq!(ev.designer, id(1));
    assert_eq!(ev.price_lamports, 1000);
    assert_eq!(ev.inventory, 5);
    assert_eq!(ev.image_hash, [9u8; 32]);
    let d = ctx.design_meta.unwrap();
    assert_eq!(d.inventory, 5);
    assert_eq!(d.initial_inventory, 5);
    assert_eq!(d.total_sales, 0);
    assert_eq!(d.mint, id(2));
    assert_eq!(d.ts_unix, 77);
    assert_eq!(ctx.designer_profile.total_designs, 1);
    assert_eq!(ctx.platform_state.total_designs, 1);
}

#[test]
fn scenario_zero_price_upload_is_refused() {
    let mut ctx = upload_ctx();
    assert_eq!(upload_design(&mut ctx, [0u8; 32], 0, 5, 1).err(), Some(ErrorCode::InvalidPrice));
    assert!(ctx.design_meta.is_none());
    assert_eq!(ctx.designer_profile.total_designs, 0);
    assert_eq!(ctx.platform_state.total_designs, 0);
}

#[test]
fn zero_inventory_upload_is_refused() {
    let mut ctx = upload_ctx();
    assert_eq!(upload_design(&mut ctx, [0u8; 32], 10, 0, 1).err(), Some(ErrorCode::InvalidInventory));
    assert!(ctx.design_meta.is_none());
}

#[test]
fn upload_by_stranger_or_twice_is_refused() {
    let mut ctx = upload_ctx();
    ctx.designer = id(8);
    assert_eq!(upload_design(&mut ctx, [0u8; 32], 10, 1, 1).err(), Some(ErrorCode::NotOwner));
    let mut ctx = upload_ctx();
    upload_design(&mut ctx, [0u8; 32], 10, 1, 1).unwrap();
    assert_eq!(upload_design(&mut ctx, [0u8; 32], 10, 1, 1).err(), Some(ErrorCode::AlreadyInitialized));
    assert_eq!(ctx.platform_state.total_designs, 1);
}

#[test]
fn design_count_overflow_is_refused() {
    let mut ctx = upload_ctx();
    ctx.designer_profile.total_designs = u32::MAX;
    assert_eq!(upload_design(&mut ctx, [0u8; 32], 10, 1, 1).err(), Some(ErrorCode::Overflow));
}

fn withdraw_ctx(treasury: Identity) -> WithdrawFee {
    WithdrawFee {
        platform_state: platform(),
        platform_treasury: treasury,
        platform_treasury_lamports: 500,
        destination: id(6),
        destination_lamports: 1,
        authority: id(7),
    }
}

#[test]
fn fees_are_withdrawn() {
    let mut ctx = withdraw_ctx(id(4));
    let ev = withdraw_fee(&mut ctx, 200).unwrap();
    assert_eq!(ev.amount, 200);
    assert_eq!(ev.destination, id(6));
    assert_eq!(ctx.platform_treasury_lamports, 300);
    assert_eq!(ctx.destination_lamports, 201);
}

#[test]
fn withdrawal_errors() {
    let mut ctx = withdraw_ctx(id(9));
    assert_eq!(withdraw_fee(&mut ctx, 1).err(), Some(ErrorCode::Unauthorized));
    let mut ctx = withdraw_ctx(id(4));
    assert_eq!(withdraw_fee(&mut ctx, 501).err(), Some(ErrorCode::Overflow));
    assert_eq!(ctx.platform_treasury_lamports, 500);
    ctx.destination_lamports = u64::MAX;
    assert_eq!(withdraw_fee(&mut ctx, 1).err(), Some(ErrorCode::Overflow));
    assert_eq!(ctx.platform_treasury_lamports, 500);
}
