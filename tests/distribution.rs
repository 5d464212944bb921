use racksavant::{calculate_distribution, distribute_to_holder, DistributeRevenue, ErrorCode, Identity};

fn id(n: u128) -> Identity {
    Identity { lo: n, hi: 7 }
}

fn ctx(escrow: u64) -> DistributeRevenue {
    DistributeRevenue { design_id: id(1), escrow_lamports: escrow, holder: id(2), holder_lamports: 10 }
}

#[test]
fn scenario_ten_percent_holder_share() {
    assert_eq!(calculate_distribution(2850, 100_000_000_000, 1_000_000_000_000), Ok(285));
    let mut c = ctx(2850);
    let rec = distribute_to_holder(&mut c, 2850, 100_000_000_000, 1_000_000_000_000)
        .unwrap()
        .unwrap();
    assert_eq!(rec.amount, 285);
    assert_eq!(rec.holder_balance, 100_000_000_000);
    assert_eq!(rec.total_supply, 1_000_000_000_000);
    assert_eq!(rec.design_id, id(1));
    assert_eq!(rec.holder, id(2));
    assert_eq!(c.escrow_lamports, 2850 - 285);
    assert_eq!(c.holder_lamports, 10 + 285);
}

#[test]
fn zero_balance_preview_is_zero() {
    assert_eq!(calculate_distribution(2850, 0, 1_000_000_000_000), Ok(0));
    assert_eq!(calculate_distribution(u64::MAX, 0, 1), Ok(0));
}

#[test]
fn zero_supply_is_refused() {
    assert_eq!(calculate_distribution(2850, 5, 0), Err(ErrorCode::InvalidQuantity));
    let mut c = ctx(100);
    assert_eq!(distribute_to_holder(&mut c, 100, 5, 0).err(), Some(ErrorCode::InvalidQuantity));
    assert_eq!(c.escrow_lamports, 100);
}

#[test]
fn zero_balance_payout_is_refused() {
    let mut c = ctx(100);
    assert_eq!(distribute_to_holder(&mut c, 100, 0, 50).err(), Some(ErrorCode::InvalidQuantity));
    assert_eq!(c.escrow_lamports, 100);
    assert_eq!(c.holder_lamports, 10);
}

#[test]
fn dust_share_moves_nothing() {
    let mut c = ctx(100);
    // 3 * 1 / 1000 rounds down to zero
    assert_eq!(distribute_to_holder(&mut c, 3, 1, 1000).unwrap().is_none(), true);
    assert_eq!(c.escrow_lamports, 100);
    assert_eq!(c.holder_lamports, 10);
}

#[test]
fn wide_product_is_exact() {
    // revenue * balance is far beyond 64 bits
    assert_eq!(calculate_distribution(u64::MAX, u64::MAX, u64::MAX), Ok(u64::MAX));
    assert_eq!(calculate_distribution(u64::MAX, 1 << 40, 1 << 41), Ok(u64::MAX / 2));
}

#[test]
fn share_beyond_64_bits_is_refused() {
    assert_eq!(calculate_distribution(u64::MAX, 2, 1), Err(ErrorCode::Overflow));
    let mut c = ctx(100);
    assert_eq!(distribute_to_holder(&mut c, u64::MAX, 3, 2).err(), Some(ErrorCode::Overflow));
}

#[test]
fn escrow_too_small_is_refused() {
    let mut c = ctx(100);
    assert_eq!(distribute_to_holder(&mut c, 1000, 1, 2).err(), Some(ErrorCode::Overflow));
    assert_eq!(c.escrow_lamports, 100);
    assert_eq!(c.holder_lamports, 10);
}

#[test]
fn holder_balance_overflow_is_refused() {
    let mut c = ctx(100);
    c.holder_lamports = u64::MAX;
    assert_eq!(distribute_to_holder(&mut c, 100, 1, 1).err(), Some(ErrorCode::Overflow));
    assert_eq!(c.escrow_lamports, 100);
}

#[test]
fn share_stays_within_revenue() {
    for (rev, bal, supply) in [(2850u64, 1u64, 3u64), (1, 1, 1), (u64::MAX, 5, 7), (999, 999, 1000)] {
        let s = calculate_distribution(rev, bal, supply).unwrap();
        assert!(s <= rev);
        assert_eq!(s as u128, (rev as u128) * (bal as u128) / (supply as u128));
    }
}

#[test]
fn partition_pays_at_most_revenue_with_small_dust() {
    let supply = 1_000u64;
    let balances = [333u64, 333, 334];
    let rev = 100u64;
    let mut escrow = ctx(rev);
    let mut paid = 0u64;
    for b in balances {
        if let Some(rec) = distribute_to_holder(&mut escrow, rev, b, supply).unwrap() {
            paid += rec.amount;
        }
    }
    // 33 + 33 + 33
    assert_eq!(paid, 99);
    assert!(paid <= rev);
    assert!(rev - paid <= balances.len() as u64 - 1);
    assert_eq!(escrow.escrow_lamports, 1);
}

#[test]
fn paying_a_holder_twice_is_not_prevented() {
    let mut c = ctx(1000);
    distribute_to_holder(&mut c, 1000, 1, 2).unwrap();
    distribute_to_holder(&mut c, 1000, 1, 2).unwrap();
    assert_eq!(c.escrow_lamports, 0);
    assert_eq!(c.holder_lamports, 1010);
}
