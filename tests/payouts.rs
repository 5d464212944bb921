use racksavant::{distribute_once, DistributeRevenue, ErrorCode, Identity, PayoutKey, PayoutLedger};

fn id(n: u128) -> Identity {
    Identity { lo: n, hi: 1 }
}

fn ctx(holder: u128, escrow: u64) -> DistributeRevenue {
    DistributeRevenue { design_id: id(1), escrow_lamports: escrow, holder: id(holder), holder_lamports: 0 }
}

#[test]
fn second_payout_in_a_round_is_refused() {
    let mut ledger = PayoutLedger::new();
    let mut c = ctx(2, 1000);
    let rec = distribute_once(&mut ledger, &mut c, 1, 1000, 1, 4).unwrap().unwrap();
    assert_eq!(rec.amount, 250);
    assert!(ledger.is_paid(PayoutKey { design_id: id(1), epoch: 1, holder: id(2) }));
    assert_eq!(distribute_once(&mut ledger, &mut c, 1, 1000, 1, 4).err(), Some(ErrorCode::AlreadyPaid));
    assert_eq!(c.escrow_lamports, 750);
    assert_eq!(c.holder_lamports, 250);
}

#[test]
fn next_round_and_other_holders_are_paid() {
    let mut ledger = PayoutLedger::new();
    let mut c = ctx(2, 1000);
    distribute_once(&mut ledger, &mut c, 1, 400, 1, 4).unwrap();
    distribute_once(&mut ledger, &mut c, 2, 400, 1, 4).unwrap();
    assert_eq!(c.holder_lamports, 200);
    let mut other = ctx(3, c.escrow_lamports);
    distribute_once(&mut ledger, &mut other, 1, 400, 3, 4).unwrap();
    assert_eq!(other.holder_lamports, 300);
    assert!(!ledger.is_paid(PayoutKey { design_id: id(1), epoch: 3, holder: id(2) }));
}

#[test]
fn refused_payout_is_not_recorded() {
    let mut ledger = PayoutLedger::new();
    let mut c = ctx(2, 10);
    assert_eq!(distribute_once(&mut ledger, &mut c, 1, 1000, 1, 2).err(), Some(ErrorCode::Overflow));
    assert!(!ledger.is_paid(PayoutKey { design_id: id(1), epoch: 1, holder: id(2) }));
    c.escrow_lamports = 500;
    assert_eq!(distribute_once(&mut ledger, &mut c, 1, 1000, 1, 2).unwrap().unwrap().amount, 500);
}
