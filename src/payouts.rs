use vstd::prelude::*;
use crate::accounts::DistributeRevenue;
use crate::error::ErrorCode;
use crate::events::RevenueDistributed;
use crate::identity::Identity;
use crate::revenue::{distribute_check, distribute_to_holder, share_of};

verus! {

/// One payout: a holder of a listing's token, in one distribution round.
#[derive(Clone, Copy, Debug, PartialEq, Eq, Structural)]
pub struct PayoutKey {
    pub design_id: Identity,
    pub epoch: u64,
    pub holder: Identity,
}

/// The payouts made so far, each recorded once, so that no holder is paid
/// twice for the same listing and round.
pub struct PayoutLedger {
    paid: Vec<PayoutKey>,
}

impl View for PayoutLedger {
    type V = Set<PayoutKey>;

    closed spec fn view(&self) -> Set<PayoutKey> {
        self.paid@.to_set()
    }
}

impl PayoutLedger {
    pub fn new() -> (l: PayoutLedger)
        ensures
            l@ == Set::<PayoutKey>::empty(),
    {
        let l = PayoutLedger { paid: Vec::new() };
        proof {
            assert(l@ =~= Set::<PayoutKey>::empty());
        }
        l
    }

    /// Whether `key` has been paid.
    pub fn is_paid(&self, key: PayoutKey) -> (r: bool)
        ensures
            r == self@.contains(key),
    {
        let mut i: usize = 0;
        while i < self.paid.len()
            invariant
                0 <= i <= self.paid@.len(),
                forall|j: int| 0 <= j < i ==> self.paid@[j] != key,
            decreases self.paid@.len() - i,
        {
            if self.paid[i] == key {
                proof {
                    assert(self.paid@.contains(key));
                }
                return true;
            }
            i = i + 1;
        }
        false
    }

    fn record(&mut self, key: PayoutKey)
        ensures
            final(self)@ == old(self)@.insert(key),
    {
        self.paid.push(key);
        proof {
            assert(final(self).paid@ == old(self).paid@.push(key));
            assert forall|k: PayoutKey| final(self)@.contains(k) <==> old(self)@.insert(key).contains(
                k,
            ) by {
                if k != key && final(self).paid@.contains(k) {
                    let j = choose|j: int| 0 <= j < final(self).paid@.len() && final(self).paid@[j] == k;
                    assert(j < old(self).paid@.len());
                    assert(old(self).paid@[j] == k);
                }
                if old(self).paid@.contains(k) {
                    let j = choose|j: int| 0 <= j < old(self).paid@.len() && old(self).paid@[j] == k;
                    assert(final(self).paid@[j] == k);
                }
                assert(final(self).paid@[old(self).paid@.len() as int] == key);
            }
            assert(final(self)@ =~= old(self)@.insert(key));
        }
    }
}

/// The payout that a call on `ctx` in round `epoch` stands for.
pub open spec fn payout_key(ctx: DistributeRevenue, epoch: u64) -> PayoutKey {
    PayoutKey { design_id: ctx.design_id, epoch, holder: ctx.holder }
}

/// Pays one holder its share, as `distribute_to_holder` does, unless the
/// ledger shows it was already paid for this listing in round `epoch`; a
/// payout that goes through is recorded.
pub fn distribute_once(
    ledger: &mut PayoutLedger,
    ctx: &mut DistributeRevenue,
    epoch: u64,
    total_revenue: u64,
    holder_balance: u64,
    total_supply: u64,
) -> (r: Result<Option<RevenueDistributed>, ErrorCode>)
    ensures
        old(ledger)@.contains(payout_key(*old(ctx), epoch)) ==> r == Err::<
            Option<RevenueDistributed>,
            ErrorCode,
        >(ErrorCode::AlreadyPaid),
        !old(ledger)@.contains(payout_key(*old(ctx), epoch)) && distribute_check(
            *old(ctx),
            total_revenue,
            holder_balance,
            total_supply,
        ) is Ok ==> r is Ok,
        match r {
            Ok(paid) => {
                let share = share_of(
                    total_revenue as int,
                    holder_balance as int,
                    total_supply as int,
                );
                &&& !old(ledger)@.contains(payout_key(*old(ctx), epoch))
                &&& distribute_check(*old(ctx), total_revenue, holder_balance, total_supply) is Ok
                &&& final(ledger)@ == old(ledger)@.insert(payout_key(*old(ctx), epoch))
                &&& final(ctx).escrow_lamports == old(ctx).escrow_lamports - share
                &&& final(ctx).holder_lamports == old(ctx).holder_lamports + share
                &&& final(ctx).design_id == old(ctx).design_id
                &&& final(ctx).holder == old(ctx).holder
                &&& (share == 0 <==> paid is None)
                &&& (paid matches Some(rec) ==> rec == (RevenueDistributed {
                    design_id: old(ctx).design_id,
                    holder: old(ctx).holder,
                    amount: share as u64,
                    holder_balance,
                    total_supply,
                }))
            },
            Err(e) => {
                &&& *final(ledger) == *old(ledger)
                &&& *final(ctx) == *old(ctx)
                &&& if old(ledger)@.contains(payout_key(*old(ctx), epoch)) {
                    e == ErrorCode::AlreadyPaid
                } else {
                    distribute_check(*old(ctx), total_revenue, holder_balance, total_supply)
                        == Err::<(), ErrorCode>(e)
                }
            },
        },
{
    let key = PayoutKey { design_id: ctx.design_id, epoch, holder: ctx.holder };
    if ledger.is_paid(key) {
        return Err(ErrorCode::AlreadyPaid);
    }
    let r = distribute_to_holder(ctx, total_revenue, holder_balance, total_supply);
    if r.is_ok() {
        ledger.record(key);
    }
    r
}

} // verus!
