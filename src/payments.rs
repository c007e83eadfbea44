use vstd::prelude::*;

use crate::address::Address;
use crate::types::Payment;

verus! {

/// Largest number of distinct assets an account records.
pub const MAX_PAYMENTS: usize = 10;

/// Whether some recorded payment is for `asset`.
pub open spec fn has_asset(payments: Seq<Payment>, asset: Address) -> bool {
    exists|i: int| 0 <= i < payments.len() && #[trigger] payments[i].asset == asset
}

/// The payment recorded for `asset`, if any.
pub open spec fn payment_for(payments: Seq<Payment>, asset: Address) -> Option<Payment> {
    if has_asset(payments, asset) {
        Some(payments[choose|i: int| 0 <= i < payments.len() && #[trigger] payments[i].asset == asset])
    } else {
        None
    }
}

/// Every asset appears at most once.
pub open spec fn assets_unique(payments: Seq<Payment>) -> bool {
    forall|i: int, j: int|
        0 <= i < payments.len() && 0 <= j < payments.len() && i != j ==> #[trigger] payments[i].asset
            != #[trigger] payments[j].asset
}

/// A payment ledger as an account may hold it: at most `MAX_PAYMENTS` payments,
/// one per asset, each for a positive amount.
pub open spec fn payments_valid(payments: Seq<Payment>) -> bool {
    &&& payments.len() <= MAX_PAYMENTS
    &&& assets_unique(payments)
    &&& forall|i: int| 0 <= i < payments.len() ==> #[trigger] payments[i].amount > 0
}

/// Sum of the recorded amounts.
pub open spec fn payments_total(payments: Seq<Payment>) -> int
    decreases payments.len(),
{
    if payments.len() == 0 {
        0
    } else {
        payments_total(payments.drop_last()) + payments.last().amount
    }
}

/// With positive amounts, a prefix never sums to more than a longer prefix.
proof fn lemma_prefix_total_monotonic(payments: Seq<Payment>, i: int, j: int)
    requires
        0 <= i <= j <= payments.len(),
        forall|k: int| 0 <= k < payments.len() ==> #[trigger] payments[k].amount > 0,
    ensures
        payments_total(payments.subrange(0, i)) <= payments_total(payments.subrange(0, j)),
    decreases j - i,
{
    if i < j {
        lemma_prefix_total_monotonic(payments, i, j - 1);
        assert(payments.subrange(0, j).drop_last() =~= payments.subrange(0, j - 1));
    }
}

/// The payment recorded for `asset`, if any.
pub fn find_payment(payments: &Vec<Payment>, asset: &Address) -> (r: Option<Payment>)
    requires
        assets_unique(payments@),
    ensures
        r == payment_for(payments@, *asset),
{
    let mut i: usize = 0;
    while i < payments.len()
        invariant
            0 <= i <= payments.len(),
            assets_unique(payments@),
            forall|k: int| 0 <= k < i ==> #[trigger] payments@[k].asset != *asset,
        decreases payments.len() - i,
    {
        if payments[i].asset.same_as(asset) {
            let p = payments[i];
            proof {
                assert(payments@[i as int].asset == *asset);
                assert(has_asset(payments@, *asset));
                let c = choose|k: int| 0 <= k < payments@.len() && #[trigger] payments@[k].asset == *asset;
                assert(0 <= c < payments@.len() && payments@[c].asset == *asset);
                assert(c == i);
            }
            return Some(p);
        }
        i = i + 1;
    }
    None
}

/// The sum of the recorded amounts, added with overflow checks;
/// `None` when the sum does not fit an `i128`.
pub fn total_amount(payments: &Vec<Payment>) -> (r: Option<i128>)
    requires
        forall|k: int| 0 <= k < payments@.len() ==> #[trigger] payments@[k].amount > 0,
    ensures
        r is Some <==> payments_total(payments@) <= i128::MAX,
        r matches Some(t) ==> t == payments_total(payments@),
{
    let mut total: i128 = 0;
    let mut i: usize = 0;
    while i < payments.len()
        invariant
            0 <= i <= payments.len(),
            forall|k: int| 0 <= k < payments@.len() ==> #[trigger] payments@[k].amount > 0,
            total == payments_total(payments@.subrange(0, i as int)),
            total >= 0,
        decreases payments.len() - i,
    {
        proof {
            assert(payments@.subrange(0, i + 1).drop_last() =~= payments@.subrange(0, i as int));
        }
        match total.checked_add(payments[i].amount) {
            Some(t) => total = t,
            None => {
                proof {
                    lemma_prefix_total_monotonic(payments@, i + 1, payments@.len() as int);
                    assert(payments@.subrange(0, payments@.len() as int) =~= payments@);
                }
                return None;
            },
        }
        i = i + 1;
    }
    proof {
        assert(payments@.subrange(0, i as int) =~= payments@);
    }
    Some(total)
}

/// Whether `payments` is a ledger an account may hold: see `payments_valid`.
pub fn check_payments(payments: &Vec<Payment>) -> (r: bool)
    ensures
        r == payments_valid(payments@),
{
    if payments.len() > MAX_PAYMENTS {
        return false;
    }
    let mut i: usize = 0;
    while i < payments.len()
        invariant
            0 <= i <= payments.len() <= MAX_PAYMENTS,
            forall|k: int| 0 <= k < i ==> #[trigger] payments@[k].amount > 0,
            forall|a: int, b: int|
                0 <= a < i && 0 <= b < payments@.len() && a != b ==> #[trigger] payments@[a].asset
                    != #[trigger] payments@[b].asset,
        decreases payments.len() - i,
    {
        if payments[i].amount <= 0 {
            return false;
        }
        let mut j: usize = 0;
        while j < payments.len()
            invariant
                0 <= i < payments.len() <= MAX_PAYMENTS,
                0 <= j <= payments.len(),
                forall|b: int|
                    0 <= b < j && b != i ==> payments@[i as int].asset != #[trigger] payments@[b].asset,
            decreases payments.len() - j,
        {
            if j != i && payments[i].asset.same_as(&payments[j].asset) {
                proof {
                    assert(!assets_unique(payments@));
                }
                return false;
            }
            j = j + 1;
        }
        i = i + 1;
    }
    proof {
        assert forall|a: int, b: int|
            0 <= a < payments@.len() && 0 <= b < payments@.len() && a != b implies
            #[trigger] payments@[a].asset != #[trigger] payments@[b].asset by {}
    }
    true
}

} // verus!
