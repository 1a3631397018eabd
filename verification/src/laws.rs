//! What holds of every ledger, stated over its view.
//!
//! The accessors of the ledger return fields of `LedgerView::plan` and
//! `LedgerView::subscription`, and the two allocating functions change the
//! view by `LedgerView::with_plan` and `LedgerView::with_subscription`. The
//! proof functions here say what follows for every ledger, every identifier
//! and every sequence of allocations.

use vstd::prelude::*;
use crate::ledger::Allocation;
use crate::ledger::LedgerView;
use crate::ledger::Plan;
use crate::ledger::Subscription;
use crate::primitives::Address;
use crate::primitives::U256;

verus! {

/// An identifier at or above the next unused plan identifier reads as the
/// unset plan: the zero address as provider, zero as price and as interval.
pub proof fn lemma_unallocated_plan_reads_zero(ledger: LedgerView, id: nat)
    requires
        id >= ledger.next_plan_id(),
    ensures
        ledger.plan(id) == Plan::unset(),
        ledger.plan(id).provider == Address::zero(),
        ledger.plan(id).provider@ == Seq::new(20, |i: int| 0u8),
        ledger.plan(id).price == U256::zero(),
        ledger.plan(id).price@ == 0,
        ledger.plan(id).interval == U256::zero(),
        ledger.plan(id).interval@ == 0,
{
    U256::lemma_zero();
    Address::lemma_zero();
}

/// An identifier at or above the next unused subscription identifier reads as
/// the unset subscription: plan zero, the zero address as subscriber, zero as
/// time of the last payment, and not active.
pub proof fn lemma_unallocated_subscription_reads_zero(ledger: LedgerView, id: nat)
    requires
        id >= ledger.next_subscription_id(),
    ensures
        ledger.subscription(id) == Subscription::unset(),
        ledger.subscription(id).plan_id == U256::zero(),
        ledger.subscription(id).plan_id@ == 0,
        ledger.subscription(id).subscriber == Address::zero(),
        ledger.subscription(id).subscriber@ == Seq::new(20, |i: int| 0u8),
        ledger.subscription(id).last_payment == U256::zero(),
        ledger.subscription(id).last_payment@ == 0,
        !ledger.subscription(id).active,
{
    U256::lemma_zero();
    Address::lemma_zero();
}

/// After a plan is allocated, its identifier reads as exactly that plan, and
/// every other read, of a plan or of a subscription, is what it was before.
pub proof fn lemma_reads_after_plan_allocation(ledger: LedgerView, plan: Plan, id: nat)
    ensures
        ledger.with_plan(plan).plan(id) == if id == ledger.next_plan_id() {
            plan
        } else {
            ledger.plan(id)
        },
        ledger.with_plan(plan).subscription(id) == ledger.subscription(id),
{
}

/// After a subscription is allocated, its identifier reads as exactly that
/// subscription, and every other read, of a subscription or of a plan, is what
/// it was before.
pub proof fn lemma_reads_after_subscription_allocation(
    ledger: LedgerView,
    subscription: Subscription,
    id: nat,
)
    ensures
        ledger.with_subscription(subscription).subscription(id) == if id
            == ledger.next_subscription_id() {
            subscription
        } else {
            ledger.subscription(id)
        },
        ledger.with_subscription(subscription).plan(id) == ledger.plan(id),
{
}

/// One allocation advances the counter of its own family by one and leaves the
/// other counter alone.
pub proof fn lemma_counters_after_allocation(ledger: LedgerView, allocation: Allocation)
    ensures
        ledger.allocate(allocation).next_plan_id() == ledger.next_plan_id() + if allocation is Plan {
            1nat
        } else {
            0nat
        },
        ledger.allocate(allocation).next_subscription_id() == ledger.next_subscription_id()
            + if allocation is Subscription {
            1nat
        } else {
            0nat
        },
{
}

/// Over any sequence of allocations neither counter ever decreases, and the
/// two together advance by the number of allocations made.
pub proof fn lemma_counters_never_decrease(ledger: LedgerView, allocations: Seq<Allocation>)
    ensures
        ledger.next_plan_id() <= ledger.allocate_all(allocations).next_plan_id(),
        ledger.next_subscription_id() <= ledger.allocate_all(allocations).next_subscription_id(),
        ledger.allocate_all(allocations).next_plan_id() + ledger.allocate_all(
            allocations,
        ).next_subscription_id() == ledger.next_plan_id() + ledger.next_subscription_id()
            + allocations.len(),
    decreases allocations.len(),
{
    if allocations.len() > 0 {
        lemma_counters_never_decrease(ledger, allocations.drop_last());
        lemma_counters_after_allocation(
            ledger.allocate_all(allocations.drop_last()),
            allocations.last(),
        );
    }
}

/// An identifier that was handed out is never handed out again: whatever is
/// allocated later, it keeps reading as the record stored under it.
pub proof fn lemma_allocated_records_are_kept(
    ledger: LedgerView,
    allocations: Seq<Allocation>,
    id: nat,
)
    ensures
        id < ledger.next_plan_id() ==> ledger.allocate_all(allocations).plan(id) == ledger.plan(id),
        id < ledger.next_subscription_id() ==> ledger.allocate_all(allocations).subscription(id)
            == ledger.subscription(id),
    decreases allocations.len(),
{
    if allocations.len() > 0 {
        let before = ledger.allocate_all(allocations.drop_last());
        lemma_allocated_records_are_kept(ledger, allocations.drop_last(), id);
        lemma_counters_never_decrease(ledger, allocations.drop_last());
        match allocations.last() {
            Allocation::Plan(plan) => lemma_reads_after_plan_allocation(before, plan, id),
            Allocation::Subscription(subscription) => lemma_reads_after_subscription_allocation(
                before,
                subscription,
                id,
            ),
        }
    }
}

} // verus!
