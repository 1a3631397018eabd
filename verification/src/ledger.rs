//! The subscription ledger: plans, subscriptions, and the read surface over
//! them.
//!
//! Identifiers are handed out in order, starting at zero, so the records of
//! each family form a sequence and the next unused identifier is its length.
//! Reading is total: an identifier that has not been handed out yet reads as
//! the unset record, whose every field is the zero of its type.

use vstd::prelude::*;
use crate::primitives::Address;
use crate::primitives::U256;

verus! {

/// A billing plan.
#[derive(Clone, Copy, Debug, PartialEq, Eq)]
pub struct Plan {
    /// The account that owns the plan.
    pub provider: Address,
    /// The amount charged per billing interval, in the smallest currency unit.
    pub price: U256,
    /// The length of one billing interval, in time units.
    pub interval: U256,
}

/// A subscription to a plan.
#[derive(Clone, Copy, Debug, PartialEq, Eq)]
pub struct Subscription {
    /// The identifier of the plan that the subscription follows. The ledger does
    /// not ask that this plan exists.
    pub plan_id: U256,
    /// The account that pays.
    pub subscriber: Address,
    /// The time of the most recent successful payment.
    pub last_payment: U256,
    /// Whether the subscription is currently billable.
    pub active: bool,
}

impl Plan {
    /// What an identifier that holds no plan reads as.
    pub open spec fn unset() -> Plan {
        Plan { provider: Address::zero(), price: U256::zero(), interval: U256::zero() }
    }
}

impl Subscription {
    /// What an identifier that holds no subscription reads as.
    pub open spec fn unset() -> Subscription {
        Subscription {
            plan_id: U256::zero(),
            subscriber: Address::zero(),
            last_payment: U256::zero(),
            active: false,
        }
    }
}

/// One write to the ledger: a plan or a subscription to be stored under the
/// next unused identifier of its family.
pub enum Allocation {
    Plan(Plan),
    Subscription(Subscription),
}

/// The mathematical content of a ledger: the plans and the subscriptions that
/// were allocated, each at the index that is its identifier.
pub struct LedgerView {
    pub plans: Seq<Plan>,
    pub subscriptions: Seq<Subscription>,
}

impl LedgerView {
    /// The ledger in which nothing has been allocated.
    pub open spec fn empty() -> LedgerView {
        LedgerView { plans: Seq::empty(), subscriptions: Seq::empty() }
    }

    /// The next unused plan identifier.
    pub open spec fn next_plan_id(self) -> nat {
        self.plans.len()
    }

    /// The next unused subscription identifier.
    pub open spec fn next_subscription_id(self) -> nat {
        self.subscriptions.len()
    }

    /// The plan read at `id`: the stored one, or the unset plan where `id` was
    /// never handed out.
    pub open spec fn plan(self, id: nat) -> Plan {
        if id < self.plans.len() {
            self.plans[id as int]
        } else {
            Plan::unset()
        }
    }

    /// The subscription read at `id`: the stored one, or the unset subscription
    /// where `id` was never handed out.
    pub open spec fn subscription(self, id: nat) -> Subscription {
        if id < self.subscriptions.len() {
            self.subscriptions[id as int]
        } else {
            Subscription::unset()
        }
    }

    /// The ledger after `plan` was stored under the next unused plan identifier.
    pub open spec fn with_plan(self, plan: Plan) -> LedgerView {
        LedgerView { plans: self.plans.push(plan), subscriptions: self.subscriptions }
    }

    /// The ledger after `subscription` was stored under the next unused
    /// subscription identifier.
    pub open spec fn with_subscription(self, subscription: Subscription) -> LedgerView {
        LedgerView { plans: self.plans, subscriptions: self.subscriptions.push(subscription) }
    }

    /// The ledger after one allocation.
    pub open spec fn allocate(self, allocation: Allocation) -> LedgerView {
        match allocation {
            Allocation::Plan(plan) => self.with_plan(plan),
            Allocation::Subscription(subscription) => self.with_subscription(subscription),
        }
    }

    /// The ledger after the given allocations, made in order.
    pub open spec fn allocate_all(self, allocations: Seq<Allocation>) -> LedgerView
        decreases allocations.len(),
    {
        if allocations.len() == 0 {
            self
        } else {
            self.allocate_all(allocations.drop_last()).allocate(allocations.last())
        }
    }
}

/// An in-memory subscription ledger.
///
/// Its view is the sequence of allocated plans and the sequence of allocated
/// subscriptions. Every value of the type is a valid ledger.
#[derive(Clone, Debug, PartialEq, Eq)]
pub struct SubscriptionLedger {
    plans: Vec<Plan>,
    subscriptions: Vec<Subscription>,
}

impl View for SubscriptionLedger {
    type V = LedgerView;

    closed spec fn view(&self) -> LedgerView {
        LedgerView { plans: self.plans@, subscriptions: self.subscriptions@ }
    }
}

impl SubscriptionLedger {
    /// Returns a ledger in which nothing has been allocated: both counters are
    /// zero and every identifier reads as unset.
    pub fn new() -> (ledger: SubscriptionLedger)
        ensures
            ledger@ == LedgerView::empty(),
    {
        SubscriptionLedger { plans: Vec::new(), subscriptions: Vec::new() }
    }

    /// Where plan `plan_id` was allocated, returns the position of its record.
    fn plan_index(&self, plan_id: U256) -> (index: Option<usize>)
        ensures
            match index {
                Some(i) => i == plan_id@ && i < self.plans.len(),
                None => plan_id@ >= self@.next_plan_id(),
            },
    {
        let count = self.plans.len();
        match plan_id.to_usize() {
            Some(i) if i < count => Some(i),
            _ => None,
        }
    }

    /// Where subscription `subscription_id` was allocated, returns the position
    /// of its record.
    fn subscription_index(&self, subscription_id: U256) -> (index: Option<usize>)
        ensures
            match index {
                Some(i) => i == subscription_id@ && i < self.subscriptions.len(),
                None => subscription_id@ >= self@.next_subscription_id(),
            },
    {
        let count = self.subscriptions.len();
        match subscription_id.to_usize() {
            Some(i) if i < count => Some(i),
            _ => None,
        }
    }

    /// Returns the account that owns plan `plan_id`, or the zero address where
    /// no such plan was allocated.
    pub fn get_plan_provider(&self, plan_id: U256) -> (provider: Address)
        ensures
            provider == self@.plan(plan_id@).provider,
    {
        match self.plan_index(plan_id) {
            Some(index) => self.plans[index].provider,
            None => Address::zero(),
        }
    }

    /// Returns the price of plan `plan_id`, or zero where no such plan was
    /// allocated.
    pub fn get_plan_price(&self, plan_id: U256) -> (price: U256)
        ensures
            price == self@.plan(plan_id@).price,
    {
        match self.plan_index(plan_id) {
            Some(index) => self.plans[index].price,
            None => U256::zero(),
        }
    }

    /// Returns the billing interval of plan `plan_id`, or zero where no such
    /// plan was allocated.
    pub fn get_plan_interval(&self, plan_id: U256) -> (interval: U256)
        ensures
            interval == self@.plan(plan_id@).interval,
    {
        match self.plan_index(plan_id) {
            Some(index) => self.plans[index].interval,
            None => U256::zero(),
        }
    }

    /// Returns the plan that subscription `subscription_id` follows, or zero
    /// where no such subscription was allocated.
    pub fn get_subscription_plan_id(&self, subscription_id: U256) -> (plan_id: U256)
        ensures
            plan_id == self@.subscription(subscription_id@).plan_id,
    {
        match self.subscription_index(subscription_id) {
            Some(index) => self.subscriptions[index].plan_id,
            None => U256::zero(),
        }
    }

    /// Returns the account that pays for subscription `subscription_id`, or the
    /// zero address where no such subscription was allocated.
    pub fn get_subscription_subscriber(&self, subscription_id: U256) -> (subscriber: Address)
        ensures
            subscriber == self@.subscription(subscription_id@).subscriber,
    {
        match self.subscription_index(subscription_id) {
            Some(index) => self.subscriptions[index].subscriber,
            None => Address::zero(),
        }
    }

    /// Returns the time of the last payment for subscription
    /// `subscription_id`, or zero where no such subscription was allocated.
    pub fn get_subscription_last_payment(&self, subscription_id: U256) -> (last_payment: U256)
        ensures
            last_payment == self@.subscription(subscription_id@).last_payment,
    {
        match self.subscription_index(subscription_id) {
            Some(index) => self.subscriptions[index].last_payment,
            None => U256::zero(),
        }
    }

    /// Returns whether subscription `subscription_id` is active; `false` where
    /// no such subscription was allocated.
    pub fn is_subscription_active(&self, subscription_id: U256) -> (active: bool)
        ensures
            active == self@.subscription(subscription_id@).active,
    {
        match self.subscription_index(subscription_id) {
            Some(index) => self.subscriptions[index].active,
            None => false,
        }
    }

    /// Returns the next unused plan identifier.
    pub fn get_next_plan_id(&self) -> (id: U256)
        ensures
            id@ == self@.next_plan_id(),
    {
        U256::from_usize(self.plans.len())
    }

    /// Returns the next unused subscription identifier.
    pub fn get_next_subscription_id(&self) -> (id: U256)
        ensures
            id@ == self@.next_subscription_id(),
    {
        U256::from_usize(self.subscriptions.len())
    }

    /// Stores a new plan under the next unused plan identifier and returns that
    /// identifier. Nothing else in the ledger changes.
    pub fn allocate_plan(&mut self, provider: Address, price: U256, interval: U256) -> (id: U256)
        ensures
            id@ == old(self)@.next_plan_id(),
            final(self)@ == old(self)@.with_plan((Plan { provider, price, interval })),
    {
        let id = U256::from_usize(self.plans.len());
        self.plans.push(Plan { provider, price, interval });
        id
    }

    /// Stores a new subscription under the next unused subscription identifier
    /// and returns that identifier. Nothing else in the ledger changes. The plan
    /// that `plan_id` names need not exist.
    pub fn allocate_subscription(
        &mut self,
        plan_id: U256,
        subscriber: Address,
        last_payment: U256,
        active: bool,
    ) -> (id: U256)
        ensures
            id@ == old(self)@.next_subscription_id(),
            final(self)@ == old(self)@.with_subscription(
                (Subscription { plan_id, subscriber, last_payment, active }),
            ),
    {
        let id = U256::from_usize(self.subscriptions.len());
        self.subscriptions.push(Subscription { plan_id, subscriber, last_payment, active });
        id
    }
}

} // verus!
