//! The escrow state machine: campaign configuration, the deposit ledger,
//! the derived campaign status, and the money-moving operations.
//!
//! The hosting environment (which authenticates callers, attaches payment to
//! a `fund` call, performs the outgoing transfers that a successful claim
//! asks for, and supplies the block timestamp) is outside this crate; every
//! operation takes the caller identity, attached value and current time as
//! plain arguments and returns the amount the environment must transfer.

use vstd::prelude::*;

use crate::ledger::amount_of;
use crate::ledger::keys_unique;
use crate::ledger::sum_amounts;

verus! {

/// Campaign status, derived from the clock, the pooled balance and the
/// configuration; it is never stored.
#[derive(Clone, Copy, PartialEq, Eq, Structural, Debug)]
pub enum Status {
    FundingPeriod,
    Successful,
    Failed,
}

/// Why an operation refused to run. Each operation's contract states
/// exactly which inputs produce which variant.
#[derive(Clone, Copy, PartialEq, Eq, Structural, Debug)]
pub enum EscrowError {
    InvalidConfig,
    Unauthorized,
    DeadlinePassed,
    BelowMinimum,
    WalletCapExceeded,
    TotalCapExceeded,
    CampaignTerminated,
    WindowClosed,
    ThresholdNotMet,
    NotEligible,
    NothingToClaim,
}

/// The escrow's whole persistent state. Depositor identities are the plain
/// account ids the environment authenticates; amounts are in the smallest
/// unit of the single native asset.
pub struct Escrow {
    /// Minimum pooled balance required for the campaign to succeed.
    pub target: u128,
    /// Hard cap on the pooled balance, fixed at creation as 110% of the
    /// target (the one derivation policy this crate implements).
    pub max_total: u128,
    /// Timestamp after which no further pledges are accepted.
    pub deadline: u64,
    /// Smallest amount accepted per single pledge (0 = unrestricted).
    pub min_deposit: u128,
    /// Largest cumulative amount one depositor may hold (0 = unrestricted).
    pub max_per_wallet: u128,
    /// The creator; first of the two equally privileged administrators.
    pub admin1: u64,
    /// The second administrator, designated at creation.
    pub admin2: u64,
    /// Value currently held in custody on behalf of all depositors.
    pub total_funds: u128,
    /// One-way emergency switch: opens refunds regardless of deadline.
    pub terminated: bool,
    /// One-way record that the pooled balance has been paid out; from then
    /// on the still-recorded deposit entries carry no outstanding claim.
    pub paid_out: bool,
    /// Opaque attestation bytes, set by an administrator after payout.
    pub invoice_hash: Vec<u8>,
    /// One entry per depositor holding its cumulative pledge.
    pub ledger: Vec<(u64, u128)>,
}

impl Escrow {
    /// Cumulative amount the ledger records for `d` (zero when absent).
    pub open spec fn raw_deposit(self, d: u64) -> u128 {
        amount_of(self.ledger@, d)
    }

    /// The amount `d` could still be owed: the recorded deposit while the
    /// campaign is live, nothing once the pooled balance was paid out.
    pub open spec fn claim_of(self, d: u64) -> u128 {
        if self.paid_out {
            0
        } else {
            self.raw_deposit(d)
        }
    }

    /// Conservation of funds: the pooled balance equals the sum of all
    /// outstanding claims (after a payout there are none, and the pool is
    /// empty).
    pub open spec fn conservation(self) -> bool {
        if self.paid_out {
            self.total_funds == 0
        } else {
            sum_amounts(self.ledger@) == self.total_funds
        }
    }

    /// Well-formedness: established at creation, preserved by every
    /// operation.
    pub open spec fn inv(self) -> bool {
        &&& keys_unique(self.ledger@)
        &&& self.conservation()
        &&& self.target > 0
        &&& self.max_total >= self.target
        &&& self.total_funds <= self.max_total
    }

    /// Membership in the flat two-administrator set.
    pub open spec fn is_admin_spec(self, a: u64) -> bool {
        a == self.admin1 || a == self.admin2
    }

    /// Both configured bounds are respected: every depositor is within the
    /// per-wallet cap and the pool is within the total cap (a bound set to
    /// zero is unrestricted).
    pub open spec fn caps_respected(self) -> bool {
        &&& self.max_per_wallet != 0 ==> forall|d: u64|
            self.raw_deposit(d) <= self.max_per_wallet
        &&& self.max_total != 0 ==> self.total_funds <= self.max_total
    }

    /// Derived three-way status; `terminated` is deliberately an orthogonal
    /// override of refund eligibility, not a fourth status.
    pub open spec fn spec_status(self, now: u64) -> Status {
        if now <= self.deadline {
            Status::FundingPeriod
        } else if self.total_funds >= self.target {
            Status::Successful
        } else {
            Status::Failed
        }
    }

    /// Refunds are open once the campaign has failed naturally (deadline
    /// passed, target missed) or was terminated early.
    pub open spec fn refund_eligible(self, now: u64) -> bool {
        (now > self.deadline && self.total_funds < self.target) || self.terminated
    }

    /// Exactly which result a `fund` call produces, checks in order:
    /// funding window, minimum pledge, per-wallet cap, total cap.
    pub open spec fn fund_outcome(self, caller: u64, value: u128, now: u64) -> Result<
        (),
        EscrowError,
    > {
        if self.paid_out || now > self.deadline {
            Err(EscrowError::DeadlinePassed)
        } else if value < self.min_deposit {
            Err(EscrowError::BelowMinimum)
        } else if self.max_per_wallet != 0 && self.raw_deposit(caller) + value
            > self.max_per_wallet {
            Err(EscrowError::WalletCapExceeded)
        } else if self.max_total != 0 && self.total_funds + value > self.max_total {
            Err(EscrowError::TotalCapExceeded)
        } else {
            Ok(())
        }
    }

    /// Exactly which result a payout claim produces, checks in order:
    /// administrator identity, termination override, deadline, threshold.
    pub open spec fn payout_outcome(self, caller: u64, now: u64) -> Result<u128, EscrowError> {
        if !self.is_admin_spec(caller) {
            Err(EscrowError::Unauthorized)
        } else if self.terminated {
            Err(EscrowError::CampaignTerminated)
        } else if now <= self.deadline {
            Err(EscrowError::WindowClosed)
        } else if self.total_funds < self.target {
            Err(EscrowError::ThresholdNotMet)
        } else {
            Ok(self.total_funds)
        }
    }

    /// Exactly which result a refund claim produces: eligibility first,
    /// then whether the caller still has an outstanding claim.
    pub open spec fn refund_outcome(self, caller: u64, now: u64) -> Result<u128, EscrowError> {
        if !self.refund_eligible(now) {
            Err(EscrowError::NotEligible)
        } else if self.claim_of(caller) == 0 {
            Err(EscrowError::NothingToClaim)
        } else {
            Ok(self.claim_of(caller))
        }
    }

    /// How a successful refund of `paid` to `caller` changes the state:
    /// the caller's entry is cleared, the pool shrinks by exactly `paid`,
    /// and nothing else moves.
    pub open spec fn refund_applied(pre: Escrow, post: Escrow, caller: u64, paid: u128) -> bool {
        &&& paid == pre.claim_of(caller)
        &&& post.total_funds == pre.total_funds - paid
        &&& post.raw_deposit(caller) == 0
        &&& forall|d: u64| d != caller ==> post.raw_deposit(d) == pre.raw_deposit(d)
        &&& post.target == pre.target
        &&& post.max_total == pre.max_total
        &&& post.deadline == pre.deadline
        &&& post.min_deposit == pre.min_deposit
        &&& post.max_per_wallet == pre.max_per_wallet
        &&& post.admin1 == pre.admin1
        &&& post.admin2 == pre.admin2
        &&& post.terminated == pre.terminated
        &&& post.paid_out == pre.paid_out
        &&& post.invoice_hash == pre.invoice_hash
    }

    /// Position of `who`'s ledger entry, if it has one.
    fn find_index(&self, who: u64) -> (r: Option<usize>)
        requires
            keys_unique(self.ledger@),
        ensures
            match r {
                Some(i) => {
                    &&& i < self.ledger@.len()
                    &&& self.ledger@[i as int].0 == who
                    &&& self.ledger@[i as int].1 == self.raw_deposit(who)
                },
                None => {
                    &&& self.raw_deposit(who) == 0
                    &&& forall|j: int| 0 <= j < self.ledger@.len() ==> self.ledger@[j].0 != who
                },
            },
    {
        let mut i: usize = 0;
        while i < self.ledger.len()
            invariant
                i <= self.ledger@.len(),
                keys_unique(self.ledger@),
                forall|j: int| 0 <= j < i ==> self.ledger@[j].0 != who,
            decreases self.ledger@.len() - i,
        {
            if self.ledger[i].0 == who {
                proof {
                    crate::ledger::lemma_amount_at_index(self.ledger@, i as int);
                }
                return Some(i);
            }
            i += 1;
        }
        proof {
            crate::ledger::lemma_amount_absent(self.ledger@, who);
        }
        None
    }

    /// Derived status for read-only callers.
    pub fn get_status(&self, now: u64) -> (s: Status)
        ensures
            s == self.spec_status(now),
    {
        if now <= self.deadline {
            Status::FundingPeriod
        } else if self.total_funds >= self.target {
            Status::Successful
        } else {
            Status::Failed
        }
    }

    /// The ledger's record for `d` (zero when it has none). After a payout
    /// the record is still readable even though it carries no claim.
    pub fn get_deposit(&self, d: u64) -> (r: u128)
        requires
            self.inv(),
        ensures
            r == self.raw_deposit(d),
    {
        match self.find_index(d) {
            Some(i) => self.ledger[i].1,
            None => 0,
        }
    }

    pub fn get_target(&self) -> (r: u128)
        ensures
            r == self.target,
    {
        self.target
    }

    pub fn get_deadline(&self) -> (r: u64)
        ensures
            r == self.deadline,
    {
        self.deadline
    }

    pub fn get_min_deposit(&self) -> (r: u128)
        ensures
            r == self.min_deposit,
    {
        self.min_deposit
    }

    pub fn get_max_per_wallet(&self) -> (r: u128)
        ensures
            r == self.max_per_wallet,
    {
        self.max_per_wallet
    }

    pub fn get_max_total(&self) -> (r: u128)
        ensures
            r == self.max_total,
    {
        self.max_total
    }

    pub fn get_total_funds(&self) -> (r: u128)
        ensures
            r == self.total_funds,
    {
        self.total_funds
    }

    pub fn is_terminated(&self) -> (r: bool)
        ensures
            r == self.terminated,
    {
        self.terminated
    }

    pub fn get_invoice_hash(&self) -> (r: &Vec<u8>)
        ensures
            r@ == self.invoice_hash@,
    {
        &self.invoice_hash
    }
}

/// The escrow ledger's operations, with their full contracts. `Escrow` is
/// the one state this crate implements them for; the trait keeps the
/// operation contracts in one place, apart from the state they run on.
pub trait CrowdfundingContract: Sized {
    /// The escrow state the implementer carries.
    spec fn escrow(&self) -> Escrow;

    /// Set up a campaign. Fails with `InvalidConfig` when the target is
    /// zero, when the deadline is not strictly in the future, or when the
    /// derived total cap (110% of the target) would not fit the amount
    /// type.
    fn init(
        caller: u64,
        target: u128,
        deadline: u64,
        min_deposit: u128,
        max_per_wallet: u128,
        admin2: u64,
        now: u64,
    ) -> (r: Result<Self, EscrowError>)
        ensures
            r is Err <==> (target == 0 || deadline <= now || target + target / 10 > u128::MAX),
            r is Err ==> r == Err::<Self, EscrowError>(EscrowError::InvalidConfig),
            r is Ok ==> ({
                let c = r->Ok_0.escrow();
                &&& c.inv()
                &&& c.caps_respected()
                &&& c.target == target
                &&& c.max_total == target + target / 10
                &&& c.deadline == deadline
                &&& c.min_deposit == min_deposit
                &&& c.max_per_wallet == max_per_wallet
                &&& c.admin1 == caller
                &&& c.admin2 == admin2
                &&& c.total_funds == 0
                &&& c.ledger@.len() == 0
                &&& !c.terminated
                &&& !c.paid_out
                &&& c.invoice_hash@.len() == 0
            }),
    ;

    /// Record a pledge. The environment has already taken `value` into
    /// custody as part of this very call; on any error the call commits
    /// nothing and the environment must bounce the attached value.
    fn fund(&mut self, caller: u64, value: u128, now: u64) -> (r: Result<(), EscrowError>)
        requires
            old(self).escrow().inv(),
        ensures
            final(self).escrow().inv(),
            r == old(self).escrow().fund_outcome(caller, value, now),
            r is Err ==> final(self).escrow() == old(self).escrow(),
            r is Ok ==> ({
                let pre = old(self).escrow();
                let post = final(self).escrow();
                &&& post.total_funds == pre.total_funds + value
                &&& post.raw_deposit(caller) == pre.raw_deposit(caller) + value
                &&& forall|d: u64| d != caller ==> post.raw_deposit(d) == pre.raw_deposit(d)
                &&& post.target == pre.target
                &&& post.max_total == pre.max_total
                &&& post.deadline == pre.deadline
                &&& post.min_deposit == pre.min_deposit
                &&& post.max_per_wallet == pre.max_per_wallet
                &&& post.admin1 == pre.admin1
                &&& post.admin2 == pre.admin2
                &&& post.terminated == pre.terminated
                &&& post.paid_out == pre.paid_out
                &&& post.invoice_hash == pre.invoice_hash
            }),
            now > old(self).escrow().deadline ==> r == Err::<(), EscrowError>(
                EscrowError::DeadlinePassed,
            ),
            old(self).escrow().paid_out ==> r is Err,
            old(self).escrow().caps_respected() ==> final(self).escrow().caps_respected(),
    ;

    /// Pay the entire pooled balance out to the claiming administrator.
    /// Returns the amount the environment must transfer to `caller`; the
    /// zeroing of the pool and the transfer are one atomic step from the
    /// caller's point of view. Depositor entries are deliberately left in
    /// place: from here on they carry no claim (`claim_of` is zero), so no
    /// later refund or second payout can move value again.
    #[allow(non_snake_case)]
    fn claimFunds(&mut self, caller: u64, now: u64) -> (r: Result<u128, EscrowError>)
        requires
            old(self).escrow().inv(),
        ensures
            final(self).escrow().inv(),
            r == old(self).escrow().payout_outcome(caller, now),
            r is Err ==> final(self).escrow() == old(self).escrow(),
            r is Ok ==> r->Ok_0 == old(self).escrow().total_funds && final(self).escrow() == (
            Escrow { total_funds: 0, paid_out: true, ..old(self).escrow() }),
            r is Ok ==> old(self).escrow().spec_status(now) is Successful,
            old(self).escrow().paid_out ==> r is Err,
            old(self).escrow().caps_respected() ==> final(self).escrow().caps_respected(),
    ;

    /// Refund the caller's outstanding claim in full. Returns the amount
    /// the environment must transfer; the entry is cleared before the
    /// transfer is initiated (read-then-clear), so a repeated claim finds
    /// nothing.
    #[allow(non_snake_case)]
    fn claimRefund(&mut self, caller: u64, now: u64) -> (r: Result<u128, EscrowError>)
        requires
            old(self).escrow().inv(),
        ensures
            final(self).escrow().inv(),
            r == old(self).escrow().refund_outcome(caller, now),
            r is Err ==> final(self).escrow() == old(self).escrow(),
            r is Ok ==> Escrow::refund_applied(
                old(self).escrow(),
                final(self).escrow(),
                caller,
                r->Ok_0,
            ),
            old(self).escrow().paid_out ==> r is Err,
            now <= old(self).escrow().deadline && !old(self).escrow().terminated ==> r is Err,
            old(self).escrow().caps_respected() ==> final(self).escrow().caps_respected(),
    ;

    /// Flip the one-way emergency switch; refunds open immediately,
    /// regardless of deadline or threshold. A no-op when already set.
    #[allow(non_snake_case)]
    fn terminateCampaign(&mut self, caller: u64) -> (r: Result<(), EscrowError>)
        requires
            old(self).escrow().inv(),
        ensures
            final(self).escrow().inv(),
            !old(self).escrow().is_admin_spec(caller) ==> r == Err::<(), EscrowError>(
                EscrowError::Unauthorized,
            ) && final(self).escrow() == old(self).escrow(),
            old(self).escrow().is_admin_spec(caller) ==> r == Ok::<(), EscrowError>(()) && final(self).escrow() == with_terminated(old(self).escrow()),
            old(self).escrow().caps_respected() ==> final(self).escrow().caps_respected(),
    ;

    /// Store the opaque attestation bytes. The environment emits the
    /// matching notification (administrator identity and hash) once this
    /// returns successfully; the record has no bearing on the escrow
    /// invariant.
    #[allow(non_snake_case)]
    fn uploadInvoiceHash(&mut self, caller: u64, hash: Vec<u8>) -> (r: Result<(), EscrowError>)
        requires
            old(self).escrow().inv(),
        ensures
            final(self).escrow().inv(),
            !old(self).escrow().is_admin_spec(caller) ==> r == Err::<(), EscrowError>(
                EscrowError::Unauthorized,
            ) && final(self).escrow() == old(self).escrow(),
            old(self).escrow().is_admin_spec(caller) ==> r == Ok::<(), EscrowError>(()) && final(self).escrow() == (Escrow { invoice_hash: hash, ..old(self).escrow() }),
            old(self).escrow().caps_respected() ==> final(self).escrow().caps_respected(),
    ;

    /// Overwrite the two adjustable bounds. Deliberately no retroactive
    /// re-validation: a depositor already above a newly lowered per-wallet
    /// cap keeps its entry; only future pledges see the new bounds.
    #[allow(non_snake_case)]
    fn upgradeParams(&mut self, caller: u64, new_min: u128, new_max: u128) -> (r: Result<
        (),
        EscrowError,
    >)
        requires
            old(self).escrow().inv(),
        ensures
            final(self).escrow().inv(),
            !old(self).escrow().is_admin_spec(caller) ==> r == Err::<(), EscrowError>(
                EscrowError::Unauthorized,
            ) && final(self).escrow() == old(self).escrow(),
            old(self).escrow().is_admin_spec(caller) ==> r == Ok::<(), EscrowError>(()) && final(self).escrow() == (Escrow {
                min_deposit: new_min,
                max_per_wallet: new_max,
                ..old(self).escrow()
            }),
            old(self).escrow().caps_respected() && (new_max == 0 || (old(self).escrow().max_per_wallet != 0 && new_max >= old(self).escrow().max_per_wallet))
                ==> final(self).escrow().caps_respected(),
    ;

    /// Whether `addr` is one of the two equally privileged administrators.
    fn is_admin(&self, addr: u64) -> (r: bool)
        ensures
            r == self.escrow().is_admin_spec(addr),
    ;
}

impl CrowdfundingContract for Escrow {
    open spec fn escrow(&self) -> Escrow {
        *self
    }

    fn init(
        caller: u64,
        target: u128,
        deadline: u64,
        min_deposit: u128,
        max_per_wallet: u128,
        admin2: u64,
        now: u64,
    ) -> (r: Result<Self, EscrowError>) {
        if target == 0 {
            return Err(EscrowError::InvalidConfig);
        }
        if deadline <= now {
            return Err(EscrowError::InvalidConfig);
        }
        let tenth: u128 = target / 10;
        if target > u128::MAX - tenth {
            return Err(EscrowError::InvalidConfig);
        }
        Ok(
            Escrow {
                target,
                max_total: target + tenth,
                deadline,
                min_deposit,
                max_per_wallet,
                admin1: caller,
                admin2,
                total_funds: 0,
                terminated: false,
                paid_out: false,
                invoice_hash: Vec::new(),
                ledger: Vec::new(),
            },
        )
    }

    fn fund(&mut self, caller: u64, value: u128, now: u64) -> (r: Result<(), EscrowError>) {
        if self.paid_out || now > self.deadline {
            return Err(EscrowError::DeadlinePassed);
        }
        if value < self.min_deposit {
            return Err(EscrowError::BelowMinimum);
        }
        let idx = self.find_index(caller);
        let current: u128 = match idx {
            Some(i) => self.ledger[i].1,
            None => 0,
        };
        if self.max_per_wallet != 0 {
            if current > self.max_per_wallet || value > self.max_per_wallet - current {
                return Err(EscrowError::WalletCapExceeded);
            }
        }
        if self.max_total != 0 {
            if value > self.max_total - self.total_funds {
                return Err(EscrowError::TotalCapExceeded);
            }
        }
        proof {
            crate::ledger::lemma_amount_le_sum(self.ledger@, caller);
        }
        let new_amount: u128 = current + value;
        let new_total: u128 = self.total_funds + value;
        let ghost pre_ledger = self.ledger@;
        self.total_funds = new_total;
        match idx {
            Some(i) => {
                proof {
                    crate::ledger::lemma_sum_update(pre_ledger, i as int, new_amount);
                }
                self.ledger.set(i, (caller, new_amount));
                proof {
                    assert forall|d: u64| true implies self.raw_deposit(d) == (if d == caller {
                        amount_of(pre_ledger, caller) + value
                    } else {
                        amount_of(pre_ledger, d) as int
                    }) by {
                        crate::ledger::lemma_amount_update(pre_ledger, i as int, new_amount, d);
                    }
                    assert(keys_unique(self.ledger@));
                }
            },
            None => {
                self.ledger.push((caller, new_amount));
                proof {
                    crate::ledger::lemma_sum_push(pre_ledger, caller, new_amount);
                    assert forall|d: u64| true implies self.raw_deposit(d) == (if d == caller {
                        amount_of(pre_ledger, caller) + value
                    } else {
                        amount_of(pre_ledger, d) as int
                    }) by {
                        crate::ledger::lemma_amount_push(pre_ledger, caller, new_amount, d);
                    }
                    assert(keys_unique(self.ledger@));
                }
            },
        }
        proof {
            if old(self).caps_respected() && self.max_per_wallet != 0 {
                assert forall|d: u64| self.raw_deposit(d) <= self.max_per_wallet by {
                    if d != caller {
                        assert(old(self).raw_deposit(d) <= self.max_per_wallet);
                    }
                }
            }
        }
        Ok(())
    }

    fn claimFunds(&mut self, caller: u64, now: u64) -> (r: Result<u128, EscrowError>) {
        if !self.is_admin(caller) {
            return Err(EscrowError::Unauthorized);
        }
        if self.terminated {
            return Err(EscrowError::CampaignTerminated);
        }
        if now <= self.deadline {
            return Err(EscrowError::WindowClosed);
        }
        if self.total_funds < self.target {
            return Err(EscrowError::ThresholdNotMet);
        }
        let amount = self.total_funds;
        self.total_funds = 0;
        self.paid_out = true;
        proof {
            if old(self).caps_respected() && self.max_per_wallet != 0 {
                assert forall|d: u64| self.raw_deposit(d) <= self.max_per_wallet by {
                    assert(self.ledger@ == old(self).ledger@);
                    assert(old(self).raw_deposit(d) <= self.max_per_wallet);
                }
            }
        }
        Ok(amount)
    }

    fn claimRefund(&mut self, caller: u64, now: u64) -> (r: Result<u128, EscrowError>) {
        let eligible = (now > self.deadline && self.total_funds < self.target)
            || self.terminated;
        if !eligible {
            return Err(EscrowError::NotEligible);
        }
        if self.paid_out {
            return Err(EscrowError::NothingToClaim);
        }
        let idx = self.find_index(caller);
        match idx {
            None => Err(EscrowError::NothingToClaim),
            Some(i) => {
                let amount = self.ledger[i].1;
                if amount == 0 {
                    return Err(EscrowError::NothingToClaim);
                }
                proof {
                    crate::ledger::lemma_amount_le_sum(self.ledger@, caller);
                    crate::ledger::lemma_sum_update(self.ledger@, i as int, 0);
                }
                let ghost pre_ledger = self.ledger@;
                self.total_funds = self.total_funds - amount;
                self.ledger.set(i, (caller, 0));
                proof {
                    assert forall|d: u64| true implies self.raw_deposit(d) == (if d == caller {
                        0u128
                    } else {
                        amount_of(pre_ledger, d)
                    }) by {
                        crate::ledger::lemma_amount_update(pre_ledger, i as int, 0, d);
                    }
                    assert(keys_unique(self.ledger@));
                    if old(self).caps_respected() && self.max_per_wallet != 0 {
                        assert forall|d: u64| self.raw_deposit(d) <= self.max_per_wallet by {
                            if d != caller {
                                assert(old(self).raw_deposit(d) <= self.max_per_wallet);
                            }
                        }
                    }
                }
                Ok(amount)
            },
        }
    }

    fn terminateCampaign(&mut self, caller: u64) -> (r: Result<(), EscrowError>) {
        if !self.is_admin(caller) {
            return Err(EscrowError::Unauthorized);
        }
        self.terminated = true;
        proof {
            if old(self).caps_respected() && self.max_per_wallet != 0 {
                assert forall|d: u64| self.raw_deposit(d) <= self.max_per_wallet by {
                    assert(self.ledger@ == old(self).ledger@);
                    assert(old(self).raw_deposit(d) <= self.max_per_wallet);
                }
            }
        }
        Ok(())
    }

    fn uploadInvoiceHash(&mut self, caller: u64, hash: Vec<u8>) -> (r: Result<(), EscrowError>) {
        if !self.is_admin(caller) {
            return Err(EscrowError::Unauthorized);
        }
        self.invoice_hash = hash;
        proof {
            if old(self).caps_respected() && self.max_per_wallet != 0 {
                assert forall|d: u64| self.raw_deposit(d) <= self.max_per_wallet by {
                    assert(self.ledger@ == old(self).ledger@);
                    assert(old(self).raw_deposit(d) <= self.max_per_wallet);
                }
            }
        }
        Ok(())
    }

    fn upgradeParams(&mut self, caller: u64, new_min: u128, new_max: u128) -> (r: Result<
        (),
        EscrowError,
    >) {
        if !self.is_admin(caller) {
            return Err(EscrowError::Unauthorized);
        }
        self.min_deposit = new_min;
        self.max_per_wallet = new_max;
        proof {
            if old(self).caps_respected() && (new_max == 0 || (old(self).max_per_wallet != 0
                && new_max >= old(self).max_per_wallet)) && self.max_per_wallet != 0 {
                assert forall|d: u64| self.raw_deposit(d) <= self.max_per_wallet by {
                    assert(self.ledger@ == old(self).ledger@);
                    assert(old(self).raw_deposit(d) <= old(self).max_per_wallet);
                }
            }
        }
        Ok(())
    }

    fn is_admin(&self, addr: u64) -> (r: bool) {
        addr == self.admin1 || addr == self.admin2
    }
}

/// The state after the emergency switch has been flipped; everything but
/// the `terminated` flag is kept.
pub open spec fn with_terminated(s: Escrow) -> Escrow {
    Escrow { terminated: true, ..s }
}

/// Once a payout has happened, nobody holds an outstanding claim and the
/// pool is empty: neither a second payout nor a refund of an entry that
/// predates the payout can move value again.
pub proof fn lemma_no_double_pay(s: Escrow)
    requires
        s.inv(),
        s.paid_out,
    ensures
        s.total_funds == 0,
        forall|d: u64| s.claim_of(d) == 0,
        forall|caller: u64, now: u64| s.payout_outcome(caller, now) is Err,
        forall|caller: u64, now: u64| s.refund_outcome(caller, now) is Err,
{
}

/// A refund pays exactly the caller's pre-call claim and clears it; the
/// same caller asking again is refused with `NothingToClaim`.
pub proof fn lemma_refund_exact_once(pre: Escrow, post: Escrow, caller: u64, now: u64, paid: u128)
    requires
        pre.inv(),
        pre.refund_outcome(caller, now) == Ok::<u128, EscrowError>(paid),
        Escrow::refund_applied(pre, post, caller, paid),
    ensures
        paid == pre.claim_of(caller),
        post.claim_of(caller) == 0,
        post.refund_outcome(caller, now) == Err::<u128, EscrowError>(EscrowError::NothingToClaim),
{
}

/// Terminating twice leaves exactly the state that terminating once
/// leaves; terminating an already-terminated campaign changes nothing.
pub proof fn lemma_terminate_idempotent(s: Escrow)
    ensures
        with_terminated(with_terminated(s)) == with_terminated(s),
        s.terminated ==> with_terminated(s) == s,
{
}

} // verus!
