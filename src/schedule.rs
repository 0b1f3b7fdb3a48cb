use vstd::arithmetic::div_mod::{lemma_div_is_ordered, lemma_fundamental_div_mod};
use vstd::arithmetic::mul::{lemma_mul_inequality, lemma_mul_is_commutative};
use vstd::prelude::*;

use crate::amount::{amount_bound, Amount};
use crate::error::Error;
use crate::identity::Identity;

verus! {

/// The parameters of a vesting schedule, fixed once the ledger is set up.
pub struct ScheduleConfig {
    pub contract_name: String,
    /// The token contract that pays out.
    pub token: [u8; 32],
    /// Who may release the schedule.
    pub owner: Identity,
    /// The sum of the allocations, as announced; not enforced.
    pub total_allocation: Amount,
    pub start_date: u64,
    pub cliff_offset: u64,
    /// `start_date + cliff_offset`: nothing can be claimed before it.
    pub release_date: u64,
    /// How long vesting runs, counted from `release_date`.
    pub duration: u64,
    /// The length of one vesting period.
    pub period_length: u64,
    /// `release_date + duration`: everything that vests has vested by then.
    pub end_date: u64,
}

impl ScheduleConfig {
    /// The derived dates agree with the others, and there is at least one
    /// period, of positive length.
    pub open spec fn wf(&self) -> bool {
        &&& self.release_date == self.start_date + self.cliff_offset
        &&& self.end_date == self.release_date + self.duration
        &&& self.period_length > 0
        &&& self.period_length <= self.duration
    }

    /// Time counted toward vesting at `now`, from `release_date`, capped at
    /// `duration` (none before `release_date`).
    pub open spec fn elapsed(&self, now: u64) -> nat {
        let e = now - self.release_date;
        if e < 0 {
            0
        } else if e > self.duration {
            self.duration as nat
        } else {
            e as nat
        }
    }

    /// How many periods the whole schedule has.
    pub open spec fn period_count(&self) -> nat {
        (self.duration / self.period_length) as nat
    }

    /// How many whole periods have passed at `now`.
    pub open spec fn current_period(&self, now: u64) -> nat {
        self.elapsed(now) / (self.period_length as nat)
    }

    /// What a recipient of `allocation` is entitled to at `now`: the share of
    /// one period, truncated, times the periods passed.
    pub open spec fn vested(&self, allocation: nat, now: u64) -> nat {
        (allocation / self.period_count()) * self.current_period(now)
    }

    /// A schedule from its parameters, with the derived dates. Refused with
    /// `FatalError` where a period has no length, the duration holds no whole
    /// period, or a derived date does not fit in a `u64`.
    pub fn new(
        contract_name: String,
        token: [u8; 32],
        owner: Identity,
        total_allocation: Amount,
        start_date: u64,
        duration: u64,
        period_length: u64,
        cliff_offset: u64,
    ) -> (r: Result<ScheduleConfig, Error>)
        ensures
            r is Ok <==> (period_length > 0 && period_length <= duration && start_date
                + cliff_offset + duration <= u64::MAX),
            r matches Err(e) ==> e == Error::FatalError,
            r matches Ok(s) ==> {
                &&& s.wf()
                &&& s.contract_name == contract_name
                &&& s.token == token
                &&& s.owner == owner
                &&& s.total_allocation == total_allocation
                &&& s.start_date == start_date
                &&& s.cliff_offset == cliff_offset
                &&& s.duration == duration
                &&& s.period_length == period_length
            },
    {
        if period_length == 0 || period_length > duration {
            return Err(Error::FatalError);
        }
        let release_date = match start_date.checked_add(cliff_offset) {
            Some(d) => d,
            None => return Err(Error::FatalError),
        };
        let end_date = match release_date.checked_add(duration) {
            Some(d) => d,
            None => return Err(Error::FatalError),
        };
        Ok(
            ScheduleConfig {
                contract_name,
                token,
                owner,
                total_allocation,
                start_date,
                cliff_offset,
                release_date,
                duration,
                period_length,
                end_date,
            },
        )
    }

    /// Whether the schedule is consistent, as `wf` says.
    pub fn is_wf(&self) -> (r: bool)
        ensures
            r == self.wf(),
    {
        match self.start_date.checked_add(self.cliff_offset) {
            None => false,
            Some(release) => match release.checked_add(self.duration) {
                None => false,
                Some(end) => release == self.release_date && end == self.end_date
                    && self.period_length > 0 && self.period_length <= self.duration,
            },
        }
    }

    pub proof fn lemma_current_period_bounded(&self, now: u64)
        requires
            self.wf(),
        ensures
            1 <= self.period_count(),
            self.current_period(now) <= self.period_count(),
    {
        lemma_div_is_ordered(
            self.period_length as int,
            self.duration as int,
            self.period_length as int,
        );
        lemma_div_is_ordered(
            self.elapsed(now) as int,
            self.duration as int,
            self.period_length as int,
        );
        assert(self.period_length as int / self.period_length as int == 1) by (nonlinear_arith)
            requires
                self.period_length > 0,
        ;
    }

    /// No one is ever entitled to more than their allocation.
    pub proof fn lemma_vested_bounded(&self, allocation: nat, now: u64)
        requires
            self.wf(),
        ensures
            self.vested(allocation, now) <= allocation,
    {
        self.lemma_current_period_bounded(now);
        let pc = self.period_count() as int;
        let unit = allocation as int / pc;
        lemma_mul_inequality(self.current_period(now) as int, pc, unit);
        lemma_mul_is_commutative(unit, self.current_period(now) as int);
        lemma_mul_is_commutative(unit, pc);
        lemma_fundamental_div_mod(allocation as int, pc);
    }

    /// Once `end_date` has passed, all periods have passed.
    pub proof fn lemma_all_periods_after_end(&self, now: u64)
        requires
            self.wf(),
            now >= self.end_date,
        ensures
            self.current_period(now) == self.period_count(),
    {
    }

    /// The amount vested at `now` of `allocation`, computed as `vested` says.
    pub fn vested_amount(&self, allocation: &Amount, now: u64) -> (r: Amount)
        requires
            self.wf(),
            now >= self.release_date,
        ensures
            r.value() == self.vested(allocation.value(), now),
    {
        let mut elapsed = now - self.release_date;
        if elapsed > self.duration {
            elapsed = self.duration;
        }
        let period_count = self.duration / self.period_length;
        let current_period = elapsed / self.period_length;
        proof {
            self.lemma_current_period_bounded(now);
            self.lemma_vested_bounded(allocation.value(), now);
            allocation.lemma_value_bounded();
        }
        let unit = allocation.checked_div(&Amount::from_u64(period_count)).unwrap();
        unit.checked_mul(&Amount::from_u64(current_period)).unwrap()
    }
}

} // verus!
