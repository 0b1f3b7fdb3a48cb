use vstd::arithmetic::div_mod::lemma_fundamental_div_mod;
use vstd::arithmetic::mul::lemma_mul_is_commutative;
use vstd::prelude::*;

use crate::error::Error;
use crate::identity::{same_party, Identity};
use crate::ledger::{claim_step, records_wf, RecordView};
use crate::schedule::ScheduleConfig;

verus! {

/// One claim as a caller makes it: the record index, who calls, and when.
pub struct ClaimCall {
    pub index: int,
    pub caller: Identity,
    pub now: u64,
}

/// The records after the claims `calls`, made one after the other.
pub open spec fn run_claims(s: ScheduleConfig, rs: Seq<RecordView>, calls: Seq<ClaimCall>) -> Seq<
    RecordView,
>
    decreases calls.len(),
{
    if calls.len() == 0 {
        rs
    } else {
        let c = calls[0];
        run_claims(s, claim_step(s, rs, c.index, c.caller, c.now).0, calls.drop_first())
    }
}

/// `after` keeps the recipients and allocations of `before`, and no
/// recipient has been paid less than before.
pub open spec fn claims_grew(before: Seq<RecordView>, after: Seq<RecordView>) -> bool {
    &&& after.len() == before.len()
    &&& forall|j: int|
        0 <= j < before.len() ==> {
            &&& #[trigger] after[j].recipient == before[j].recipient
            &&& after[j].allocation == before[j].allocation
            &&& after[j].claimed >= before[j].claimed
        }
}

/// A claim never lowers what any recipient has been paid, never pays anyone
/// past its allocation, and touches neither recipients nor allocations.
pub proof fn lemma_claim_monotonic(
    s: ScheduleConfig,
    rs: Seq<RecordView>,
    index: int,
    caller: Identity,
    now: u64,
)
    requires
        s.wf(),
        records_wf(rs),
    ensures
        claims_grew(rs, claim_step(s, rs, index, caller, now).0),
        records_wf(claim_step(s, rs, index, caller, now).0),
{
    if 0 <= index < rs.len() && now >= s.release_date {
        s.lemma_vested_bounded(rs[index].allocation, now);
    }
}

/// Over any sequence of claims, what each recipient has been paid never
/// goes down and never exceeds its allocation.
pub proof fn lemma_claims_monotonic(s: ScheduleConfig, rs: Seq<RecordView>, calls: Seq<ClaimCall>)
    requires
        s.wf(),
        records_wf(rs),
    ensures
        claims_grew(rs, run_claims(s, rs, calls)),
        records_wf(run_claims(s, rs, calls)),
    decreases calls.len(),
{
    if calls.len() > 0 {
        let c = calls[0];
        let mid = claim_step(s, rs, c.index, c.caller, c.now).0;
        lemma_claim_monotonic(s, rs, c.index, c.caller, c.now);
        lemma_claims_monotonic(s, mid, calls.drop_first());
    }
}

/// Two claims by the same caller for the same record at the same instant
/// pay together no more than what vested then and was not yet paid: where
/// the first pays, it pays all of that, and the second is refused with
/// `UnsufficentBalance`; the second never pays.
pub proof fn lemma_no_double_payment(
    s: ScheduleConfig,
    rs: Seq<RecordView>,
    index: int,
    caller: Identity,
    now: u64,
)
    requires
        s.wf(),
        records_wf(rs),
    ensures
        ({
            let (mid, first) = claim_step(s, rs, index, caller, now);
            let (last, second) = claim_step(s, mid, index, caller, now);
            &&& second is Err
            &&& last == mid
            &&& first matches Ok(paid) ==> {
                &&& paid == s.vested(rs[index].allocation, now) - rs[index].claimed
                &&& second == Err::<nat, Error>(Error::UnsufficentBalance)
            }
        }),
{
}

/// Before `release_date`, a claim by the recipient of an existing record
/// is refused with `VestingStartError` and changes nothing, whatever the
/// schedule.
pub proof fn lemma_cliff_gating(
    s: ScheduleConfig,
    rs: Seq<RecordView>,
    index: int,
    caller: Identity,
    now: u64,
)
    requires
        0 <= index < rs.len(),
        same_party(rs[index].recipient, caller),
        now < s.release_date,
    ensures
        claim_step(s, rs, index, caller, now) == (rs, Err::<nat, Error>(Error::VestingStartError)),
{
}

/// From `end_date` on, what has vested is the allocation less its remainder
/// modulo the number of periods: the whole allocation where the periods
/// divide it evenly, and never more.
pub proof fn lemma_vested_at_end(s: ScheduleConfig, allocation: nat, now: u64)
    requires
        s.wf(),
        now >= s.end_date,
    ensures
        s.vested(allocation, now) == allocation - allocation % s.period_count(),
        allocation % s.period_count() == 0 ==> s.vested(allocation, now) == allocation,
{
    s.lemma_current_period_bounded(now);
    s.lemma_all_periods_after_end(now);
    let pc = s.period_count() as int;
    lemma_fundamental_div_mod(allocation as int, pc);
    lemma_mul_is_commutative(allocation as int / pc, pc);
}

/// A claim by the recipient from `end_date` on, where the periods divide
/// the allocation evenly, leaves the recipient paid in full; every later
/// claim by it after the cliff is then refused with `UnsufficentBalance`.
pub proof fn lemma_full_vesting(
    s: ScheduleConfig,
    rs: Seq<RecordView>,
    index: int,
    caller: Identity,
    now: u64,
    later: u64,
)
    requires
        s.wf(),
        records_wf(rs),
        0 <= index < rs.len(),
        same_party(rs[index].recipient, caller),
        now >= s.end_date,
        rs[index].allocation % s.period_count() == 0,
        later >= s.release_date,
    ensures
        s.vested(rs[index].allocation, now) == rs[index].allocation,
        claim_step(s, rs, index, caller, now).0[index].claimed == rs[index].allocation,
        ({
            let after = claim_step(s, rs, index, caller, now).0;
            claim_step(s, after, index, caller, later) == (after, Err::<nat, Error>(
                Error::UnsufficentBalance,
            ))
        }),
{
    lemma_vested_at_end(s, rs[index].allocation, now);
    s.lemma_vested_bounded(rs[index].allocation, later);
}

/// A claim for an existing record by anyone but its recipient is refused
/// with `UserError` and changes nothing.
pub proof fn lemma_authorization_isolation(
    s: ScheduleConfig,
    rs: Seq<RecordView>,
    index: int,
    caller: Identity,
    now: u64,
)
    requires
        0 <= index < rs.len(),
        !same_party(rs[index].recipient, caller),
    ensures
        claim_step(s, rs, index, caller, now) == (rs, Err::<nat, Error>(Error::UserError)),
{
}

} // verus!
