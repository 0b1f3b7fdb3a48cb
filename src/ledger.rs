use vstd::prelude::*;

use crate::amount::Amount;
use crate::error::Error;
use crate::identity::{same_party, Identity};
use crate::schedule::ScheduleConfig;

verus! {

/// One recipient's entitlement and what has been paid to it so far.
#[derive(Clone, Copy, Debug)]
pub struct RecipientRecord {
    pub recipient: Identity,
    pub allocation: Amount,
    pub claimed: Amount,
}

/// A recipient record with its amounts as numbers.
pub struct RecordView {
    pub recipient: Identity,
    pub allocation: nat,
    pub claimed: nat,
}

impl View for RecipientRecord {
    type V = RecordView;

    open spec fn view(&self) -> RecordView {
        RecordView {
            recipient: self.recipient,
            allocation: self.allocation.value(),
            claimed: self.claimed.value(),
        }
    }
}

/// No recipient has been paid more than its allocation.
pub open spec fn records_wf(rs: Seq<RecordView>) -> bool {
    forall|i: int| 0 <= i < rs.len() ==> #[trigger] rs[i].claimed <= rs[i].allocation
}

/// The records as `init` writes them: one per recipient, in input order,
/// with nothing claimed.
pub open spec fn initial_records(recipients: Seq<Identity>, allocations: Seq<Amount>) -> Seq<
    RecordView,
> {
    Seq::new(
        recipients.len(),
        |i: int| RecordView { recipient: recipients[i], allocation: allocations[i].value(), claimed: 0 },
    )
}

/// What a claim does to the records `rs` under schedule `s`: the new records,
/// and either the amount paid or the reason for refusing. A refused claim
/// leaves the records as they were.
pub open spec fn claim_step(
    s: ScheduleConfig,
    rs: Seq<RecordView>,
    index: int,
    caller: Identity,
    now: u64,
) -> (Seq<RecordView>, Result<nat, Error>) {
    if index < 0 || index >= rs.len() {
        (rs, Err(Error::FatalError))
    } else if !same_party(rs[index].recipient, caller) {
        (rs, Err(Error::UserError))
    } else if now < s.release_date {
        (rs, Err(Error::VestingStartError))
    } else {
        let vested = s.vested(rs[index].allocation, now);
        if vested <= rs[index].claimed {
            (rs, Err(Error::UnsufficentBalance))
        } else {
            (
                rs.update(index, RecordView { claimed: vested, ..rs[index] }),
                Ok((vested - rs[index].claimed) as nat),
            )
        }
    }
}

/// A transfer that a successful claim asks of the token contract.
#[derive(Clone, Copy, Debug)]
pub struct Payout {
    pub recipient: Identity,
    pub amount: Amount,
}

/// The amount of a payout, or the error, as numbers.
pub open spec fn payout_view(r: Result<Payout, Error>) -> Result<nat, Error> {
    match r {
        Ok(p) => Ok(p.amount.value()),
        Err(e) => Err(e),
    }
}

/// The state of a vesting contract: who administers it, its schedule once
/// set up, one record per recipient, and the release gate.
pub struct VestingLedger {
    /// The identity that deployed the contract and alone may set it up.
    pub admin: Identity,
    pub schedule: Option<ScheduleConfig>,
    pub records: Vec<RecipientRecord>,
    pub released: bool,
}

impl VestingLedger {
    pub open spec fn records_view(&self) -> Seq<RecordView> {
        self.records@.map_values(|r: RecipientRecord| r@)
    }

    /// Before set-up there is nothing; after it the schedule is consistent and
    /// no recipient has been paid more than its allocation.
    pub open spec fn wf(&self) -> bool {
        match self.schedule {
            None => self.records@.len() == 0 && !self.released,
            Some(s) => s.wf() && records_wf(self.records_view()),
        }
    }

    /// A freshly deployed contract, administered by `admin`, not yet set up.
    pub fn new(admin: Identity) -> (r: VestingLedger)
        ensures
            r.wf(),
            r.admin == admin,
            r.schedule is None,
            r.records@.len() == 0,
            !r.released,
    {
        VestingLedger { admin, schedule: None, records: Vec::new(), released: false }
    }

    /// Whether the ledger is consistent, as `wf` says.
    pub fn is_wf(&self) -> (r: bool)
        ensures
            r == self.wf(),
    {
        match &self.schedule {
            None => self.records.len() == 0 && !self.released,
            Some(s) => {
                if !s.is_wf() {
                    return false;
                }
                let mut i: usize = 0;
                while i < self.records.len()
                    invariant
                        i <= self.records@.len(),
                        forall|j: int|
                            0 <= j < i ==> #[trigger] self.records_view()[j].claimed
                                <= self.records_view()[j].allocation,
                    decreases self.records@.len() - i,
                {
                    let rec = self.records[i];
                    assert(rec@ == self.records_view()[i as int]);
                    if rec.allocation.checked_sub(&rec.claimed).is_none() {
                        assert(self.records_view().len() == self.records@.len());
                        assert(self.records_view()[i as int].claimed > self.records_view()[
                            i as int].allocation);
                        assert(!records_wf(self.records_view()));
                        return false;
                    }
                    i = i + 1;
                }
                true
            },
        }
    }

    pub fn recipient_count(&self) -> (r: usize)
        ensures
            r == self.records@.len(),
    {
        self.records.len()
    }

    /// Overwrites what recipient `index` has been paid so far. The caller
    /// keeps it between the old total and the allocation.
    fn record_claim(&mut self, index: usize, total: Amount)
        requires
            index < old(self).records@.len(),
            old(self).records@[index as int].claimed.value() <= total.value(),
            total.value() <= old(self).records@[index as int].allocation.value(),
        ensures
            final(self).records_view() == old(self).records_view().update(
                index as int,
                RecordView { claimed: total.value(), ..old(self).records_view()[index as int] },
            ),
            final(self).admin == old(self).admin,
            final(self).schedule == old(self).schedule,
            final(self).released == old(self).released,
    {
        let rec = self.records[index];
        self.records.set(
            index,
            RecipientRecord { recipient: rec.recipient, allocation: rec.allocation, claimed: total },
        );
        proof {
            assert(self.records_view() =~= old(self).records_view().update(
                index as int,
                RecordView { claimed: total.value(), ..old(self).records_view()[index as int] },
            ));
        }
    }
}

/// Succeeds exactly when `caller` is the administrator of `ledger`.
pub fn check_admin_account(ledger: &VestingLedger, caller: &Identity) -> (r: Result<(), Error>)
    ensures
        r is Ok <==> same_party(ledger.admin, *caller),
        r matches Err(e) ==> e == Error::AdminError,
{
    if ledger.admin.same_as(caller) {
        Ok(())
    } else {
        Err(Error::AdminError)
    }
}

/// Sets up the schedule and one record per recipient, at the index of its
/// position, with nothing claimed. Refused, in this order: with `AdminError`
/// unless `caller` is the administrator; with `FatalError` where the ledger
/// was set up already, where `recipients` and `allocations` are empty or of
/// different lengths, or where `ScheduleConfig::new` refuses the parameters.
/// The caller becomes the owner of the schedule.
pub fn init(
    ledger: &mut VestingLedger,
    caller: &Identity,
    contract_name: String,
    vesting_amount: Amount,
    token: [u8; 32],
    start_date: u64,
    duration: u64,
    period: u64,
    recipients: Vec<Identity>,
    allocations: Vec<Amount>,
    cliff_timestamp: u64,
) -> (r: Result<(), Error>)
    requires
        old(ledger).wf(),
    ensures
        final(ledger).wf(),
        final(ledger).admin == old(ledger).admin,
        !same_party(old(ledger).admin, *caller) ==> r == Err::<(), Error>(Error::AdminError),
        same_party(old(ledger).admin, *caller) ==> (r is Ok <==> {
            &&& old(ledger).schedule is None
            &&& recipients@.len() == allocations@.len()
            &&& recipients@.len() > 0
            &&& period > 0
            &&& period <= duration
            &&& start_date + cliff_timestamp + duration <= u64::MAX
        }),
        same_party(old(ledger).admin, *caller) && r is Err ==> r == Err::<(), Error>(
            Error::FatalError,
        ),
        r is Err ==> *final(ledger) == *old(ledger),
        r is Ok ==> {
            &&& final(ledger).schedule matches Some(s) && s.owner == *caller && s.contract_name
                == contract_name && s.token == token && s.total_allocation == vesting_amount
                && s.start_date == start_date && s.duration == duration && s.period_length == period
                && s.cliff_offset == cliff_timestamp
            &&& final(ledger).records_view() == initial_records(recipients@, allocations@)
            &&& !final(ledger).released
        },
{
    check_admin_account(ledger, caller)?;
    if ledger.schedule.is_some() {
        return Err(Error::FatalError);
    }
    if recipients.len() != allocations.len() || recipients.len() == 0 {
        return Err(Error::FatalError);
    }
    let schedule = ScheduleConfig::new(
        contract_name,
        token,
        *caller,
        vesting_amount,
        start_date,
        duration,
        period,
        cliff_timestamp,
    )?;
    let mut records: Vec<RecipientRecord> = Vec::new();
    let mut i: usize = 0;
    while i < recipients.len()
        invariant
            i <= recipients@.len(),
            recipients@.len() == allocations@.len(),
            records@.len() == i,
            forall|j: int|
                0 <= j < i ==> #[trigger] records@[j]@ == initial_records(recipients@, allocations@)[j],
        decreases recipients@.len() - i,
    {
        records.push(
            RecipientRecord {
                recipient: recipients[i],
                allocation: allocations[i],
                claimed: Amount::zero(),
            },
        );
        i = i + 1;
    }
    ledger.schedule = Some(schedule);
    ledger.records = records;
    proof {
        assert(ledger.records_view() =~= initial_records(recipients@, allocations@));
    }
    Ok(())
}

/// Opens the release gate. Refused with `FatalError` before set-up, and with
/// `AdminError` unless `caller` is the owner of the schedule. The records
/// are not touched.
pub fn release(ledger: &mut VestingLedger, caller: &Identity) -> (r: Result<(), Error>)
    requires
        old(ledger).wf(),
    ensures
        final(ledger).wf(),
        match old(ledger).schedule {
            None => r == Err::<(), Error>(Error::FatalError),
            Some(s) => if same_party(s.owner, *caller) {
                r is Ok
            } else {
                r == Err::<(), Error>(Error::AdminError)
            },
        },
        r is Err ==> *final(ledger) == *old(ledger),
        r is Ok ==> final(ledger).released && final(ledger).admin == old(ledger).admin
            && final(ledger).schedule == old(ledger).schedule && final(ledger).records
            == old(ledger).records,
{
    let allowed = match &ledger.schedule {
        None => return Err(Error::FatalError),
        Some(s) => s.owner.same_as(caller),
    };
    if !allowed {
        return Err(Error::AdminError);
    }
    ledger.released = true;
    Ok(())
}

/// Pays recipient `index` what has vested for it at `now` and not been paid
/// yet, where `caller` is that recipient and the cliff has passed. The new
/// records and the amount paid, or the reason for refusing, are those of
/// `claim_step`; a refusal changes nothing. The release gate is not
/// consulted.
pub fn claim(ledger: &mut VestingLedger, index: i32, caller: &Identity, now: u64) -> (r: Result<
    Payout,
    Error,
>)
    requires
        old(ledger).wf(),
    ensures
        final(ledger).wf(),
        final(ledger).admin == old(ledger).admin,
        final(ledger).schedule == old(ledger).schedule,
        final(ledger).released == old(ledger).released,
        match old(ledger).schedule {
            None => r == Err::<Payout, Error>(Error::FatalError) && final(ledger).records_view()
                == old(ledger).records_view(),
            Some(s) => (final(ledger).records_view(), payout_view(r)) == claim_step(
                s,
                old(ledger).records_view(),
                index as int,
                *caller,
                now,
            ),
        },
        r matches Ok(p) ==> p.recipient == old(ledger).records_view()[index as int].recipient,
{
    let schedule = match &ledger.schedule {
        None => return Err(Error::FatalError),
        Some(s) => s,
    };
    if index < 0 || index as usize >= ledger.records.len() {
        return Err(Error::FatalError);
    }
    let i = index as usize;
    let rec = ledger.records[i];
    assert(rec@ == ledger.records_view()[i as int]);
    if !rec.recipient.same_as(caller) {
        return Err(Error::UserError);
    }
    if now < schedule.release_date {
        return Err(Error::VestingStartError);
    }
    let vested = schedule.vested_amount(&rec.allocation, now);
    let claimable = match vested.checked_sub(&rec.claimed) {
        None => return Err(Error::UnsufficentBalance),
        Some(c) => c,
    };
    if claimable.is_zero() {
        return Err(Error::UnsufficentBalance);
    }
    proof {
        schedule.lemma_vested_bounded(rec.allocation.value(), now);
    }
    ledger.record_claim(i, vested);
    proof {
        let rs = ledger.records_view();
        assert forall|j: int| 0 <= j < rs.len() implies #[trigger] rs[j].claimed <= rs[j].allocation by {
            if j != i {
                assert(rs[j] == old(ledger).records_view()[j]);
            }
        }
    }
    Ok(Payout { recipient: rec.recipient, amount: claimable })
}

} // verus!
