use vesting::amount::Amount;
use vesting::error::Error;
use vesting::identity::Identity;
use vesting::ledger::{check_admin_account, claim, init, release, VestingLedger};
use vesting::schedule::ScheduleConfig;

const T0: u64 = 1_000;
const TOKEN: [u8; 32] = [9u8; 32];

fn admin() -> Identity {
    Identity::Account([200u8; 32])
}

fn person(n: u8) -> Identity {
    Identity::Account([n; 32])
}

/// A ledger set up by the administrator, starting at `T0 - 50` with a cliff
/// of 50, so that vesting counts from `T0`.
fn setup(allocations: &[u64], duration: u64, period: u64) -> VestingLedger {
    let mut ledger = VestingLedger::new(admin());
    let recipients: Vec<Identity> = (0..allocations.len()).map(|i| person(i as u8 + 1)).collect();
    let amounts: Vec<Amount> = allocations.iter().map(|a| Amount::from_u64(*a)).collect();
    let total: u64 = allocations.iter().sum();
    init(
        &mut ledger,
        &admin(),
        String::from("round"),
        Amount::from_u64(total),
        TOKEN,
        T0 - 50,
        duration,
        period,
        recipients,
        amounts,
        50,
    )
    .unwrap();
    ledger
}

fn claimed(ledger: &VestingLedger, i: usize) -> Amount {
    ledger.records[i].claimed
}

#[test]
fn init_writes_schedule_and_records() {
    let ledger = setup(&[1000, 500], 100, 10);
    let s = ledger.schedule.as_ref().unwrap();
    assert_eq!(s.release_date, T0);
    assert_eq!(s.end_date, T0 + 100);
    assert_eq!(s.owner, admin());
    assert_eq!(s.token, TOKEN);
    assert_eq!(s.total_allocation, Amount::from_u64(1500));
    assert_eq!(ledger.recipient_count(), 2);
    assert_eq!(ledger.records[1].recipient, person(2));
    assert_eq!(ledger.records[1].allocation, Amount::from_u64(500));
    assert_eq!(claimed(&ledger, 0), Amount::zero());
    assert!(!ledger.released);
}

#[test]
fn init_by_stranger_is_refused() {
    let mut ledger = VestingLedger::new(admin());
    let r = init(
        &mut ledger,
        &person(1),
        String::from("round"),
        Amount::from_u64(10),
        TOKEN,
        0,
        100,
        10,
        vec![person(1)],
        vec![Amount::from_u64(10)],
        0,
    );
    assert_eq!(r, Err(Error::AdminError));
    assert!(ledger.schedule.is_none());
}

fn try_init(ledger: &mut VestingLedger, n_recipients: usize, n_allocations: usize, start: u64, duration: u64, period: u64, cliff: u64) -> Result<(), Error> {
    init(
        ledger,
        &admin(),
        String::from("round"),
        Amount::from_u64(10),
        TOKEN,
        start,
        duration,
        period,
        (0..n_recipients).map(|i| person(i as u8 + 1)).collect(),
        (0..n_allocations).map(|_| Amount::from_u64(10)).collect(),
        cliff,
    )
}

#[test]
fn init_rejects_malformed_input() {
    let mut ledger = VestingLedger::new(admin());
    assert_eq!(try_init(&mut ledger, 2, 1, 0, 100, 10, 0), Err(Error::FatalError));
    assert_eq!(try_init(&mut ledger, 0, 0, 0, 100, 10, 0), Err(Error::FatalError));
    assert_eq!(try_init(&mut ledger, 1, 1, 0, 100, 0, 0), Err(Error::FatalError));
    assert_eq!(try_init(&mut ledger, 1, 1, 0, 100, 101, 0), Err(Error::FatalError));
    assert_eq!(try_init(&mut ledger, 1, 1, u64::MAX - 10, 100, 10, 0), Err(Error::FatalError));
    assert!(ledger.schedule.is_none());
    assert_eq!(ledger.recipient_count(), 0);
    assert_eq!(try_init(&mut ledger, 1, 1, 0, 100, 10, 0), Ok(()));
}

#[test]
fn init_twice_is_refused() {
    let mut ledger = setup(&[1000], 100, 10);
    assert_eq!(try_init(&mut ledger, 3, 3, 0, 100, 10, 0), Err(Error::FatalError));
    assert_eq!(ledger.recipient_count(), 1);
    assert_eq!(ledger.records[0].allocation, Amount::from_u64(1000));
}

#[test]
fn schedule_derives_dates() {
    let s = ScheduleConfig::new(String::from("r"), TOKEN, admin(), Amount::zero(), 100, 60, 20, 30).unwrap();
    assert_eq!(s.release_date, 130);
    assert_eq!(s.end_date, 190);
    assert_eq!(s.vested_amount(&Amount::from_u64(90), 130), Amount::zero());
    assert_eq!(s.vested_amount(&Amount::from_u64(90), 169), Amount::from_u64(30));
    assert_eq!(s.vested_amount(&Amount::from_u64(90), 170), Amount::from_u64(60));
    assert_eq!(s.vested_amount(&Amount::from_u64(90), 5000), Amount::from_u64(90));
}

#[test]
fn concrete_schedule_of_one_thousand() {
    let mut ledger = setup(&[1000], 100, 10);
    let p = claim(&mut ledger, 0, &person(1), T0 + 35).unwrap();
    assert_eq!(p.amount, Amount::from_u64(300));
    assert_eq!(p.recipient, person(1));
    assert_eq!(claimed(&ledger, 0), Amount::from_u64(300));
    assert_eq!(claim(&mut ledger, 0, &person(1), T0 + 35).unwrap_err(), Error::UnsufficentBalance);
    assert_eq!(claimed(&ledger, 0), Amount::from_u64(300));
    let p = claim(&mut ledger, 0, &person(1), T0 + 105).unwrap();
    assert_eq!(p.amount, Amount::from_u64(700));
    assert_eq!(claimed(&ledger, 0), Amount::from_u64(1000));
}

#[test]
fn uneven_division_leaves_remainder() {
    let mut ledger = setup(&[7], 30, 10);
    let s = ledger.schedule.as_ref().unwrap();
    assert_eq!(s.vested_amount(&Amount::from_u64(7), T0 + 30), Amount::from_u64(6));
    assert_eq!(s.vested_amount(&Amount::from_u64(7), T0 + 1_000_000), Amount::from_u64(6));
    let p = claim(&mut ledger, 0, &person(1), T0 + 30).unwrap();
    assert_eq!(p.amount, Amount::from_u64(6));
    assert_eq!(claimed(&ledger, 0), Amount::from_u64(6));
    assert_eq!(claim(&mut ledger, 0, &person(1), T0 + 500).unwrap_err(), Error::UnsufficentBalance);
    assert_eq!(claimed(&ledger, 0), Amount::from_u64(6));
}

#[test]
fn claimed_never_decreases_nor_exceeds_allocation() {
    let mut ledger = setup(&[1000, 90], 100, 10);
    let times = [T0 + 50, T0 + 10, T0 + 20, T0 + 99, T0 + 60, T0 + 200, T0 + 5];
    let mut last = [0u64; 2];
    for (k, t) in times.iter().enumerate() {
        let i = k % 2;
        let _ = claim(&mut ledger, i as i32, &person(i as u8 + 1), *t);
        let now = claimed(&ledger, i).w0;
        assert!(now >= last[i]);
        assert!(now <= [1000, 90][i]);
        last[i] = now;
    }
    assert_eq!(claimed(&ledger, 0), Amount::from_u64(600));
    assert_eq!(claimed(&ledger, 1), Amount::from_u64(90));
}

#[test]
fn earlier_time_after_claim_pays_nothing() {
    let mut ledger = setup(&[1000], 100, 10);
    claim(&mut ledger, 0, &person(1), T0 + 80).unwrap();
    assert_eq!(claim(&mut ledger, 0, &person(1), T0 + 20).unwrap_err(), Error::UnsufficentBalance);
    assert_eq!(claimed(&ledger, 0), Amount::from_u64(800));
}

#[test]
fn second_claim_at_same_instant_is_refused() {
    let mut ledger = setup(&[600], 60, 20);
    let p = claim(&mut ledger, 0, &person(1), T0 + 45).unwrap();
    assert_eq!(p.amount, Amount::from_u64(400));
    assert_eq!(claim(&mut ledger, 0, &person(1), T0 + 45).unwrap_err(), Error::UnsufficentBalance);
    assert_eq!(claimed(&ledger, 0), Amount::from_u64(400));
}

#[test]
fn claim_before_cliff_is_refused() {
    let mut ledger = setup(&[1000], 100, 10);
    assert_eq!(claim(&mut ledger, 0, &person(1), T0 - 1).unwrap_err(), Error::VestingStartError);
    assert_eq!(claim(&mut ledger, 0, &person(1), 0).unwrap_err(), Error::VestingStartError);
    assert_eq!(claimed(&ledger, 0), Amount::zero());
}

#[test]
fn claim_within_first_period_pays_nothing() {
    let mut ledger = setup(&[1000], 100, 10);
    assert_eq!(claim(&mut ledger, 0, &person(1), T0).unwrap_err(), Error::UnsufficentBalance);
    assert_eq!(claim(&mut ledger, 0, &person(1), T0 + 9).unwrap_err(), Error::UnsufficentBalance);
}

#[test]
fn claim_after_end_pays_everything() {
    let mut ledger = setup(&[1000], 100, 10);
    let p = claim(&mut ledger, 0, &person(1), T0 + 100).unwrap();
    assert_eq!(p.amount, Amount::from_u64(1000));
    assert_eq!(claimed(&ledger, 0), Amount::from_u64(1000));
    assert_eq!(claim(&mut ledger, 0, &person(1), T0 + 10_000).unwrap_err(), Error::UnsufficentBalance);
}

#[test]
fn claim_by_other_identity_is_refused() {
    let mut ledger = setup(&[1000, 1000], 100, 10);
    assert_eq!(claim(&mut ledger, 0, &person(2), T0 + 50).unwrap_err(), Error::UserError);
    assert_eq!(claim(&mut ledger, 1, &person(1), T0 + 50).unwrap_err(), Error::UserError);
    assert_eq!(claim(&mut ledger, 0, &admin(), T0 + 50).unwrap_err(), Error::UserError);
    assert_eq!(claim(&mut ledger, 0, &Identity::Contract([1u8; 32]), T0 + 50).unwrap_err(), Error::UserError);
    assert_eq!(claimed(&ledger, 0), Amount::zero());
    assert_eq!(claimed(&ledger, 1), Amount::zero());
}

#[test]
fn claim_of_missing_record_is_refused() {
    let mut ledger = setup(&[1000], 100, 10);
    assert_eq!(claim(&mut ledger, 1, &person(1), T0 + 50).unwrap_err(), Error::FatalError);
    assert_eq!(claim(&mut ledger, -1, &person(1), T0 + 50).unwrap_err(), Error::FatalError);
    let mut empty = VestingLedger::new(admin());
    assert_eq!(claim(&mut empty, 0, &person(1), T0 + 50).unwrap_err(), Error::FatalError);
}

#[test]
fn release_by_owner_opens_gate() {
    let mut ledger = setup(&[1000], 100, 10);
    assert_eq!(release(&mut ledger, &person(1)), Err(Error::AdminError));
    assert!(!ledger.released);
    assert_eq!(release(&mut ledger, &admin()), Ok(()));
    assert!(ledger.released);
    assert_eq!(release(&mut ledger, &admin()), Ok(()));
    assert!(ledger.released);
    let mut fresh = VestingLedger::new(admin());
    assert_eq!(release(&mut fresh, &admin()), Err(Error::FatalError));
}

#[test]
fn admin_check_compares_identities() {
    let ledger = VestingLedger::new(admin());
    assert_eq!(check_admin_account(&ledger, &admin()), Ok(()));
    assert_eq!(check_admin_account(&ledger, &person(3)), Err(Error::AdminError));
}

#[test]
fn claim_event_carries_payout() {
    let mut ledger = setup(&[1000], 100, 10);
    let p = claim(&mut ledger, 0, &person(1), T0 + 20).unwrap();
    let e = vesting::events::VestingEvent::claimed(TOKEN, &p);
    assert_eq!(
        e,
        vesting::events::VestingEvent::Claim {
            cep18_contract_hash: TOKEN,
            recipient: person(1),
            claim_amount: Amount::from_u64(200),
        }
    );
}

#[test]
fn well_formedness_checks_detect_corruption() {
    let mut ledger = setup(&[1000], 100, 10);
    assert!(ledger.is_wf());
    assert!(ledger.schedule.as_ref().unwrap().is_wf());
    ledger.records[0].claimed = Amount::from_u64(1001);
    assert!(!ledger.is_wf());
    ledger.records[0].claimed = Amount::from_u64(1000);
    assert!(ledger.is_wf());
    ledger.schedule.as_mut().unwrap().end_date = T0 + 99;
    assert!(!ledger.schedule.as_ref().unwrap().is_wf());
    assert!(!ledger.is_wf());
    assert!(VestingLedger::new(admin()).is_wf());
}
