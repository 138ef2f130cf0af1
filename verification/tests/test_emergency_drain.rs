use credence::accounts::AccountId;
use credence::drain::{DrainDataKey, DrainError, DrainLedger, DRAIN_TIMELOCK_SECONDS};

fn account(key: &str) -> AccountId {
    AccountId::new(key.to_string())
}

struct Setup {
    ledger: DrainLedger,
    admin: AccountId,
    treasury: AccountId,
    now: u64,
    paused: bool,
}

fn setup_with_emergency(now: u64) -> Setup {
    Setup {
        ledger: DrainLedger::new(),
        admin: account("GADMIN"),
        treasury: account("GTREASURY"),
        now,
        paused: false,
    }
}

impl Setup {
    fn pause(&mut self) {
        self.paused = true;
    }
    fn advance_time(&mut self, secs: u64) {
        self.now += secs;
    }
    fn schedule(&mut self, delay: u64) -> Result<u64, DrainError> {
        let admin = self.admin.duplicate();
        self.ledger.schedule_drain(self.paused, self.now, &admin, &admin, delay)
    }
    fn cancel(&mut self) -> Result<(), DrainError> {
        let admin = self.admin.duplicate();
        self.ledger.cancel_drain(self.paused, &admin, &admin)
    }
    fn drain(&mut self, amount: i128, recipient: &AccountId) -> Result<u64, DrainError> {
        let admin = self.admin.duplicate();
        let treasury = self.treasury.duplicate();
        self.ledger
            .execute_drain(self.paused, self.now, &admin, &admin, amount, recipient, &treasury)
    }
}

#[test]
fn test_emergency_drain_success_records_audit_trail() {
    let mut s = setup_with_emergency(10_000);
    s.pause();
    s.schedule(86_400).unwrap();
    s.advance_time(86_401);
    let treasury = s.treasury.duplicate();
    let drain_id = s.drain(500, &treasury).unwrap();
    assert_eq!(drain_id, 1);

    let record = s.ledger.get_drain_record(drain_id);
    assert_eq!(record.id, 1);
    assert_eq!(record.amount, 500);
    assert_eq!(record.recipient, treasury);
    assert_eq!(record.admin, s.admin);
    // scheduled_eta == 10_000 + 86_400 = 96_400
    assert_eq!(record.scheduled_eta, 96_400);
    assert_eq!(record.timestamp, 10_000 + 86_401);
}

#[test]
fn test_emergency_drain_id_increments_across_sequential_drains() {
    let mut s = setup_with_emergency(5_000);
    let treasury = s.treasury.duplicate();
    s.pause();
    s.schedule(86_400).unwrap();
    s.advance_time(86_401);
    let id1 = s.drain(100, &treasury).unwrap();
    assert_eq!(id1, 1);

    // Second drain: must re-schedule (ETA cleared after first drain).
    s.schedule(86_400).unwrap();
    s.advance_time(86_401);
    let id2 = s.drain(200, &treasury).unwrap();
    assert_eq!(id2, 2);
    assert_eq!(s.ledger.latest_drain_id(), 2);

    assert_eq!(s.ledger.get_drain_record(id1).amount, 100);
    assert_eq!(s.ledger.get_drain_record(id2).amount, 200);
}

#[test]
fn test_emergency_drain_well_past_eta_still_succeeds() {
    let mut s = setup_with_emergency(1_000);
    let treasury = s.treasury.duplicate();
    s.pause();
    s.schedule(86_400).unwrap();
    s.advance_time(604_800);
    assert_eq!(s.drain(1, &treasury), Ok(1));
}

#[test]
fn test_get_drain_eta_reflects_schedule() {
    let mut s = setup_with_emergency(50_000);
    assert_eq!(s.ledger.get_drain_eta(), None);
    s.pause();
    s.schedule(86_400).unwrap();
    let eta = s.ledger.get_drain_eta().expect("should have ETA");
    assert_eq!(eta, 50_000 + 86_400);
}

#[test]
fn test_cancel_clears_eta() {
    let mut s = setup_with_emergency(1_000);
    s.pause();
    s.schedule(86_400).unwrap();
    assert!(s.ledger.get_drain_eta().is_some());
    s.cancel().unwrap();
    assert_eq!(s.ledger.get_drain_eta(), None);
}

#[test]
fn test_get_latest_drain_id_starts_at_zero() {
    let s = setup_with_emergency(0);
    assert_eq!(s.ledger.latest_drain_id(), 0);
}

#[test]
fn drain_refused_when_not_paused() {
    let mut s = setup_with_emergency(1_000);
    let treasury = s.treasury.duplicate();
    assert_eq!(s.schedule(86_400), Err(DrainError::EmergencyDrainNotPermitted));
    s.advance_time(86_401);
    assert_eq!(s.drain(100, &treasury), Err(DrainError::EmergencyDrainNotPermitted));
}

#[test]
fn drain_refused_before_eta_and_at_one_second_before() {
    let mut s = setup_with_emergency(0);
    let treasury = s.treasury.duplicate();
    s.pause();
    s.schedule(86_400).unwrap();
    s.now = 43_200;
    assert_eq!(s.drain(100, &treasury), Err(DrainError::TimelockNotReady));
    s.now = 86_399;
    assert_eq!(s.drain(100, &treasury), Err(DrainError::TimelockNotReady));
    s.now = 86_400;
    assert_eq!(s.drain(100, &treasury), Ok(1));
}

#[test]
fn drain_refused_without_schedule_or_after_cancel() {
    let mut s = setup_with_emergency(1_000);
    let treasury = s.treasury.duplicate();
    s.pause();
    assert_eq!(s.drain(100, &treasury), Err(DrainError::EmergencyDrainNotPermitted));
    s.schedule(86_400).unwrap();
    s.advance_time(86_401);
    s.cancel().unwrap();
    assert_eq!(s.drain(100, &treasury), Err(DrainError::EmergencyDrainNotPermitted));
}

#[test]
fn schedule_rejects_short_delay_and_overflow() {
    let mut s = setup_with_emergency(1_000);
    s.pause();
    assert_eq!(s.schedule(DRAIN_TIMELOCK_SECONDS - 1), Err(DrainError::TimelockNotReady));
    s.now = u64::MAX - 10;
    assert_eq!(s.schedule(DRAIN_TIMELOCK_SECONDS), Err(DrainError::Overflow));
    assert_eq!(s.ledger.get_drain_eta(), None);
}

#[test]
fn drain_rejects_rogue_recipient_and_non_positive_amounts() {
    let mut s = setup_with_emergency(1_000);
    let treasury = s.treasury.duplicate();
    s.pause();
    s.schedule(86_400).unwrap();
    s.advance_time(86_401);
    assert_eq!(s.drain(0, &treasury), Err(DrainError::AmountNotPositive));
    assert_eq!(s.drain(-1, &treasury), Err(DrainError::AmountNotPositive));
    assert_eq!(s.drain(100, &account("GROGUE")), Err(DrainError::RecipientNotTreasury));
    // The recipient is checked before the amount.
    assert_eq!(s.drain(0, &account("GROGUE")), Err(DrainError::RecipientNotTreasury));
    // Nothing was recorded, and the schedule is still in place.
    assert_eq!(s.ledger.latest_drain_id(), 0);
    assert!(s.ledger.get_drain_eta().is_some());
}

#[test]
fn drain_cannot_be_replayed_without_rescheduling() {
    let mut s = setup_with_emergency(1_000);
    let treasury = s.treasury.duplicate();
    s.pause();
    s.schedule(86_400).unwrap();
    s.advance_time(86_401);
    assert_eq!(s.drain(50, &treasury), Ok(1));
    assert_eq!(s.drain(50, &treasury), Err(DrainError::EmergencyDrainNotPermitted));
    assert_eq!(s.ledger.latest_drain_id(), 1);
}

#[test]
fn restore_checks_numbering() {
    let mut s = setup_with_emergency(1_000);
    let treasury = s.treasury.duplicate();
    s.pause();
    s.schedule(86_400).unwrap();
    s.advance_time(86_401);
    s.drain(10, &treasury).unwrap();
    let good = vec![s.ledger.get_drain_record(1)];
    let restored = DrainLedger::restore(None, good).expect("ids 1.. are valid");
    assert_eq!(restored.latest_drain_id(), 1);
    let mut bad = s.ledger.get_drain_record(1);
    bad.id = 2;
    assert!(DrainLedger::restore(None, vec![bad]).is_none());
    assert_eq!(DrainDataKey::for_record(3), DrainDataKey::DrainRecord(3));
}

#[test]
fn only_the_stored_admin_schedules_cancels_and_drains() {
    let mut s = setup_with_emergency(1_000);
    let treasury = s.treasury.duplicate();
    let admin = s.admin.duplicate();
    let rogue = account("GROGUE");
    s.pause();
    assert_eq!(
        s.ledger.schedule_drain(true, s.now, &admin, &rogue, 86_400),
        Err(DrainError::NotAdmin)
    );
    assert_eq!(s.ledger.get_drain_eta(), None);
    s.schedule(86_400).unwrap();
    assert_eq!(s.ledger.cancel_drain(true, &admin, &rogue), Err(DrainError::NotAdmin));
    assert_eq!(s.ledger.get_drain_eta(), Some(1_000 + 86_400));
    s.advance_time(86_401);
    // The admin gate comes before the recipient and amount gates.
    assert_eq!(
        s.ledger.execute_drain(true, s.now, &admin, &rogue, 0, &rogue, &treasury),
        Err(DrainError::NotAdmin)
    );
    assert_eq!(s.ledger.latest_drain_id(), 0);
    assert_eq!(s.drain(7, &treasury), Ok(1));
    assert_eq!(s.ledger.get_drain_record(1).admin, admin);
}

#[test]
fn cancel_requires_a_paused_contract() {
    let mut s = setup_with_emergency(1_000);
    s.pause();
    s.schedule(86_400).unwrap();
    s.paused = false;
    assert_eq!(s.cancel(), Err(DrainError::EmergencyDrainNotPermitted));
    assert_eq!(s.ledger.get_drain_eta(), Some(1_000 + 86_400));
    s.paused = true;
    assert_eq!(s.cancel(), Ok(()));
    assert_eq!(s.ledger.get_drain_eta(), None);
}
