//! Emergency drain to treasury: a timelocked, pause-gated, one-shot path for
//! the admin to move residual funds to the treasury, with an append-only
//! audit trail of drain records keyed by a monotonic id starting at 1.
use vstd::prelude::*;
use crate::accounts::AccountId;

verus! {

/// Minimum delay (seconds) between scheduling and executing a drain.
pub const DRAIN_TIMELOCK_SECONDS: u64 = 86_400;

/// Storage key under which the drain ETA is kept.
pub const KEY_DRAIN_ETA: &'static str = "drain_eta";

/// Storage key under which the drain sequence counter is kept.
pub const KEY_DRAIN_SEQ: &'static str = "drain_seq";

/// Persistent storage keys of the drain audit trail.
#[derive(Clone, Copy, Debug, PartialEq, Eq, Structural)]
pub enum DrainDataKey {
    /// Drain audit record by sequence id.
    DrainRecord(u64),
    /// Monotonic drain sequence counter.
    DrainSeq,
}

impl DrainDataKey {
    /// The key of the audit record with id `id`.
    pub fn for_record(id: u64) -> (key: DrainDataKey)
        ensures
            key == DrainDataKey::DrainRecord(id),
    {
        DrainDataKey::DrainRecord(id)
    }
}

/// Why a drain request was refused.
#[derive(Clone, Copy, Debug, PartialEq, Eq, Structural)]
pub enum DrainError {
    /// The contract is not paused, or no drain is scheduled.
    EmergencyDrainNotPermitted,
    /// The delay is below the minimum, or the ETA has not been reached.
    TimelockNotReady,
    /// `now + delay` does not fit in a `u64`.
    Overflow,
    /// The amount is zero or negative ("amount must be positive").
    AmountNotPositive,
    /// The caller is not the stored admin ("not admin").
    NotAdmin,
    /// The recipient is not the treasury ("recipient must be treasury").
    RecipientNotTreasury,
    /// The drain sequence counter is exhausted ("drain sequence overflow").
    SequenceOverflow,
}

/// Immutable audit record for a single emergency drain execution.
#[derive(Debug, PartialEq, Eq)]
pub struct DrainRecord {
    /// Monotonic id, starting at 1.
    pub id: u64,
    /// Amount drained.
    pub amount: i128,
    /// Recipient (the treasury).
    pub recipient: AccountId,
    /// Admin who triggered the drain.
    pub admin: AccountId,
    /// Ledger timestamp at execution.
    pub timestamp: u64,
    /// ETA that was stored when the drain was scheduled.
    pub scheduled_eta: u64,
}

/// Mathematical content of a drain record.
pub struct DrainRecordView {
    pub id: u64,
    pub amount: i128,
    pub recipient: Seq<char>,
    pub admin: Seq<char>,
    pub timestamp: u64,
    pub scheduled_eta: u64,
}

impl View for DrainRecord {
    type V = DrainRecordView;

    open spec fn view(&self) -> DrainRecordView {
        DrainRecordView {
            id: self.id,
            amount: self.amount,
            recipient: self.recipient@,
            admin: self.admin@,
            timestamp: self.timestamp,
            scheduled_eta: self.scheduled_eta,
        }
    }
}

impl DrainRecord {
    /// A second copy of the record.
    pub fn duplicate(&self) -> (copy: DrainRecord)
        ensures
            copy@ == self@,
    {
        DrainRecord {
            id: self.id,
            amount: self.amount,
            recipient: self.recipient.duplicate(),
            admin: self.admin.duplicate(),
            timestamp: self.timestamp,
            scheduled_eta: self.scheduled_eta,
        }
    }
}

/// Mathematical state of the drain machinery: the scheduled ETA, if any,
/// and the audit trail, whose `i`-th entry has id `i + 1`.
pub struct DrainState {
    pub eta: Option<u64>,
    pub records: Seq<DrainRecordView>,
}

/// The audit trail is numbered 1, 2, 3, … in order.
pub open spec fn drain_state_wf(s: DrainState) -> bool {
    &&& s.records.len() <= u64::MAX
    &&& forall|i: int| 0 <= i < s.records.len() ==> #[trigger] s.records[i].id == i + 1
}

/// Outcome of `admin` scheduling a drain with `delay` at ledger time `now`,
/// where `stored_admin` is the contract's admin. The gates are checked in
/// order: paused, caller is the admin, delay long enough, no overflow.
pub open spec fn schedule_outcome(
    s: DrainState,
    paused: bool,
    now: u64,
    stored_admin: Seq<char>,
    admin: Seq<char>,
    delay: u64,
) -> (Result<u64, DrainError>, DrainState) {
    if !paused {
        (Err(DrainError::EmergencyDrainNotPermitted), s)
    } else if admin != stored_admin {
        (Err(DrainError::NotAdmin), s)
    } else if delay < DRAIN_TIMELOCK_SECONDS {
        (Err(DrainError::TimelockNotReady), s)
    } else if now + delay > u64::MAX {
        (Err(DrainError::Overflow), s)
    } else {
        let eta = (now + delay) as u64;
        (Ok(eta), DrainState { eta: Some(eta), records: s.records })
    }
}

/// Outcome of `admin` cancelling the scheduled drain: allowed only while the
/// contract is paused and only to the stored admin; it removes the ETA.
pub open spec fn cancel_outcome(
    s: DrainState,
    paused: bool,
    stored_admin: Seq<char>,
    admin: Seq<char>,
) -> (Result<(), DrainError>, DrainState) {
    if !paused {
        (Err(DrainError::EmergencyDrainNotPermitted), s)
    } else if admin != stored_admin {
        (Err(DrainError::NotAdmin), s)
    } else {
        (Ok(()), DrainState { eta: None, records: s.records })
    }
}

/// Outcome of executing a drain of `amount` to `recipient` at time `now`.
/// The gates are checked in order: paused, scheduled, ETA reached, caller is
/// the stored admin, recipient is the treasury, positive amount, id available.
pub open spec fn execute_outcome(
    s: DrainState,
    paused: bool,
    now: u64,
    stored_admin: Seq<char>,
    admin: Seq<char>,
    amount: i128,
    recipient: Seq<char>,
    treasury: Seq<char>,
) -> (Result<u64, DrainError>, DrainState) {
    if !paused {
        (Err(DrainError::EmergencyDrainNotPermitted), s)
    } else if s.eta is None {
        (Err(DrainError::EmergencyDrainNotPermitted), s)
    } else if now < s.eta->0 {
        (Err(DrainError::TimelockNotReady), s)
    } else if admin != stored_admin {
        (Err(DrainError::NotAdmin), s)
    } else if recipient != treasury {
        (Err(DrainError::RecipientNotTreasury), s)
    } else if amount <= 0 {
        (Err(DrainError::AmountNotPositive), s)
    } else if s.records.len() >= u64::MAX {
        (Err(DrainError::SequenceOverflow), s)
    } else {
        let id = (s.records.len() + 1) as u64;
        let record = DrainRecordView {
            id,
            amount,
            recipient,
            admin,
            timestamp: now,
            scheduled_eta: s.eta->0,
        };
        (Ok(id), DrainState { eta: None, records: s.records.push(record) })
    }
}

/// The mathematical content of a sequence of drain records.
pub open spec fn record_views(records: Seq<DrainRecord>) -> Seq<DrainRecordView> {
    records.map_values(|r: DrainRecord| r@)
}

/// The drain ETA and audit trail of one bond contract.
pub struct DrainLedger {
    eta: Option<u64>,
    records: Vec<DrainRecord>,
}

impl View for DrainLedger {
    type V = DrainState;

    closed spec fn view(&self) -> DrainState {
        DrainState { eta: self.eta, records: record_views(self.records@) }
    }
}

impl DrainLedger {
    /// Well-formedness: the audit trail is numbered 1, 2, 3, … in order.
    pub open spec fn wf(&self) -> bool {
        drain_state_wf(self@)
    }

    /// No drain scheduled and no drain executed yet.
    pub fn new() -> (ledger: DrainLedger)
        ensures
            ledger.wf(),
            ledger@.eta is None,
            ledger@.records.len() == 0,
    {
        let ledger = DrainLedger { eta: None, records: Vec::new() };
        assert(ledger@.records =~= Seq::<DrainRecordView>::empty());
        ledger
    }

    /// Rebuilds a ledger from a stored ETA and stored records; `None` when the
    /// records are not numbered 1, 2, 3, … in order.
    pub fn restore(eta: Option<u64>, records: Vec<DrainRecord>) -> (ledger: Option<DrainLedger>)
        ensures
            ledger is Some <==> drain_state_wf(DrainState { eta, records: record_views(records@) }),
            ledger matches Some(l) ==> l.wf() && l@.eta == eta && l@.records == record_views(
                records@,
            ),
    {
        let ghost views = record_views(records@);
        let n = records.len();
        let mut i: usize = 0;
        while i < n
            invariant
                n == records.len(),
                i <= n,
                views == record_views(records@),
                forall|j: int| 0 <= j < i ==> #[trigger] views[j].id == j + 1,
            decreases n - i,
        {
            if records[i].id != (i as u64) + 1 {
                assert(views[i as int].id != i + 1);
                return None;
            }
            i = i + 1;
        }
        Some(DrainLedger { eta, records })
    }

    /// Schedules a drain at `now + delay` on behalf of `admin`.
    ///
    /// Refused, with nothing changed, when the contract is not paused, when
    /// `admin` is not `stored_admin`, when `delay` is below
    /// [`DRAIN_TIMELOCK_SECONDS`], or when `now + delay` overflows.
    pub fn schedule_drain(
        &mut self,
        paused: bool,
        now: u64,
        stored_admin: &AccountId,
        admin: &AccountId,
        delay: u64,
    ) -> (eta: Result<u64, DrainError>)
        requires
            old(self).wf(),
        ensures
            final(self).wf(),
            (eta, final(self)@) == schedule_outcome(
                old(self)@,
                paused,
                now,
                stored_admin@,
                admin@,
                delay,
            ),
    {
        if !paused {
            return Err(DrainError::EmergencyDrainNotPermitted);
        }
        if !admin.same_as(stored_admin) {
            return Err(DrainError::NotAdmin);
        }
        if delay < DRAIN_TIMELOCK_SECONDS {
            return Err(DrainError::TimelockNotReady);
        }
        match now.checked_add(delay) {
            None => Err(DrainError::Overflow),
            Some(eta) => {
                self.eta = Some(eta);
                Ok(eta)
            },
        }
    }

    /// The currently scheduled drain ETA, or `None` if none is scheduled.
    pub fn get_drain_eta(&self) -> (eta: Option<u64>)
        ensures
            eta == self@.eta,
    {
        self.eta
    }

    /// Removes the scheduled ETA, if any, on behalf of `admin`.
    ///
    /// Refused, with the ETA unchanged, when the contract is not paused or
    /// when `admin` is not `stored_admin`.
    pub fn cancel_drain(&mut self, paused: bool, stored_admin: &AccountId, admin: &AccountId) -> (r:
        Result<(), DrainError>)
        requires
            old(self).wf(),
        ensures
            final(self).wf(),
            (r, final(self)@) == cancel_outcome(old(self)@, paused, stored_admin@, admin@),
    {
        if !paused {
            return Err(DrainError::EmergencyDrainNotPermitted);
        }
        if !admin.same_as(stored_admin) {
            return Err(DrainError::NotAdmin);
        }
        self.eta = None;
        Ok(())
    }

    /// Executes, on behalf of `admin`, a drain of `amount` to `recipient`,
    /// which must be `treasury`; `admin` must be `stored_admin`.
    /// On success the ETA is cleared, an audit record is appended, and its id
    /// is returned.
    pub fn execute_drain(
        &mut self,
        paused: bool,
        now: u64,
        stored_admin: &AccountId,
        admin: &AccountId,
        amount: i128,
        recipient: &AccountId,
        treasury: &AccountId,
    ) -> (id: Result<u64, DrainError>)
        requires
            old(self).wf(),
        ensures
            final(self).wf(),
            (id, final(self)@) == execute_outcome(
                old(self)@,
                paused,
                now,
                stored_admin@,
                admin@,
                amount,
                recipient@,
                treasury@,
            ),
    {
        if !paused {
            return Err(DrainError::EmergencyDrainNotPermitted);
        }
        let eta = match self.eta {
            None => {
                return Err(DrainError::EmergencyDrainNotPermitted);
            },
            Some(eta) => eta,
        };
        if now < eta {
            return Err(DrainError::TimelockNotReady);
        }
        if !admin.same_as(stored_admin) {
            return Err(DrainError::NotAdmin);
        }
        if !recipient.same_as(treasury) {
            return Err(DrainError::RecipientNotTreasury);
        }
        if amount <= 0 {
            return Err(DrainError::AmountNotPositive);
        }
        let seq = self.records.len() as u64;
        if seq == u64::MAX {
            return Err(DrainError::SequenceOverflow);
        }
        let id = seq + 1;
        let record = DrainRecord {
            id,
            amount,
            recipient: recipient.duplicate(),
            admin: admin.duplicate(),
            timestamp: now,
            scheduled_eta: eta,
        };
        let ghost before = self@;
        self.eta = None;
        self.records.push(record);
        proof {
            assert(self@.records =~= before.records.push(record@));
        }
        Ok(id)
    }

    /// The id of the latest drain record (0 when no drain was executed yet).
    pub fn latest_drain_id(&self) -> (id: u64)
        requires
            self.wf(),
        ensures
            id == self@.records.len(),
    {
        self.records.len() as u64
    }

    /// The drain record with id `id`.
    pub fn get_drain_record(&self, id: u64) -> (record: DrainRecord)
        requires
            self.wf(),
            1 <= id <= self@.records.len(),
        ensures
            record@ == self@.records[id - 1],
            record@.id == id,
    {
        let len: usize = self.records.len();
        assert(id <= len);
        let idx: usize = (id - 1) as usize;
        let r = self.records[idx].duplicate();
        assert(self@.records[id - 1] == self.records@[id - 1]@);
        r
    }
}

/// Scheduling, cancelling and executing keep the audit trail numbered
/// 1, 2, 3, … and never alter a record already written: the trail before
/// the call is a prefix of the trail after it.
pub proof fn law_audit_trail_append_only(
    s: DrainState,
    paused: bool,
    now: u64,
    stored_admin: Seq<char>,
    admin: Seq<char>,
    delay: u64,
    amount: i128,
    recipient: Seq<char>,
    treasury: Seq<char>,
)
    requires
        drain_state_wf(s),
    ensures
        drain_state_wf(schedule_outcome(s, paused, now, stored_admin, admin, delay).1),
        s.records.is_prefix_of(schedule_outcome(s, paused, now, stored_admin, admin, delay).1.records),
        drain_state_wf(cancel_outcome(s, paused, stored_admin, admin).1),
        s.records.is_prefix_of(cancel_outcome(s, paused, stored_admin, admin).1.records),
        drain_state_wf(
            execute_outcome(s, paused, now, stored_admin, admin, amount, recipient, treasury).1,
        ),
        s.records.is_prefix_of(
            execute_outcome(s, paused, now, stored_admin, admin, amount, recipient, treasury).1.records,
        ),
{
    let after = execute_outcome(s, paused, now, stored_admin, admin, amount, recipient, treasury).1;
    assert(s.records.is_prefix_of(s.records));
    if after.records.len() != s.records.len() {
        assert forall|i: int| 0 <= i < s.records.len() implies after.records[i] == s.records[i] by {}
    }
}

/// A successful drain is recorded with the next id, and reading that id back
/// gives exactly what was drained: amount, recipient, admin, execution time
/// and the ETA that was scheduled. Only the stored admin can succeed.
pub proof fn law_drain_read_after_write(
    s: DrainState,
    paused: bool,
    now: u64,
    stored_admin: Seq<char>,
    admin: Seq<char>,
    amount: i128,
    recipient: Seq<char>,
    treasury: Seq<char>,
)
    requires
        drain_state_wf(s),
        execute_outcome(s, paused, now, stored_admin, admin, amount, recipient, treasury).0 is Ok,
    ensures
        ({
            let (r, after) = execute_outcome(
                s,
                paused,
                now,
                stored_admin,
                admin,
                amount,
                recipient,
                treasury,
            );
            let id = r->Ok_0;
            &&& id == s.records.len() + 1
            &&& after.records.len() == id
            &&& after.records[id - 1] == DrainRecordView {
                id,
                amount,
                recipient,
                admin,
                timestamp: now,
                scheduled_eta: s.eta->0,
            }
            &&& admin == stored_admin
            &&& recipient == treasury
            &&& amount > 0
            &&& paused
            &&& s.eta is Some && now >= s.eta->0
        }),
{
}

/// A drain cannot be replayed: after a successful drain the ETA is gone, so
/// any further drain is refused as not permitted until a new schedule.
pub proof fn law_drain_not_replayable(
    s: DrainState,
    paused: bool,
    now: u64,
    stored_admin: Seq<char>,
    admin: Seq<char>,
    amount: i128,
    recipient: Seq<char>,
    treasury: Seq<char>,
    paused2: bool,
    now2: u64,
    admin2: Seq<char>,
    amount2: i128,
    recipient2: Seq<char>,
    treasury2: Seq<char>,
)
    requires
        drain_state_wf(s),
        execute_outcome(s, paused, now, stored_admin, admin, amount, recipient, treasury).0 is Ok,
    ensures
        ({
            let after = execute_outcome(
                s,
                paused,
                now,
                stored_admin,
                admin,
                amount,
                recipient,
                treasury,
            ).1;
            let again = execute_outcome(
                after,
                paused2,
                now2,
                stored_admin,
                admin2,
                amount2,
                recipient2,
                treasury2,
            );
            again.0 == Err::<u64, DrainError>(DrainError::EmergencyDrainNotPermitted) && again.1
                == after
        }),
{
}

/// Cancelling blocks any drain: after a successful cancel, a drain is refused
/// as not permitted and changes nothing.
pub proof fn law_cancel_blocks_drain(
    s: DrainState,
    stored_admin: Seq<char>,
    paused: bool,
    now: u64,
    admin: Seq<char>,
    amount: i128,
    recipient: Seq<char>,
    treasury: Seq<char>,
)
    ensures
        ({
            let cancelled = cancel_outcome(s, true, stored_admin, stored_admin);
            let run = execute_outcome(
                cancelled.1,
                paused,
                now,
                stored_admin,
                admin,
                amount,
                recipient,
                treasury,
            );
            &&& cancelled.0 is Ok
            &&& run.0 == Err::<u64, DrainError>(DrainError::EmergencyDrainNotPermitted)
            &&& run.1 == cancelled.1
        }),
{
}

/// Only the stored admin manages drains: any other caller is refused as not
/// admin by schedule, cancel and execute (on a paused contract, and for
/// execute once the ETA is reached), and nothing changes.
pub proof fn law_only_admin_drains(
    s: DrainState,
    now: u64,
    stored_admin: Seq<char>,
    caller: Seq<char>,
    delay: u64,
    amount: i128,
    recipient: Seq<char>,
    treasury: Seq<char>,
)
    requires
        caller != stored_admin,
    ensures
        schedule_outcome(s, true, now, stored_admin, caller, delay) == (
        Err::<u64, DrainError>(DrainError::NotAdmin),
        s,
        ),
        cancel_outcome(s, true, stored_admin, caller) == (
        Err::<(), DrainError>(DrainError::NotAdmin),
        s,
        ),
        (s.eta is Some && now >= s.eta->0) ==> execute_outcome(
            s,
            true,
            now,
            stored_admin,
            caller,
            amount,
            recipient,
            treasury,
        ) == (Err::<u64, DrainError>(DrainError::NotAdmin), s),
{
}

/// The timelock: a drain scheduled at `t` with delay `d` becomes due exactly
/// at `t + d`, which is at least [`DRAIN_TIMELOCK_SECONDS`] later. Before that
/// instant a drain is refused as not ready; from that instant on, a drain by
/// the admin of a positive amount to the treasury by a paused contract
/// succeeds (while ids remain).
pub proof fn law_timelock(
    s: DrainState,
    t: u64,
    d: u64,
    now: u64,
    stored_admin: Seq<char>,
    admin: Seq<char>,
    amount: i128,
    recipient: Seq<char>,
    treasury: Seq<char>,
)
    requires
        drain_state_wf(s),
        schedule_outcome(s, true, t, stored_admin, stored_admin, d).0 is Ok,
    ensures
        ({
            let (r, scheduled) = schedule_outcome(s, true, t, stored_admin, stored_admin, d);
            let run = execute_outcome(
                scheduled,
                true,
                now,
                stored_admin,
                admin,
                amount,
                recipient,
                treasury,
            );
            &&& r->Ok_0 == t + d
            &&& r->Ok_0 >= t + DRAIN_TIMELOCK_SECONDS
            &&& now < t + d ==> run.0 == Err::<u64, DrainError>(DrainError::TimelockNotReady)
            &&& (now >= t + d && admin == stored_admin && amount > 0 && recipient == treasury
                && s.records.len() < u64::MAX) ==> run.0 == Ok::<u64, DrainError>(
                (s.records.len() + 1) as u64,
            )
        }),
{
}

/// The pause gate: an unpaused contract can neither schedule, cancel nor
/// execute a drain, whoever asks, and no attempt changes anything.
pub proof fn law_pause_gate(
    s: DrainState,
    now: u64,
    stored_admin: Seq<char>,
    admin: Seq<char>,
    delay: u64,
    amount: i128,
    recipient: Seq<char>,
    treasury: Seq<char>,
)
    ensures
        schedule_outcome(s, false, now, stored_admin, admin, delay) == (
        Err::<u64, DrainError>(DrainError::EmergencyDrainNotPermitted),
        s,
        ),
        cancel_outcome(s, false, stored_admin, admin) == (
        Err::<(), DrainError>(DrainError::EmergencyDrainNotPermitted),
        s,
        ),
        execute_outcome(s, false, now, stored_admin, admin, amount, recipient, treasury) == (
        Err::<u64, DrainError>(DrainError::EmergencyDrainNotPermitted),
        s,
        ),
{
}

/// Any delay of at least [`DRAIN_TIMELOCK_SECONDS`] is accepted: on a
/// paused contract, the stored admin scheduling with such a delay (and
/// `now + delay` within `u64`) always succeeds, the ETA returned and stored
/// is `now + delay`, and the audit trail is untouched. A shorter delay is
/// always refused as not ready, with nothing changed.
pub proof fn law_schedule_accepts_every_long_delay(
    s: DrainState,
    now: u64,
    admin: Seq<char>,
    delay: u64,
)
    ensures
        (delay >= DRAIN_TIMELOCK_SECONDS && now + delay <= u64::MAX) ==> {
            let (r, after) = schedule_outcome(s, true, now, admin, admin, delay);
            &&& r is Ok
            &&& r->Ok_0 == now + delay
            &&& after.eta == Some((now + delay) as u64)
            &&& after.records == s.records
        },
        delay < DRAIN_TIMELOCK_SECONDS ==> schedule_outcome(s, true, now, admin, admin, delay) == (
        Err::<u64, DrainError>(DrainError::TimelockNotReady),
        s,
        ),
{
}

} // verus!
