//! A time-locked escrow ledger.
//!
//! A depositor (the *customer*) places funds under custody for a designated
//! recipient (the *chef*). The funds become releasable once a fixed lock
//! period has elapsed, and only the chef may trigger the release. The ledger
//! keeps every record for audit: completed escrows are never deleted.
//!
//! The hosting environment supplies three capabilities as plain inputs: the
//! caller's identity, the current time, and the outcome of the value
//! transfer. The ledger itself is pure state: a dense arena of records keyed
//! by a monotonically increasing identifier.

use vstd::prelude::*;

verus! {

/// Identity of a party: a 256-bit account identifier, split into two halves.
#[derive(Clone, Copy, Debug, PartialEq, Eq, Structural)]
pub struct AccountId {
    pub hi: u128,
    pub lo: u128,
}

/// An amount of funds held in custody.
pub type Balance = u128;

/// A point in time, in milliseconds.
pub type Timestamp = u64;

/// The time duration for the escrow lock, in milliseconds.
/// 30 days = 30 * 24 * 60 * 60 * 1000 = 2,592,000,000 ms
pub const THIRTY_DAYS: Timestamp = 2_592_000_000;

/// Lifecycle stage of an escrow. Transitions are one-way: a record that has
/// left `InProgress` never returns to it. `Cancelled` is a valid terminal
/// stage, but no operation currently produces it.
#[derive(Clone, Copy, Debug, PartialEq, Eq, Structural)]
pub enum EscrowStatus {
    InProgress,
    Completed,
    Cancelled,
}

/// Every way an operation on the ledger can fail.
#[derive(Clone, Copy, Debug, PartialEq, Eq, Structural)]
pub enum Error {
    /// The escrow has not yet reached its release time.
    EscrowNotExpired,
    /// The caller is not the designated chef.
    NotTheChef,
    /// The caller is not the customer.
    NotTheCustomer,
    /// The transfer of funds from custody to the chef failed.
    TransferFailed,
    /// Escrow has already been completed or cancelled.
    EscrowFinished,
    /// Escrow not found for the given ID.
    EscrowNotFound,
    /// Insufficient funds to create escrow.
    InsufficientFunds,
}

/// One escrow record. All fields but `status` are fixed at creation.
#[derive(Clone, Copy, Debug)]
pub struct EscrowDetails {
    /// The customer who deposited the funds.
    pub customer: AccountId,
    /// The chef who will receive the funds.
    pub chef: AccountId,
    /// The amount of funds in escrow.
    pub amount: Balance,
    /// The timestamp when the funds can be released to the chef.
    pub release_time: Timestamp,
    /// The current status of the escrow.
    pub status: EscrowStatus,
}

/// The escrow ledger: records stored densely under their identifiers, and the
/// next identifier to allocate.
pub struct Escrow {
    records: Vec<EscrowDetails>,
    next_escrow_id: u32,
}

/// The record that a creation at time `now` inserts.
pub open spec fn new_record(
    customer: AccountId,
    chef: AccountId,
    amount: Balance,
    now: Timestamp,
) -> EscrowDetails {
    EscrowDetails {
        customer,
        chef,
        amount,
        release_time: (now + THIRTY_DAYS) as Timestamp,
        status: EscrowStatus::InProgress,
    }
}

impl Escrow {
    /// The records, as a sequence indexed by escrow identifier.
    pub closed spec fn records(self) -> Seq<EscrowDetails> {
        self.records@
    }

    /// The identifier the next successful creation will assign.
    pub closed spec fn next_id(self) -> u32 {
        self.next_escrow_id
    }

    /// Well-formedness: identifiers were allocated densely, so the counter
    /// equals the number of records.
    pub open spec fn wf(self) -> bool {
        self.next_id() == self.records().len()
    }

    /// The record stored under an identifier, if any.
    pub open spec fn record_of(self, escrow_id: u32) -> Option<EscrowDetails> {
        if escrow_id < self.records().len() {
            Some(self.records()[escrow_id as int])
        } else {
            None
        }
    }

    /// The status of the escrow stored under an identifier, if any.
    pub open spec fn status_of(self, escrow_id: u32) -> Option<EscrowStatus> {
        match self.record_of(escrow_id) {
            Some(d) => Some(d.status),
            None => None,
        }
    }

    /// The release time of the escrow stored under an identifier, if any.
    pub open spec fn release_time_of(self, escrow_id: u32) -> Option<Timestamp> {
        match self.record_of(escrow_id) {
            Some(d) => Some(d.release_time),
            None => None,
        }
    }

    /// The error a release attempt yields, running the checks in their fixed
    /// order: existence, authorization, finished-check, time-check. `None`
    /// means every check passes and the transfer may proceed.
    pub open spec fn release_error(
        self,
        caller: AccountId,
        escrow_id: u32,
        now: Timestamp,
    ) -> Option<Error> {
        match self.record_of(escrow_id) {
            None => Some(Error::EscrowNotFound),
            Some(d) => if caller != d.chef {
                Some(Error::NotTheChef)
            } else if d.status != EscrowStatus::InProgress {
                Some(Error::EscrowFinished)
            } else if now < d.release_time {
                Some(Error::EscrowNotExpired)
            } else {
                None
            },
        }
    }

    /// Creates an empty ledger: no records, identifier counter at zero.
    pub fn new() -> (r: Escrow)
        ensures
            r.wf(),
            r.next_id() == 0,
            r.records() == Seq::<EscrowDetails>::empty(),
    {
        Escrow { records: Vec::new(), next_escrow_id: 0 }
    }

    /// Reads the identifier counter.
    pub fn next_escrow_id(&self) -> (r: u32)
        ensures
            r == self.next_id(),
    {
        self.next_escrow_id
    }

    /// Creates a new escrow over funds the caller has already placed in
    /// custody, and returns its identifier.
    pub fn create_escrow(
        &mut self,
        customer: AccountId,
        chef: AccountId,
        amount: Balance,
        now: Timestamp,
    ) -> (r: Result<u32, Error>)
        requires
            amount > 0 ==> old(self).next_id() < u32::MAX,
            amount > 0 ==> now + THIRTY_DAYS <= u64::MAX,
        ensures
            create_transition(*old(self), *final(self), customer, chef, amount, now, r),
            old(self).wf() ==> final(self).wf(),
    {
        if amount == 0 {
            return Err(Error::InsufficientFunds);
        }

        let escrow_id = self.next_escrow_id;
        let release_time = now + THIRTY_DAYS;

        let details = EscrowDetails {
            customer,
            chef,
            amount,
            release_time,
            status: EscrowStatus::InProgress,
        };

        self.records.push(details);
        self.next_escrow_id = escrow_id + 1;

        Ok(escrow_id)
    }

    /// Runs the release checks without touching the ledger. On success it
    /// returns what the host must transfer: the chef and the amount of the
    /// escrow. The host performs the transfer and hands its outcome to
    /// [`Self::release_funds`].
    pub fn check_release(
        &self,
        caller: AccountId,
        escrow_id: u32,
        now: Timestamp,
    ) -> (r: Result<TransferRequest, Error>)
        ensures
            match self.release_error(caller, escrow_id, now) {
                Some(e) => r == Err::<TransferRequest, Error>(e),
                None => {
                    &&& r is Ok
                    &&& self.record_of(escrow_id) matches Some(d)
                        && (r == Ok::<TransferRequest, Error>(TransferRequest {
                            recipient: d.chef,
                            amount: d.amount,
                        }))
                },
            },
    {
        let idx = escrow_id as usize;
        if idx >= self.records.len() {
            return Err(Error::EscrowNotFound);
        }
        let details = self.records[idx];
        if caller != details.chef {
            return Err(Error::NotTheChef);
        }
        if details.status != EscrowStatus::InProgress {
            return Err(Error::EscrowFinished);
        }
        if now < details.release_time {
            return Err(Error::EscrowNotExpired);
        }
        Ok(TransferRequest { recipient: details.chef, amount: details.amount })
    }

    /// Releases the funds of an escrow to its chef once the lock period has
    /// elapsed. Only the chef may call this. `transferred` is the outcome of
    /// the value transfer the host performed for an approved release: when it
    /// is false the record is left untouched, so the call can be retried.
    pub fn release_funds(
        &mut self,
        caller: AccountId,
        escrow_id: u32,
        now: Timestamp,
        transferred: bool,
    ) -> (r: Result<(), Error>)
        ensures
            release_transition(*old(self), *final(self), caller, escrow_id, now, transferred, r),
            old(self).wf() ==> final(self).wf(),
    {
        let idx = escrow_id as usize;
        if idx >= self.records.len() {
            return Err(Error::EscrowNotFound);
        }
        let details = self.records[idx];

        if caller != details.chef {
            return Err(Error::NotTheChef);
        }

        if details.status != EscrowStatus::InProgress {
            return Err(Error::EscrowFinished);
        }

        if now < details.release_time {
            return Err(Error::EscrowNotExpired);
        }

        if !transferred {
            return Err(Error::TransferFailed);
        }

        self.records[idx].status = EscrowStatus::Completed;
        Ok(())
    }

    /// Returns the current status of the escrow.
    pub fn get_escrow_status(&self, escrow_id: u32) -> (r: Option<EscrowStatus>)
        ensures
            r == self.status_of(escrow_id),
    {
        let idx = escrow_id as usize;
        if idx < self.records.len() {
            Some(self.records[idx].status)
        } else {
            None
        }
    }

    /// Returns the release time of the escrow.
    pub fn get_escrow_release_time(&self, escrow_id: u32) -> (r: Option<Timestamp>)
        ensures
            r == self.release_time_of(escrow_id),
    {
        let idx = escrow_id as usize;
        if idx < self.records.len() {
            Some(self.records[idx].release_time)
        } else {
            None
        }
    }
}

/// What the host must transfer for an approved release.
#[derive(Clone, Copy, Debug, PartialEq, Eq, Structural)]
pub struct TransferRequest {
    /// The chef the funds go to.
    pub recipient: AccountId,
    /// The amount held by the escrow.
    pub amount: Balance,
}

/// A record after its funds were released: only the status changes.
pub open spec fn completed(d: EscrowDetails) -> EscrowDetails {
    EscrowDetails {
        customer: d.customer,
        chef: d.chef,
        amount: d.amount,
        release_time: d.release_time,
        status: EscrowStatus::Completed,
    }
}

/// How one release call relates the ledger before it to the ledger after it
/// and to its result: when any check fails the ledger is unchanged and the
/// first failing check names the error; when all checks pass, a failed
/// transfer leaves the ledger unchanged behind `TransferFailed`, and a
/// successful one completes the record and reports success.
pub open spec fn release_transition(
    pre: Escrow,
    post: Escrow,
    caller: AccountId,
    escrow_id: u32,
    now: Timestamp,
    transferred: bool,
    r: Result<(), Error>,
) -> bool {
    match pre.release_error(caller, escrow_id, now) {
        Some(e) => {
            &&& r == Err::<(), Error>(e)
            &&& post.records() == pre.records()
            &&& post.next_id() == pre.next_id()
        },
        None => if transferred {
            &&& r == Ok::<(), Error>(())
            &&& post.records() == pre.records().update(
                escrow_id as int,
                completed(pre.records()[escrow_id as int]),
            )
            &&& post.next_id() == pre.next_id()
        } else {
            &&& r == Err::<(), Error>(Error::TransferFailed)
            &&& post.records() == pre.records()
            &&& post.next_id() == pre.next_id()
        },
    }
}

/// How one creation call relates the ledger before it to the ledger after it
/// and to its result: a zero amount is rejected and changes nothing; any
/// positive amount appends a fresh `InProgress` record under the next
/// identifier and advances the counter by exactly one.
pub open spec fn create_transition(
    pre: Escrow,
    post: Escrow,
    customer: AccountId,
    chef: AccountId,
    amount: Balance,
    now: Timestamp,
    r: Result<u32, Error>,
) -> bool {
    if amount == 0 {
        &&& r == Err::<u32, Error>(Error::InsufficientFunds)
        &&& post.records() == pre.records()
        &&& post.next_id() == pre.next_id()
    } else {
        &&& r == Ok::<u32, Error>(pre.next_id())
        &&& post.next_id() == pre.next_id() + 1
        &&& post.records() == pre.records().push(new_record(customer, chef, amount, now))
    }
}

/// Law: identifiers are strictly increasing across successive successful
/// creations — each successful creation returns the current counter and the
/// next one returns exactly one more — and on a fresh ledger the first
/// identifier is 0.
pub proof fn lemma_create_ids_strictly_increase(
    s0: Escrow,
    s1: Escrow,
    s2: Escrow,
    customer0: AccountId,
    chef0: AccountId,
    amount0: Balance,
    now0: Timestamp,
    id0: u32,
    customer1: AccountId,
    chef1: AccountId,
    amount1: Balance,
    now1: Timestamp,
    id1: u32,
)
    requires
        amount0 > 0,
        amount1 > 0,
        create_transition(s0, s1, customer0, chef0, amount0, now0, Ok(id0)),
        create_transition(s1, s2, customer1, chef1, amount1, now1, Ok(id1)),
    ensures
        id0 == s0.next_id(),
        id1 == id0 + 1,
        s0.next_id() == 0 ==> id0 == 0,
{
}

/// Law: for an escrow created at time `t0`, a release attempt by the chef at
/// any time before `t0 + THIRTY_DAYS` fails with `EscrowNotExpired` and
/// leaves the record in progress.
pub proof fn lemma_release_before_expiry_fails(
    s0: Escrow,
    s1: Escrow,
    s2: Escrow,
    customer: AccountId,
    chef: AccountId,
    amount: Balance,
    t0: Timestamp,
    id: u32,
    now: Timestamp,
    transferred: bool,
    r: Result<(), Error>,
)
    requires
        s0.wf(),
        t0 + THIRTY_DAYS <= u64::MAX,
        amount > 0,
        create_transition(s0, s1, customer, chef, amount, t0, Ok(id)),
        now < t0 + THIRTY_DAYS,
        release_transition(s1, s2, chef, id, now, transferred, r),
    ensures
        r == Err::<(), Error>(Error::EscrowNotExpired),
        s2.records() == s1.records(),
        s2.status_of(id) == Some(EscrowStatus::InProgress),
{
}

/// Law: a release attempt by any identity other than the record's chef fails
/// with `NotTheChef`, regardless of timing, and changes nothing.
pub proof fn lemma_release_wrong_caller_fails(
    s: Escrow,
    s2: Escrow,
    caller: AccountId,
    escrow_id: u32,
    now: Timestamp,
    transferred: bool,
    r: Result<(), Error>,
    d: EscrowDetails,
)
    requires
        s.record_of(escrow_id) == Some(d),
        caller != d.chef,
        release_transition(s, s2, caller, escrow_id, now, transferred, r),
    ensures
        r == Err::<(), Error>(Error::NotTheChef),
        s2.records() == s.records(),
        s2.next_id() == s.next_id(),
{
}

/// Law: once a release of an escrow has succeeded, every further release
/// attempt by the same caller fails with `EscrowFinished` and changes
/// nothing.
pub proof fn lemma_second_release_fails(
    s0: Escrow,
    s1: Escrow,
    s2: Escrow,
    caller: AccountId,
    escrow_id: u32,
    now1: Timestamp,
    now2: Timestamp,
    transferred2: bool,
    r2: Result<(), Error>,
)
    requires
        release_transition(s0, s1, caller, escrow_id, now1, true, Ok(())),
        release_transition(s1, s2, caller, escrow_id, now2, transferred2, r2),
    ensures
        r2 == Err::<(), Error>(Error::EscrowFinished),
        s2.records() == s1.records(),
        s1.status_of(escrow_id) == Some(EscrowStatus::Completed),
{
}

/// Law: a release attempt by the chef at or after the release time of an
/// escrow created at `t0`, with a succeeding transfer, completes the escrow
/// and reports success.
pub proof fn lemma_release_after_expiry_succeeds(
    s0: Escrow,
    s1: Escrow,
    s2: Escrow,
    customer: AccountId,
    chef: AccountId,
    amount: Balance,
    t0: Timestamp,
    id: u32,
    now: Timestamp,
    r: Result<(), Error>,
)
    requires
        s0.wf(),
        t0 + THIRTY_DAYS <= u64::MAX,
        amount > 0,
        create_transition(s0, s1, customer, chef, amount, t0, Ok(id)),
        now >= t0 + THIRTY_DAYS,
        release_transition(s1, s2, chef, id, now, true, r),
    ensures
        r == Ok::<(), Error>(()),
        s2.status_of(id) == Some(EscrowStatus::Completed),
        s2.record_of(id) == Some(completed(new_record(customer, chef, amount, t0))),
{
}

/// Law: no operation deletes a record, and no operation changes an existing
/// record's customer, chef, amount or release time; a creation only appends,
/// and a release only moves one record's status out of `InProgress`.
pub proof fn lemma_records_only_grow(
    pre: Escrow,
    post: Escrow,
    customer: AccountId,
    chef: AccountId,
    amount: Balance,
    caller: AccountId,
    escrow_id: u32,
    now: Timestamp,
    transferred: bool,
    rc: Result<u32, Error>,
    rr: Result<(), Error>,
)
    requires
        create_transition(pre, post, customer, chef, amount, now, rc)
            || release_transition(pre, post, caller, escrow_id, now, transferred, rr),
    ensures
        post.records().len() >= pre.records().len(),
        forall|i: int| 0 <= i < pre.records().len() ==> {
            &&& (#[trigger] post.records()[i]).customer == pre.records()[i].customer
            &&& post.records()[i].chef == pre.records()[i].chef
            &&& post.records()[i].amount == pre.records()[i].amount
            &&& post.records()[i].release_time == pre.records()[i].release_time
        },
        forall|i: int| 0 <= i < pre.records().len()
            && (#[trigger] pre.records()[i]).status != EscrowStatus::InProgress
            ==> post.records()[i].status == pre.records()[i].status,
{
}

} // verus!
