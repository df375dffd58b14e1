//! The audit-report contract: an audit task is created for a contract name,
//! then finalised once with a risk level, a confidence in 0..=100, a
//! vulnerability type and the report bytes, whose keccak-256 digest is kept
//! for integrity checks.
use vstd::prelude::*;
use crate::agent_memory::{address_matches, result_value};
use crate::host::CallContext;
use crate::primitives::{Address, B256, U256, keccak256, keccak256_digest, zero_word};

verus! {

/// Why a call to the audit-report contract was refused.
#[derive(Clone, Copy, Debug, PartialEq, Eq, Structural)]
pub enum AuditReportError {
    TaskNotFound,
    AlreadyFinalized,
    InvalidConfidence,
}

impl AuditReportError {
    pub open spec fn message_spec(&self) -> Seq<char> {
        match self {
            AuditReportError::TaskNotFound => "task not found"@,
            AuditReportError::AlreadyFinalized => "already finalized"@,
            AuditReportError::InvalidConfidence => "confidence must be 0-100"@,
        }
    }

    /// The revert message of the error.
    pub fn message(&self) -> (s: &'static str)
        ensures
            s@ == self.message_spec(),
    {
        match self {
            AuditReportError::TaskNotFound => "task not found",
            AuditReportError::AlreadyFinalized => "already finalized",
            AuditReportError::InvalidConfidence => "confidence must be 0-100",
        }
    }
}

/// A log entry emitted by the contract.
#[derive(Debug)]
pub enum AuditReportEvent {
    AuditCreated { task_id: U256, requester: Address, contract_name: String, timestamp: U256 },
    AuditFinalized {
        task_id: U256,
        risk_level: u8,
        confidence: u64,
        report_hash: B256,
        timestamp: U256,
    },
}

/// The mathematical form of a log entry.
pub enum AuditReportEventView {
    AuditCreated { task_id: nat, requester: Address, contract_name: Seq<char>, timestamp: nat },
    AuditFinalized {
        task_id: nat,
        risk_level: u8,
        confidence: u64,
        report_hash: Seq<u8>,
        timestamp: nat,
    },
}

impl View for AuditReportEvent {
    type V = AuditReportEventView;

    open spec fn view(&self) -> AuditReportEventView {
        match self {
            AuditReportEvent::AuditCreated { task_id, requester, contract_name, timestamp } => {
                AuditReportEventView::AuditCreated {
                    task_id: task_id@,
                    requester: *requester,
                    contract_name: contract_name@,
                    timestamp: timestamp@,
                }
            },
            AuditReportEvent::AuditFinalized {
                task_id,
                risk_level,
                confidence,
                report_hash,
                timestamp,
            } => {
                AuditReportEventView::AuditFinalized {
                    task_id: task_id@,
                    risk_level: *risk_level,
                    confidence: *confidence,
                    report_hash: report_hash.bytes@,
                    timestamp: timestamp@,
                }
            },
        }
    }
}

/// The stored fields of one audit task.
pub struct AuditTask {
    pub requester: Address,
    pub contract_name: String,
    pub risk_level: u8,
    pub confidence: u64,
    pub vuln_type: String,
    pub report_hash: B256,
    pub report_data: Vec<u8>,
    pub created_at: U256,
    pub completed_at: U256,
    pub finalized: bool,
}

pub struct AuditTaskView {
    pub requester: Address,
    pub contract_name: Seq<char>,
    pub risk_level: u8,
    pub confidence: u64,
    pub vuln_type: Seq<char>,
    pub report_hash: Seq<u8>,
    pub report_data: Seq<u8>,
    pub created_at: nat,
    pub completed_at: nat,
    pub finalized: bool,
}

impl View for AuditTask {
    type V = AuditTaskView;

    open spec fn view(&self) -> AuditTaskView {
        AuditTaskView {
            requester: self.requester,
            contract_name: self.contract_name@,
            risk_level: self.risk_level,
            confidence: self.confidence,
            vuln_type: self.vuln_type@,
            report_hash: self.report_hash.bytes@,
            report_data: self.report_data@,
            created_at: self.created_at@,
            completed_at: self.completed_at@,
            finalized: self.finalized,
        }
    }
}

/// The contract's storage as mathematics: task `i` is `tasks[i]`, and
/// `events` is the log emitted so far.
pub struct AuditReportState {
    pub tasks: Seq<AuditTaskView>,
    pub events: Seq<AuditReportEventView>,
}

impl AuditReportState {
    /// Every stored confidence lies in 0..=100, and a task not yet finalised
    /// holds no report: zero risk and confidence, no vulnerability type, the
    /// zero digest, empty report bytes and no completion time.
    pub open spec fn wf(self) -> bool {
        forall|i: int|
            0 <= i < self.tasks.len() ==> {
                let t = #[trigger] self.tasks[i];
                &&& t.confidence <= 100
                &&& !t.finalized ==> {
                    &&& t.risk_level == 0
                    &&& t.confidence == 0
                    &&& t.vuln_type == Seq::<char>::empty()
                    &&& t.report_hash == zero_word()
                    &&& t.report_data == Seq::<u8>::empty()
                    &&& t.completed_at == 0
                }
            }
    }

    pub open spec fn task_exists(self, task_id: nat) -> bool {
        task_id < self.tasks.len()
    }

    pub open spec fn record_count(self) -> nat {
        self.tasks.len()
    }

    /// Creation time of a task (zero for a task never created).
    pub open spec fn created_at(self, task_id: nat) -> nat {
        if self.task_exists(task_id) {
            self.tasks[task_id as int].created_at
        } else {
            0
        }
    }

    /// Completion time of a task (zero while it is not finalised).
    pub open spec fn completed_at(self, task_id: nat) -> nat {
        if self.task_exists(task_id) {
            self.tasks[task_id as int].completed_at
        } else {
            0
        }
    }

    pub open spec fn is_finalized(self, task_id: nat) -> bool {
        self.task_exists(task_id) && self.tasks[task_id as int].finalized
    }

    pub open spec fn requester(self, task_id: nat) -> Option<Address> {
        if self.task_exists(task_id) {
            Some(self.tasks[task_id as int].requester)
        } else {
            None
        }
    }

    pub open spec fn risk_level(self, task_id: nat) -> u8 {
        if self.task_exists(task_id) {
            self.tasks[task_id as int].risk_level
        } else {
            0
        }
    }

    pub open spec fn confidence(self, task_id: nat) -> u64 {
        if self.task_exists(task_id) {
            self.tasks[task_id as int].confidence
        } else {
            0
        }
    }

    pub open spec fn report_hash(self, task_id: nat) -> Seq<u8> {
        if self.task_exists(task_id) {
            self.tasks[task_id as int].report_hash
        } else {
            zero_word()
        }
    }

    /// `create_audit` called by `sender` at block time `now`: the next task id.
    pub open spec fn create_audit(self, sender: Address, now: u64, contract_name: Seq<char>) -> (
        AuditReportState,
        nat,
    ) {
        let id = self.tasks.len();
        (
            AuditReportState {
                tasks: self.tasks.push(
                    AuditTaskView {
                        requester: sender,
                        contract_name: contract_name,
                        risk_level: 0,
                        confidence: 0,
                        vuln_type: Seq::empty(),
                        report_hash: zero_word(),
                        report_data: Seq::empty(),
                        created_at: now as nat,
                        completed_at: 0,
                        finalized: false,
                    },
                ),
                events: self.events.push(
                    AuditReportEventView::AuditCreated {
                        task_id: id,
                        requester: sender,
                        contract_name: contract_name,
                        timestamp: now as nat,
                    },
                ),
            },
            id,
        )
    }

    /// `finalize_audit` at block time `now`.
    pub open spec fn finalize_audit(
        self,
        now: u64,
        task_id: nat,
        risk_level: u8,
        confidence: u64,
        vuln_type: Seq<char>,
        report: Seq<u8>,
    ) -> (AuditReportState, Result<(), AuditReportError>) {
        if !self.task_exists(task_id) {
            (self, Err(AuditReportError::TaskNotFound))
        } else if self.is_finalized(task_id) {
            (self, Err(AuditReportError::AlreadyFinalized))
        } else if confidence > 100 {
            (self, Err(AuditReportError::InvalidConfidence))
        } else {
            let hash = keccak256_digest(report);
            (
                AuditReportState {
                    tasks: self.tasks.update(
                        task_id as int,
                        AuditTaskView {
                            risk_level: risk_level,
                            confidence: confidence,
                            vuln_type: vuln_type,
                            report_hash: hash,
                            report_data: report,
                            completed_at: now as nat,
                            finalized: true,
                            ..self.tasks[task_id as int]
                        },
                    ),
                    events: self.events.push(
                        AuditReportEventView::AuditFinalized {
                            task_id: task_id,
                            risk_level: risk_level,
                            confidence: confidence,
                            report_hash: hash,
                            timestamp: now as nat,
                        },
                    ),
                },
                Ok(()),
            )
        }
    }

    /// `get_report`: the stored report bytes of a created task.
    pub open spec fn report(self, task_id: nat) -> Result<Seq<u8>, AuditReportError> {
        if !self.task_exists(task_id) {
            Err(AuditReportError::TaskNotFound)
        } else {
            Ok(self.tasks[task_id as int].report_data)
        }
    }

    /// `verify_report`: the digest of `report` is the stored digest.
    pub open spec fn verify_report(self, task_id: nat, report: Seq<u8>) -> bool {
        keccak256_digest(report) == self.report_hash(task_id)
    }
}

/// The audit-report contract, with the call context that the chain supplies.
pub struct RaxcAuditReport {
    vm: CallContext,
    tasks: Vec<AuditTask>,
    events: Vec<AuditReportEvent>,
}

impl View for RaxcAuditReport {
    type V = AuditReportState;

    closed spec fn view(&self) -> AuditReportState {
        AuditReportState {
            tasks: self.tasks@.map_values(|t: AuditTask| t@),
            events: self.events@.map_values(|e: AuditReportEvent| e@),
        }
    }
}

impl RaxcAuditReport {
    /// The call context in force.
    pub closed spec fn env(&self) -> CallContext {
        self.vm
    }

    /// A contract with empty storage.
    pub fn new() -> (r: RaxcAuditReport)
        ensures
            r@.tasks.len() == 0,
            r@.events.len() == 0,
            r@.wf(),
            r.env().sender.is_zero_spec(),
            r.env().block_timestamp == 0,
            r.env().value@ == 0,
    {
        let r = RaxcAuditReport { vm: CallContext::new(), tasks: Vec::new(), events: Vec::new() };
        assert(r@.tasks =~= Seq::<AuditTaskView>::empty());
        assert(r@.events =~= Seq::<AuditReportEventView>::empty());
        r
    }

    /// Sets the caller of the next calls.
    pub fn set_sender(&mut self, sender: Address)
        ensures
            final(self)@ == old(self)@,
            final(self).env() == (CallContext { sender: sender, ..old(self).env() }),
    {
        self.vm.sender = sender;
    }

    /// Sets the block time of the next calls.
    pub fn set_block_timestamp(&mut self, timestamp: u64)
        ensures
            final(self)@ == old(self)@,
            final(self).env() == (CallContext { block_timestamp: timestamp, ..old(self).env() }),
    {
        self.vm.block_timestamp = timestamp;
    }

    /// The log emitted so far.
    pub fn events(&self) -> (r: &Vec<AuditReportEvent>)
        ensures
            r@.map_values(|e: AuditReportEvent| e@) == self@.events,
    {
        &self.events
    }

    /// Looks a task up by id.
    fn task_index(&self, task_id: U256) -> (r: Option<usize>)
        ensures
            match r {
                Some(t) => t == task_id@ && self@.task_exists(task_id@),
                None => !self@.task_exists(task_id@),
            },
            r matches Some(t) ==> t < self.tasks@.len() && self@.tasks[t as int]
                == self.tasks@[t as int]@,
    {
        task_id.to_index(self.tasks.len())
    }

    /// Creates an audit task for `contract_name`; returns its task id.
    pub fn create_audit(&mut self, contract_name: String) -> (r: Result<U256, AuditReportError>)
        requires
            old(self)@.wf(),
        ensures
            final(self)@.wf(),
            final(self).env() == old(self).env(),
            final(self)@ == old(self)@.create_audit(
                old(self).env().sender,
                old(self).env().block_timestamp,
                contract_name@,
            ).0,
            result_value(r) == Ok::<nat, AuditReportError>(
                old(self)@.create_audit(
                    old(self).env().sender,
                    old(self).env().block_timestamp,
                    contract_name@,
                ).1,
            ),
    {
        let task_id = U256::from_usize(self.tasks.len());
        let caller = self.vm.sender;
        let now = U256::from_u64(self.vm.block_timestamp);
        let name_for_log = contract_name.clone();
        self.tasks.push(
            AuditTask {
                requester: caller,
                contract_name,
                risk_level: 0,
                confidence: 0,
                vuln_type: String::new(),
                report_hash: B256::zero(),
                report_data: Vec::new(),
                created_at: now,
                completed_at: U256::zero(),
                finalized: false,
            },
        );
        self.events.push(
            AuditReportEvent::AuditCreated {
                task_id,
                requester: caller,
                contract_name: name_for_log,
                timestamp: now,
            },
        );
        proof {
            let post = old(self)@.create_audit(
                old(self).vm.sender,
                old(self).vm.block_timestamp,
                contract_name@,
            ).0;
            let last = self.tasks@.len() - 1;
            assert(self.tasks@[last]@.report_data =~= Seq::<u8>::empty());
            assert(self.tasks@[last]@.vuln_type =~= Seq::<char>::empty());
            assert(self@.tasks =~= post.tasks);
            assert(self@.events =~= post.events);
        }
        Ok(task_id)
    }

    /// Finalises task `task_id` with its risk level, confidence (0..=100),
    /// vulnerability type and report bytes.
    pub fn finalize_audit(
        &mut self,
        task_id: U256,
        risk_level: u8,
        confidence: u64,
        vuln_type: String,
        report_markdown: Vec<u8>,
    ) -> (r: Result<(), AuditReportError>)
        requires
            old(self)@.wf(),
        ensures
            final(self)@.wf(),
            final(self).env() == old(self).env(),
            final(self)@ == old(self)@.finalize_audit(
                old(self).env().block_timestamp,
                task_id@,
                risk_level,
                confidence,
                vuln_type@,
                report_markdown@,
            ).0,
            r == old(self)@.finalize_audit(
                old(self).env().block_timestamp,
                task_id@,
                risk_level,
                confidence,
                vuln_type@,
                report_markdown@,
            ).1,
    {
        let t = match self.task_index(task_id) {
            Some(t) => t,
            None => return Err(AuditReportError::TaskNotFound),
        };
        if self.tasks[t].finalized {
            return Err(AuditReportError::AlreadyFinalized);
        }
        if confidence > 100 {
            return Err(AuditReportError::InvalidConfidence);
        }
        let hash = keccak256(report_markdown.as_slice());
        let now = U256::from_u64(self.vm.block_timestamp);
        let ghost report_view = report_markdown@;
        let ghost vuln_view = vuln_type@;
        self.tasks[t].risk_level = risk_level;
        self.tasks[t].confidence = confidence;
        self.tasks[t].vuln_type = vuln_type;
        self.tasks[t].report_hash = hash;
        self.tasks[t].report_data = report_markdown;
        self.tasks[t].completed_at = now;
        self.tasks[t].finalized = true;
        self.events.push(
            AuditReportEvent::AuditFinalized {
                task_id,
                risk_level,
                confidence,
                report_hash: hash,
                timestamp: now,
            },
        );
        proof {
            let post = old(self)@.finalize_audit(
                old(self).vm.block_timestamp,
                task_id@,
                risk_level,
                confidence,
                vuln_view,
                report_view,
            ).0;
            assert(self@.tasks =~= post.tasks);
            assert(self@.events =~= post.events);
        }
        Ok(())
    }

    /// The report bytes of task `task_id`.
    pub fn get_report(&self, task_id: U256) -> (r: Result<Vec<u8>, AuditReportError>)
        ensures
            match r {
                Ok(v) => self@.report(task_id@) == Ok::<Seq<u8>, AuditReportError>(v@),
                Err(e) => self@.report(task_id@) == Err::<Seq<u8>, AuditReportError>(e),
            },
    {
        let t = match self.task_index(task_id) {
            Some(t) => t,
            None => return Err(AuditReportError::TaskNotFound),
        };
        Ok(vstd::slice::slice_to_vec(self.tasks[t].report_data.as_slice()))
    }

    /// Whether `report_markdown` hashes to the stored digest of task `task_id`.
    pub fn verify_report(&self, task_id: U256, report_markdown: Vec<u8>) -> (r: bool)
        ensures
            r == self@.verify_report(task_id@, report_markdown@),
    {
        let stored = self.get_report_hash(task_id);
        let computed = keccak256(report_markdown.as_slice());
        proof {
            crate::primitives::lemma_b256_eq_bytes(stored, computed);
        }
        stored == computed
    }

    /// Number of tasks created.
    pub fn record_count(&self) -> (r: U256)
        ensures
            r@ == self@.record_count(),
    {
        U256::from_usize(self.tasks.len())
    }

    /// The caller that created task `task_id` (the zero address for a task never created).
    pub fn get_requester(&self, task_id: U256) -> (r: Address)
        ensures
            address_matches(r, self@.requester(task_id@)),
    {
        match self.task_index(task_id) {
            Some(t) => self.tasks[t].requester,
            None => Address::zero(),
        }
    }

    pub fn get_risk_level(&self, task_id: U256) -> (r: u8)
        ensures
            r == self@.risk_level(task_id@),
    {
        match self.task_index(task_id) {
            Some(t) => self.tasks[t].risk_level,
            None => 0,
        }
    }

    pub fn get_confidence(&self, task_id: U256) -> (r: u64)
        ensures
            r == self@.confidence(task_id@),
    {
        match self.task_index(task_id) {
            Some(t) => self.tasks[t].confidence,
            None => 0,
        }
    }

    pub fn get_report_hash(&self, task_id: U256) -> (r: B256)
        ensures
            r.bytes@ == self@.report_hash(task_id@),
    {
        match self.task_index(task_id) {
            Some(t) => self.tasks[t].report_hash,
            None => B256::zero(),
        }
    }

    pub fn is_finalized(&self, task_id: U256) -> (r: bool)
        ensures
            r == self@.is_finalized(task_id@),
    {
        match self.task_index(task_id) {
            Some(t) => self.tasks[t].finalized,
            None => false,
        }
    }

    pub fn created_at(&self, task_id: U256) -> (r: U256)
        ensures
            r@ == self@.created_at(task_id@),
    {
        match self.task_index(task_id) {
            Some(t) => self.tasks[t].created_at,
            None => U256::zero(),
        }
    }

    pub fn completed_at(&self, task_id: U256) -> (r: U256)
        ensures
            r@ == self@.completed_at(task_id@),
    {
        match self.task_index(task_id) {
            Some(t) => self.tasks[t].completed_at,
            None => U256::zero(),
        }
    }
}

/// Creating an audit hands out the next task id (the record count before the
/// call), grows the record count by one, records the caller and the block
/// time, and leaves the new task unfinalised. The one event logged carries
/// that same task id, the caller, the contract name and the block time.
pub proof fn lemma_create_issues_next_id(
    s: AuditReportState,
    sender: Address,
    now: u64,
    contract_name: Seq<char>,
)
    requires
        s.wf(),
    ensures
        ({
            let (s2, id) = s.create_audit(sender, now, contract_name);
            &&& s2.wf()
            &&& id == s.record_count()
            &&& s2.record_count() == s.record_count() + 1
            &&& s2.requester(id) == Some(sender)
            &&& s2.created_at(id) == now
            &&& !s2.is_finalized(id)
            &&& s2.report_hash(id) == zero_word()
            &&& s2.events == s.events.push(
                AuditReportEventView::AuditCreated {
                    task_id: s.record_count(),
                    requester: sender,
                    contract_name: contract_name,
                    timestamp: now as nat,
                },
            )
        }),
{
}

/// A task is finalised at most once: after a finalisation, at any block time,
/// every further finalisation of that task is refused with `AlreadyFinalized`
/// and changes nothing.
pub proof fn lemma_finalize_once(
    s: AuditReportState,
    now: u64,
    task_id: nat,
    risk_level: u8,
    confidence: u64,
    vuln_type: Seq<char>,
    report: Seq<u8>,
    now2: u64,
    risk_level2: u8,
    confidence2: u64,
    vuln_type2: Seq<char>,
    report2: Seq<u8>,
)
    requires
        s.finalize_audit(now, task_id, risk_level, confidence, vuln_type, report).1 is Ok,
    ensures
        ({
            let s2 = s.finalize_audit(now, task_id, risk_level, confidence, vuln_type, report).0;
            &&& s2.is_finalized(task_id)
            &&& s2.finalize_audit(now2, task_id, risk_level2, confidence2, vuln_type2, report2) == (
            s2, Err::<(), AuditReportError>(AuditReportError::AlreadyFinalized))
        }),
{
}

/// What a finalisation stored can be read back: the report bytes, their
/// keccak-256 digest, the risk level, the confidence and the completion time;
/// `verify_report` accepts exactly the byte strings with the same digest.
/// The one event logged names the task, the risk level, the confidence, the
/// digest and the block time.
pub proof fn lemma_finalize_then_read(
    s: AuditReportState,
    now: u64,
    task_id: nat,
    risk_level: u8,
    confidence: u64,
    vuln_type: Seq<char>,
    report: Seq<u8>,
)
    requires
        s.wf(),
        s.finalize_audit(now, task_id, risk_level, confidence, vuln_type, report).1 is Ok,
    ensures
        ({
            let s2 = s.finalize_audit(now, task_id, risk_level, confidence, vuln_type, report).0;
            &&& s2.wf()
            &&& s2.report(task_id) == Ok::<Seq<u8>, AuditReportError>(report)
            &&& s2.report_hash(task_id) == keccak256_digest(report)
            &&& s2.verify_report(task_id, report)
            &&& forall|other: Seq<u8>|
                s2.verify_report(task_id, other) == (keccak256_digest(other) == keccak256_digest(
                    report,
                ))
            &&& s2.risk_level(task_id) == risk_level
            &&& s2.confidence(task_id) == confidence
            &&& s2.completed_at(task_id) == now
            &&& s2.is_finalized(task_id)
            &&& s2.requester(task_id) == s.requester(task_id)
            &&& s2.created_at(task_id) == s.created_at(task_id)
            &&& s2.record_count() == s.record_count()
            &&& s2.events == s.events.push(
                AuditReportEventView::AuditFinalized {
                    task_id: task_id,
                    risk_level: risk_level,
                    confidence: confidence,
                    report_hash: keccak256_digest(report),
                    timestamp: now as nat,
                },
            )
        }),
{
}

/// Finalisation succeeds exactly on a created, unfinalised task with a
/// confidence of at most 100; a refused call changes nothing, and a
/// successful one touches no other task.
pub proof fn lemma_finalize_refusals(
    s: AuditReportState,
    now: u64,
    task_id: nat,
    risk_level: u8,
    confidence: u64,
    vuln_type: Seq<char>,
    report: Seq<u8>,
)
    requires
        s.wf(),
    ensures
        ({
            let (s2, r) = s.finalize_audit(now, task_id, risk_level, confidence, vuln_type, report);
            &&& s2.wf()
            &&& r is Ok <==> (s.task_exists(task_id) && !s.is_finalized(task_id) && confidence
                <= 100)
            &&& r == Err::<(), AuditReportError>(AuditReportError::TaskNotFound) <==> !s.task_exists(
                task_id,
            )
            &&& r == Err::<(), AuditReportError>(AuditReportError::InvalidConfidence) <==> (
            s.task_exists(task_id) && !s.is_finalized(task_id) && confidence > 100)
            &&& r is Err ==> s2 == s
            &&& forall|t: nat|
                #![trigger s2.tasks[t as int]]
                t != task_id && t < s.tasks.len() ==> s2.tasks[t as int] == s.tasks[t as int]
        }),
{
}

/// The log only grows: creating an audit adds exactly one event, a
/// successful finalisation adds one, a refused one adds none, and the events
/// already emitted are kept.
pub proof fn lemma_log_is_append_only(
    s: AuditReportState,
    sender: Address,
    now: u64,
    contract_name: Seq<char>,
    task_id: nat,
    risk_level: u8,
    confidence: u64,
    vuln_type: Seq<char>,
    report: Seq<u8>,
)
    ensures
        ({
            let (c, _) = s.create_audit(sender, now, contract_name);
            let (f, rf) = s.finalize_audit(now, task_id, risk_level, confidence, vuln_type, report);
            &&& c.events.len() == s.events.len() + 1
            &&& c.events.subrange(0, s.events.len() as int) == s.events
            &&& f.events.len() == s.events.len() + if rf is Ok { 1int } else { 0int }
            &&& f.events.subrange(0, s.events.len() as int) == s.events
        }),
{
    let (c, _) = s.create_audit(sender, now, contract_name);
    let (f, rf) = s.finalize_audit(now, task_id, risk_level, confidence, vuln_type, report);
    assert(c.events.subrange(0, s.events.len() as int) =~= s.events);
    assert(f.events.subrange(0, s.events.len() as int) =~= s.events);
}

/// A call to the audit-report contract, with the caller and block time that
/// the chain supplies.
pub enum AuditReportCall {
    Create { sender: Address, now: u64, contract_name: Seq<char> },
    Finalize {
        now: u64,
        task_id: nat,
        risk_level: u8,
        confidence: u64,
        vuln_type: Seq<char>,
        report: Seq<u8>,
    },
}

impl AuditReportState {
    /// The state after one call.
    pub open spec fn apply(self, call: AuditReportCall) -> AuditReportState {
        match call {
            AuditReportCall::Create { sender, now, contract_name } => self.create_audit(
                sender,
                now,
                contract_name,
            ).0,
            AuditReportCall::Finalize { now, task_id, risk_level, confidence, vuln_type, report } =>
            self.finalize_audit(now, task_id, risk_level, confidence, vuln_type, report).0,
        }
    }

    /// The state after a sequence of calls, in order.
    pub open spec fn run(self, calls: Seq<AuditReportCall>) -> AuditReportState
        decreases calls.len(),
    {
        if calls.len() == 0 {
            self
        } else {
            self.run(calls.drop_last()).apply(calls.last())
        }
    }
}

/// Over any sequence of calls: the state stays well formed, tasks are never
/// removed, their requester and creation time stay put, and a finalised task
/// stays finalised with the report, digest, risk level, confidence and
/// completion time that its finalisation stored. A created task that is not
/// finalised reads an empty report.
pub proof fn lemma_audit_trail_is_immutable(s: AuditReportState, calls: Seq<AuditReportCall>)
    requires
        s.wf(),
    ensures
        ({
            let s2 = s.run(calls);
            &&& s2.wf()
            &&& s2.record_count() >= s.record_count()
            &&& forall|t: nat|
                #![trigger s2.tasks[t as int]]
                s.task_exists(t) ==> s2.tasks[t as int].requester == s.tasks[t as int].requester
                    && s2.tasks[t as int].contract_name == s.tasks[t as int].contract_name
                    && s2.tasks[t as int].created_at == s.tasks[t as int].created_at
            &&& forall|t: nat|
                #![trigger s2.is_finalized(t)]
                s.is_finalized(t) ==> s2.is_finalized(t) && s2.tasks[t as int] == s.tasks[t as int]
            &&& forall|t: nat|
                #![trigger s2.report(t)]
                s2.task_exists(t) && !s2.is_finalized(t) ==> s2.report(t) == Ok::<
                    Seq<u8>,
                    AuditReportError,
                >(Seq::empty())
        }),
    decreases calls.len(),
{
    if calls.len() == 0 {
        assert forall|t: nat| #![trigger s.report(t)] s.task_exists(t) && !s.is_finalized(t) implies s.report(t) == Ok::<Seq<u8>, AuditReportError>(Seq::empty()) by {
            assert(s.tasks[t as int].report_data == Seq::<u8>::empty());
        }
    } else {
        lemma_audit_trail_is_immutable(s, calls.drop_last());
        let mid = s.run(calls.drop_last());
        let s2 = s.run(calls);
        assert(s2 == mid.apply(calls.last()));
        match calls.last() {
            AuditReportCall::Create { sender, now, contract_name } => {
                lemma_create_issues_next_id(mid, sender, now, contract_name);
                assert(s2 == mid.create_audit(sender, now, contract_name).0);
                assert forall|t: nat| #![trigger s2.tasks[t as int]] mid.task_exists(t) implies s2.tasks[t as int] == mid.tasks[t as int] by {}
            },
            AuditReportCall::Finalize { now, task_id, risk_level, confidence, vuln_type, report } => {
                lemma_finalize_refusals(mid, now, task_id, risk_level, confidence, vuln_type, report);
                assert(s2 == mid.finalize_audit(now, task_id, risk_level, confidence, vuln_type, report).0);
                assert forall|t: nat| #![trigger s2.tasks[t as int]] mid.task_exists(t) && t != task_id implies s2.tasks[t as int] == mid.tasks[t as int] by {}
            },
        }
        assert(s2.wf());
        assert forall|t: nat| #![trigger s2.tasks[t as int]] s.task_exists(t) implies s2.tasks[t as int].requester == s.tasks[t as int].requester
                    && s2.tasks[t as int].contract_name == s.tasks[t as int].contract_name
                    && s2.tasks[t as int].created_at == s.tasks[t as int].created_at by {
            assert(mid.tasks[t as int].requester == s.tasks[t as int].requester);
        }
        assert forall|t: nat| #![trigger s2.is_finalized(t)] s.is_finalized(t) implies s2.is_finalized(t) && s2.tasks[t as int] == s.tasks[t as int] by {
            assert(mid.is_finalized(t));
        }
        assert forall|t: nat| #![trigger s2.report(t)] s2.task_exists(t) && !s2.is_finalized(t) implies s2.report(t) == Ok::<Seq<u8>, AuditReportError>(Seq::empty()) by {
            assert(s2.tasks[t as int].report_data == Seq::<u8>::empty());
        }
    }
}

} // verus!
