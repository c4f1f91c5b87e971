//! Recovery of assignments whose preparation was abandoned.
use super::{delivery, projection};
use super::{ServiceState, WorkerControlService};
use crate::agenda;
use crate::proto::v1::{ServerToWorker, ServerToWorkerView};
use crate::repository;
use crate::repository::assignments;
use crate::storage::{
    AssignmentRecord, AssignmentRecordView, ExecutionKind, RepositoryError, RepositoryErrorView,
};
use crate::text;
use vstd::prelude::*;
use vstd::string::*;

verus! {

/// What one try at an abandoned preparation came to: it failed and was put off, something else
/// had moved the attempt on, the attempt is ready but its frame could not be made, its worker is
/// away, or its frame is to be sent.
#[derive(Debug, PartialEq, Eq)]
pub enum ReconcileStep {
    Failed(String),
    Unchanged,
    Undelivered(String),
    Pending,
    Send(ServerToWorker),
}

pub ghost enum ReconcileStepView {
    Failed(Seq<char>),
    Unchanged,
    Undelivered(Seq<char>),
    Pending,
    Send(ServerToWorkerView),
}

impl View for ReconcileStep {
    type V = ReconcileStepView;

    open spec fn view(&self) -> ReconcileStepView {
        match *self {
            ReconcileStep::Failed(d) => ReconcileStepView::Failed(d@),
            ReconcileStep::Unchanged => ReconcileStepView::Unchanged,
            ReconcileStep::Undelivered(d) => ReconcileStepView::Undelivered(d@),
            ReconcileStep::Pending => ReconcileStepView::Pending,
            ReconcileStep::Send(frame) => ReconcileStepView::Send(frame@),
        }
    }
}

pub open spec fn step_seen(r: Result<ReconcileStep, RepositoryError>) -> Result<
    ReconcileStepView,
    RepositoryErrorView,
> {
    match r {
        Ok(step) => Ok(step@),
        Err(e) => Err(e@),
    }
}

/// Puts a preparation off, for the given reason.
pub open spec fn put_off(
    s: ServiceState,
    record: AssignmentRecordView,
    detail: Seq<char>,
    now_ms: u64,
) -> (ServiceState, Result<ReconcileStepView, RepositoryErrorView>) {
    let (stored, r) = assignments::defer(
        s.repository,
        record.contract.attempt_id,
        record.worker_id,
        now_ms,
    );
    (
        ServiceState { repository: stored, ..s },
        match r {
            Ok(_) => Ok(ReconcileStepView::Failed(detail)),
            Err(e) => Err(e),
        },
    )
}

/// One try at an abandoned preparation. `input` is why the worker cannot read its input bundle,
/// where that is so.
pub open spec fn reconcile(
    s: ServiceState,
    record: AssignmentRecordView,
    input: Option<Seq<char>>,
    now_ms: u64,
) -> (ServiceState, Result<ReconcileStepView, RepositoryErrorView>) {
    if record.contract.execution.executor_kind == ExecutionKind::CudaFixture && input is Some {
        put_off(s, record, input->0, now_ms)
    } else {
        let (started, begun) = projection::run_started(s, record.contract, now_ms);
        match begun {
            Err(e) => put_off(started, record, e.text(), now_ms),
            Ok(_) => {
                let (stored, ready) = assignments::release(
                    started.repository,
                    record.contract.attempt_id,
                    record.worker_id,
                    now_ms,
                );
                let t = ServiceState { repository: stored, ..started };
                match ready {
                    Err(e) => (t, Err(e)),
                    Ok(became) => if !became {
                        (t, Ok(ReconcileStepView::Unchanged))
                    } else {
                        let (u, made) = delivery::assignment_frame(
                            t,
                            record.worker_id,
                            record.contract.attempt_id,
                            now_ms,
                        );
                        (
                            u,
                            match made {
                                Ok(Some(frame)) => Ok(ReconcileStepView::Send(frame)),
                                Ok(None) => Ok(ReconcileStepView::Pending),
                                Err(e) => Ok(ReconcileStepView::Undelivered(e.text())),
                            },
                        )
                    },
                }
            },
        }
    }
}

impl WorkerControlService {
    fn put_off(&mut self, record: &AssignmentRecord, detail: String, now_ms: u64) -> (r: Result<
        ReconcileStep,
        RepositoryError,
    >)
        ensures
            (final(self)@, step_seen(r)) == put_off(old(self)@, record@, detail@, now_ms),
    {
        self.repository.defer_assignment_preparation(
            record.contract.attempt_id.as_str(),
            record.worker_id.as_str(),
            now_ms,
        )?;
        Ok(ReconcileStep::Failed(detail))
    }

    /// Tries to complete one abandoned preparation.
    pub fn reconcile_preparing_assignment(
        &mut self,
        record: &AssignmentRecord,
        input: Option<String>,
        now_ms: u64,
    ) -> (r: Result<ReconcileStep, RepositoryError>)
        ensures
            (final(self)@, step_seen(r)) == reconcile(
                old(self)@,
                record@,
                text::optional(input),
                now_ms,
            ),
    {
        if record.contract.execution.executor_kind == ExecutionKind::CudaFixture {
            if let Some(detail) = input {
                return self.put_off(record, detail, now_ms);
            }
        }
        if let Err(error) = self.record_run_started(&record.contract, now_ms) {
            return self.put_off(record, error.message(), now_ms);
        }
        let became = self.repository.mark_assignment_dispatchable(
            record.contract.attempt_id.as_str(),
            record.worker_id.as_str(),
            now_ms,
        )?;
        if !became {
            return Ok(ReconcileStep::Unchanged);
        }
        match self.prepare_assignment(
            record.worker_id.as_str(),
            record.contract.attempt_id.as_str(),
            now_ms,
        ) {
            Ok(Some(frame)) => Ok(ReconcileStep::Send(frame)),
            Ok(None) => Ok(ReconcileStep::Pending),
            Err(error) => Ok(ReconcileStep::Undelivered(error.message())),
        }
    }
}

/// An attempt that reconciliation could not bring on, and why.
#[derive(Debug, PartialEq, Eq)]
pub struct PreparationReconciliationFailure {
    pub attempt_id: String,
    pub detail: String,
}

pub ghost struct FailureView {
    pub attempt_id: Seq<char>,
    pub detail: Seq<char>,
}

impl View for PreparationReconciliationFailure {
    type V = FailureView;

    open spec fn view(&self) -> FailureView {
        FailureView { attempt_id: self.attempt_id@, detail: self.detail@ }
    }
}

/// What a reconciliation did.
#[derive(Debug, PartialEq, Eq)]
pub struct PreparationReconciliationReport {
    pub scanned: usize,
    pub recovered: usize,
    pub sent: usize,
    pub pending_delivery: usize,
    pub failures: Vec<PreparationReconciliationFailure>,
}

pub ghost struct ReportView {
    pub scanned: nat,
    pub recovered: nat,
    pub sent: nat,
    pub pending_delivery: nat,
    pub failures: Seq<FailureView>,
}

pub open spec fn failure_views(failures: Seq<PreparationReconciliationFailure>) -> Seq<FailureView> {
    Seq::new(failures.len(), |i: int| failures[i]@)
}

impl View for PreparationReconciliationReport {
    type V = ReportView;

    open spec fn view(&self) -> ReportView {
        ReportView {
            scanned: self.scanned as nat,
            recovered: self.recovered as nat,
            sent: self.sent as nat,
            pending_delivery: self.pending_delivery as nat,
            failures: failure_views(self.failures@),
        }
    }
}

/// A report on a set of which nothing was tried yet.
pub open spec fn opened(scanned: nat) -> ReportView {
    ReportView { scanned, recovered: 0, sent: 0, pending_delivery: 0, failures: seq![] }
}

/// The report with one try counted. `sent` says whether the frame, where there is one, could be
/// handed to the connection.
pub open spec fn counted(
    report: ReportView,
    attempt_id: Seq<char>,
    step: ReconcileStepView,
    sent: bool,
) -> ReportView {
    match step {
        ReconcileStepView::Failed(detail) => ReportView {
            failures: report.failures.push(FailureView { attempt_id, detail }),
            ..report
        },
        ReconcileStepView::Unchanged => report,
        ReconcileStepView::Undelivered(detail) => ReportView {
            recovered: report.recovered + 1,
            failures: report.failures.push(FailureView { attempt_id, detail }),
            ..report
        },
        ReconcileStepView::Pending => ReportView {
            recovered: report.recovered + 1,
            pending_delivery: report.pending_delivery + 1,
            ..report
        },
        ReconcileStepView::Send(_) => if sent {
            ReportView { recovered: report.recovered + 1, sent: report.sent + 1, ..report }
        } else {
            ReportView {
                recovered: report.recovered + 1,
                pending_delivery: report.pending_delivery + 1,
                ..report
            }
        },
    }
}

/// Two reports taken together.
pub open spec fn joined(a: ReportView, b: ReportView) -> ReportView {
    ReportView {
        scanned: a.scanned + b.scanned,
        recovered: a.recovered + b.recovered,
        sent: a.sent + b.sent,
        pending_delivery: a.pending_delivery + b.pending_delivery,
        failures: a.failures + b.failures,
    }
}

/// What is recovered is sent, pending, or among the failures, and nothing is counted twice.
pub open spec fn balanced(report: ReportView) -> bool {
    &&& report.sent + report.pending_delivery <= report.recovered
    &&& report.recovered <= report.sent + report.pending_delivery + report.failures.len()
}

/// Counting a try keeps a report balanced.
pub proof fn counting_keeps_balance(
    report: ReportView,
    attempt_id: Seq<char>,
    step: ReconcileStepView,
    sent: bool,
)
    requires
        balanced(report),
    ensures
        balanced(counted(report, attempt_id, step, sent)),
{
}

/// Taking reports together keeps balance.
pub proof fn joining_keeps_balance(a: ReportView, b: ReportView)
    requires
        balanced(a),
        balanced(b),
    ensures
        balanced(joined(a, b)),
{
}

impl PreparationReconciliationReport {
    /// A report on a set of which nothing was tried yet.
    pub fn new(scanned: usize) -> (r: Self)
        ensures
            r@ == opened(scanned as nat),
            balanced(r@),
    {
        let r = PreparationReconciliationReport {
            scanned,
            recovered: 0,
            sent: 0,
            pending_delivery: 0,
            failures: Vec::new(),
        };
        assert(failure_views(r.failures@) =~= seq![]);
        r
    }

    /// Counts one try.
    pub fn record(&mut self, attempt_id: &str, step: ReconcileStep, sent: bool)
        requires
            balanced(old(self)@),
            old(self)@.recovered < usize::MAX,
        ensures
            final(self)@ == counted(old(self)@, attempt_id@, step@, sent),
            balanced(final(self)@),
    {
        match step {
            ReconcileStep::Failed(detail) => {
                let failure = PreparationReconciliationFailure {
                    attempt_id: attempt_id.to_owned(),
                    detail,
                };
                self.failures.push(failure);
                assert(failure_views(self.failures@) =~= old(self)@.failures.push(failure@));
            },
            ReconcileStep::Unchanged => {},
            ReconcileStep::Undelivered(detail) => {
                let failure = PreparationReconciliationFailure {
                    attempt_id: attempt_id.to_owned(),
                    detail,
                };
                self.recovered += 1;
                self.failures.push(failure);
                assert(failure_views(self.failures@) =~= old(self)@.failures.push(failure@));
            },
            ReconcileStep::Pending => {
                self.recovered += 1;
                self.pending_delivery += 1;
            },
            ReconcileStep::Send(_) => {
                self.recovered += 1;
                if sent {
                    self.sent += 1;
                } else {
                    self.pending_delivery += 1;
                }
            },
        }
    }

    /// Adds what another pass did.
    pub fn absorb(&mut self, other: PreparationReconciliationReport)
        requires
            old(self).scanned + other.scanned <= usize::MAX,
            old(self).recovered + other.recovered <= usize::MAX,
            old(self).sent + other.sent <= usize::MAX,
            old(self).pending_delivery + other.pending_delivery <= usize::MAX,
        ensures
            final(self)@ == joined(old(self)@, other@),
    {
        let mut other = other;
        let ghost added = other.failures@;
        self.scanned += other.scanned;
        self.recovered += other.recovered;
        self.sent += other.sent;
        self.pending_delivery += other.pending_delivery;
        self.failures.append(&mut other.failures);
        assert(failure_views(self.failures@) =~= old(self)@.failures + failure_views(added));
    }
}

/// How many passes of at most `batch` cover `count` abandoned preparations.
pub open spec fn passes(count: nat, batch: nat) -> nat
    recommends
        batch > 0,
{
    (count + batch - 1) as nat / batch
}

/// The passes cover the count and one fewer would not.
pub proof fn passes_cover(count: nat, batch: nat)
    requires
        batch > 0,
    ensures
        passes(count, batch) * batch >= count,
        passes(count, batch) > 0 ==> (passes(count, batch) - 1) * batch < count,
{
    let n = (count + batch - 1) as nat;
    vstd::arithmetic::div_mod::lemma_fundamental_div_mod(n as int, batch as int);
    vstd::arithmetic::div_mod::lemma_mod_bound(n as int, batch as int);
    let q = passes(count, batch) as int;
    assert(q * batch == batch * q) by (nonlinear_arith);
    assert((q - 1) * batch == q * batch - batch) by (nonlinear_arith);
}

/// How many passes of at most `batch` cover `count` abandoned preparations.
pub fn startup_passes(count: usize, batch: usize) -> (r: usize)
    requires
        batch > 0,
    ensures
        r == passes(count as nat, batch as nat),
{
    proof {
        let c = count as int;
        let b = batch as int;
        vstd::arithmetic::div_mod::lemma_fundamental_div_mod(c, b);
        vstd::arithmetic::div_mod::lemma_mod_bound(c, b);
        let q = c / b;
        let m = c % b;
        assert(q <= c) by {
            vstd::arithmetic::div_mod::lemma_div_is_ordered_by_denominator(c, 1, b);
        }
        assert(q * b == b * q) by (nonlinear_arith);
        if m == 0 {
            vstd::arithmetic::div_mod::lemma_fundamental_div_mod_converse(c + b - 1, b, q, b - 1);
        } else {
            assert(b * (q + 1) == b * q + b) by (nonlinear_arith);
            assert((q + 1) * b == b * (q + 1)) by (nonlinear_arith);
            vstd::arithmetic::div_mod::lemma_fundamental_div_mod_converse(
                c + b - 1,
                b,
                q + 1,
                m - 1,
            );
            if batch == 1 {
                assert(m == 0);
            }
            assert(q < c) by {
                assert(b >= 2 && c >= 1);
                assert(q * b <= c);
                assert(q * b >= 2 * q) by (nonlinear_arith)
                    requires
                        b >= 2,
                        q >= 0,
                ;
            }
        }
    }
    if count % batch == 0 {
        count / batch
    } else {
        count / batch + 1
    }
}

/// One pass over abandoned preparations: the records left to try, and the report so far.
#[derive(Debug)]
pub struct ReconciliationPass {
    records: Vec<AssignmentRecord>,
    position: usize,
    report: PreparationReconciliationReport,
}

impl ReconciliationPass {
    #[verifier::type_invariant]
    spec fn is_sound(self) -> bool {
        &&& self.position <= self.records@.len()
        &&& self.report.scanned == self.records@.len()
        &&& self.report.recovered <= self.position
        &&& balanced(self.report@)
    }

    /// The records of the pass, in the order in which they are due.
    pub closed spec fn listed(&self) -> Seq<AssignmentRecordView> {
        assignments::record_views(self.records@)
    }

    /// How many records were tried.
    pub closed spec fn tried(&self) -> nat {
        self.position as nat
    }

    pub closed spec fn so_far(&self) -> ReportView {
        self.report@
    }

    /// Lists at most `limit` abandoned preparations.
    pub fn begin(service: &WorkerControlService, limit: usize) -> (r: Result<
        Self,
        RepositoryError,
    >)
        ensures
            match r {
                Ok(pass) => limit <= i64::MAX && pass.tried() == 0 && pass.listed()
                    == assignments::records(
                    service@.repository,
                    agenda::agenda(assignments::preparing_times(service@.repository)),
                    limit as int,
                ) && pass.so_far() == opened(pass.listed().len()),
                Err(_) => limit > i64::MAX,
            },
    {
        let records = service.repository.preparing_assignments(limit)?;
        let report = PreparationReconciliationReport::new(records.len());
        Ok(ReconciliationPass { records, position: 0, report })
    }

    /// The record to try next.
    pub fn current(&self) -> (r: Option<&AssignmentRecord>)
        ensures
            r is Some <==> self.tried() < self.listed().len(),
            r matches Some(record) ==> record@ == self.listed()[self.tried() as int],
    {
        if self.position < self.records.len() {
            Some(&self.records[self.position])
        } else {
            None
        }
    }

    /// Counts the try at the current record.
    pub fn advance(self, step: ReconcileStep, sent: bool) -> (r: Self)
        requires
            self.tried() < self.listed().len(),
        ensures
            r.listed() == self.listed(),
            r.tried() == self.tried() + 1,
            r.so_far() == counted(
                self.so_far(),
                self.listed()[self.tried() as int].contract.attempt_id,
                step@,
                sent,
            ),
    {
        proof {
            use_type_invariant(&self);
        }
        let ReconciliationPass { records, position, mut report } = self;
        report.record(records[position].contract.attempt_id.as_str(), step, sent);
        ReconciliationPass { records, position: position + 1, report }
    }

    /// What the pass did.
    pub fn finish(self) -> (r: PreparationReconciliationReport)
        ensures
            r@ == self.so_far(),
            balanced(r@),
            r@.recovered <= r@.scanned,
    {
        proof {
            use_type_invariant(&self);
        }
        let ReconciliationPass { report, .. } = self;
        report
    }
}

} // verus!
