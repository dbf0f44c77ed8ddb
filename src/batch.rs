use vstd::prelude::*;

use crate::error::OdbcError;
use crate::query::{ExecResult, QueryResult};

verus! {

/// What one statement of a batch does.
#[derive(Debug, Clone, Copy, PartialEq, Eq, Structural)]
pub enum Operation {
    Insert,
    Update,
    Delete,
    Query,
}

/// The outcome of one statement of a batch.
#[derive(Debug, Clone)]
pub enum BatchEntry {
    Exec(ExecResult),
    Query(QueryResult),
}

/// The outcomes of a batch, one per statement, in input order.
#[derive(Debug, Clone)]
pub struct BatchResult {
    pub entries: Vec<BatchEntry>,
}

/// Where a batch stands.
#[derive(Debug, Clone, Copy, PartialEq, Eq, Structural)]
pub enum TxPhase {
    Idle,
    /// Autocommit is being switched off.
    Beginning,
    /// Statement `next` is running inside the transaction.
    Running { next: usize },
    Committing,
    /// Autocommit is being restored after a commit.
    FinishingCommit,
    RollingBack,
    /// Autocommit is being restored after a rollback.
    FinishingRollback,
    Done,
}

/// The driver call the caller is to make next, or the batch's outcome.
#[derive(Debug, Clone)]
pub enum TxAction {
    /// Switch autocommit off.
    Begin,
    /// Run statement `i` as a non-query statement.
    Execute(usize),
    /// Run statement `i` as a query.
    Query(usize),
    Commit,
    Rollback,
    /// Switch autocommit back on.
    Finish,
    /// The batch committed; here are its outcomes.
    Complete(BatchResult),
    /// The batch failed as a whole.
    Fail(OdbcError),
}

/// The call that runs statement `i` of kind `op`.
pub open spec fn run_action(op: Operation, i: usize) -> TxAction {
    if op is Query {
        TxAction::Query(i)
    } else {
        TxAction::Execute(i)
    }
}

/// Whether an outcome is of the kind the operation produces.
pub open spec fn entry_matches(op: Operation, e: BatchEntry) -> bool {
    if op is Query {
        e is Query
    } else {
        e is Exec
    }
}

/// The phases that wait for the outcome of begin, commit, rollback or
/// finish.
pub open spec fn awaits_control(p: TxPhase) -> bool {
    p is Beginning || p is Committing || p is FinishingCommit || p is RollingBack
        || p is FinishingRollback
}

/// The phase after a control call of phase `p` succeeded (`ok`) or failed.
pub open spec fn control_next(p: TxPhase, ok: bool, n: nat) -> TxPhase {
    if !ok {
        TxPhase::Done
    } else {
        match p {
            TxPhase::Beginning => if n == 0 {
                TxPhase::Committing
            } else {
                TxPhase::Running { next: 0 }
            },
            TxPhase::Committing => TxPhase::FinishingCommit,
            TxPhase::RollingBack => TxPhase::FinishingRollback,
            _ => TxPhase::Done,
        }
    }
}

/// The phases a batch can reach once a statement failed.
pub open spec fn aborting(p: TxPhase) -> bool {
    p is RollingBack || p is FinishingRollback || p is Done
}

/// Once a batch is rolling back, no further control call leads it back to
/// a commit: each step stays among the aborting phases.
pub proof fn lemma_abort_never_commits(p: TxPhase, ok: bool, n: nat)
    requires
        aborting(p),
        awaits_control(p),
    ensures
        aborting(control_next(p, ok, n)),
        !(control_next(p, ok, n) is Committing),
        !(control_next(p, ok, n) is FinishingCommit),
{
}

/// Sequences the statements of one batch inside one transaction.
///
/// The caller makes the driver call each action names and hands back its
/// outcome. Statements run strictly in order; the first failure rolls the
/// transaction back and fails the batch as a whole, and only a batch whose
/// every statement succeeded is committed.
pub struct BatchCoordinator {
    ops: Vec<Operation>,
    phase: TxPhase,
    results: Vec<BatchEntry>,
    failure: Option<OdbcError>,
}

impl BatchCoordinator {
    pub closed spec fn ops(&self) -> Seq<Operation> {
        self.ops@
    }

    pub closed spec fn phase(&self) -> TxPhase {
        self.phase
    }

    /// The outcomes of the statements that have run so far.
    pub closed spec fn results(&self) -> Seq<BatchEntry> {
        self.results@
    }

    /// The failure that a rollback in progress will report.
    pub closed spec fn failure(&self) -> Option<OdbcError> {
        self.failure
    }

    pub closed spec fn wf(&self) -> bool {
        &&& (self.phase matches TxPhase::Running { next } ==> next < self.ops@.len()
            && self.results@.len() == next)
        &&& ((self.phase is Idle || self.phase is Beginning) ==> self.results@.len() == 0)
        &&& ((self.phase is Committing || self.phase is FinishingCommit) ==> self.results@.len()
            == self.ops@.len())
        &&& ((self.phase is RollingBack || self.phase is FinishingRollback) ==> self.failure is Some)
    }

    /// A coordinator for a batch whose statements are of kinds `ops`.
    pub fn new(ops: Vec<Operation>) -> (r: Self)
        ensures
            r.wf(),
            r.ops() == ops@,
            r.phase() == TxPhase::Idle,
            r.results() == Seq::<BatchEntry>::empty(),
    {
        let r = BatchCoordinator { ops, phase: TxPhase::Idle, results: Vec::new(), failure: None };
        assert(r.results() =~= Seq::<BatchEntry>::empty());
        r
    }

    /// Opens the transaction.
    pub fn start(&mut self) -> (r: TxAction)
        requires
            old(self).wf(),
            old(self).phase() is Idle,
        ensures
            final(self).wf(),
            final(self).ops() == old(self).ops(),
            final(self).results() == old(self).results(),
            final(self).phase() == TxPhase::Beginning,
            r == TxAction::Begin,
    {
        self.phase = TxPhase::Beginning;
        TxAction::Begin
    }

    /// Takes the outcome of the statement that ran last.
    ///
    /// A success records its outcome and moves on to the next statement, or
    /// to the commit after the last one. A failure, or an outcome of the
    /// wrong kind, starts the rollback.
    pub fn on_statement(&mut self, outcome: Result<BatchEntry, OdbcError>) -> (r: TxAction)
        requires
            old(self).wf(),
            old(self).phase() is Running,
        ensures
            final(self).wf(),
            final(self).ops() == old(self).ops(),
            ({
                let k = old(self).phase()->next;
                let n = old(self).ops().len();
                match outcome {
                    Ok(e) => if entry_matches(old(self).ops()[k as int], e) {
                        &&& final(self).results() == old(self).results().push(e)
                        &&& k + 1 < n ==> final(self).phase() == TxPhase::Running { next: (k + 1) as usize }
                            && r == run_action(old(self).ops()[k + 1], (k + 1) as usize)
                        &&& k + 1 >= n ==> final(self).phase() == TxPhase::Committing && r
                            == TxAction::Commit
                    } else {
                        &&& final(self).phase() == TxPhase::RollingBack
                        &&& r == TxAction::Rollback
                        &&& final(self).failure() matches Some(OdbcError::DataHandlerError(_))
                    },
                    Err(e) => {
                        &&& final(self).phase() == TxPhase::RollingBack
                        &&& r == TxAction::Rollback
                        &&& final(self).failure() == Some(e)
                    },
                }
            }),
    {
        let k = match self.phase {
            TxPhase::Running { next } => next,
            _ => 0,
        };
        match outcome {
            Ok(e) => {
                let op = self.ops[k];
                let ok = match op {
                    Operation::Query => matches!(e, BatchEntry::Query(_)),
                    _ => matches!(e, BatchEntry::Exec(_)),
                };
                if ok {
                    self.results.push(e);
                    if k < self.ops.len() - 1 {
                        self.phase = TxPhase::Running { next: k + 1 };
                        match self.ops[k + 1] {
                            Operation::Query => TxAction::Query(k + 1),
                            _ => TxAction::Execute(k + 1),
                        }
                    } else {
                        self.phase = TxPhase::Committing;
                        TxAction::Commit
                    }
                } else {
                    self.failure = Some(
                        OdbcError::DataHandlerError("statement outcome of the wrong kind".to_string()),
                    );
                    self.phase = TxPhase::RollingBack;
                    TxAction::Rollback
                }
            },
            Err(e) => {
                self.failure = Some(e);
                self.phase = TxPhase::RollingBack;
                TxAction::Rollback
            },
        }
    }

    /// Takes the outcome of the last begin, commit, rollback or finish.
    ///
    /// A failing control call ends the batch with its own error. Otherwise
    /// begin leads to the first statement, commit and rollback to finish,
    /// and finish to the batch's outcome: its results after a commit, the
    /// statement's failure after a rollback.
    pub fn on_control(&mut self, outcome: Result<(), OdbcError>) -> (r: TxAction)
        requires
            old(self).wf(),
            awaits_control(old(self).phase()),
        ensures
            final(self).wf(),
            final(self).ops() == old(self).ops(),
            final(self).phase() == control_next(
                old(self).phase(),
                outcome is Ok,
                old(self).ops().len(),
            ),
            outcome is Err ==> r == TxAction::Fail(outcome->Err_0),
            outcome is Ok ==> match old(self).phase() {
                TxPhase::Beginning => if old(self).ops().len() == 0 {
                    r == TxAction::Commit
                } else {
                    r == run_action(old(self).ops()[0], 0)
                },
                TxPhase::Committing => r == TxAction::Finish,
                TxPhase::RollingBack => r == TxAction::Finish,
                TxPhase::FinishingCommit => r matches TxAction::Complete(b) && b.entries@ == old(
                    self,
                ).results(),
                _ => r == TxAction::Fail(old(self).failure()->Some_0),
            },
            outcome is Ok && !(old(self).phase() is FinishingCommit) ==> final(self).results()
                == old(self).results(),
    {
        match outcome {
            Err(e) => {
                self.phase = TxPhase::Done;
                TxAction::Fail(e)
            },
            Ok(()) => match self.phase {
                TxPhase::Beginning => {
                    if self.ops.len() == 0 {
                        self.phase = TxPhase::Committing;
                        TxAction::Commit
                    } else {
                        self.phase = TxPhase::Running { next: 0 };
                        match self.ops[0] {
                            Operation::Query => TxAction::Query(0),
                            _ => TxAction::Execute(0),
                        }
                    }
                },
                TxPhase::Committing => {
                    self.phase = TxPhase::FinishingCommit;
                    TxAction::Finish
                },
                TxPhase::RollingBack => {
                    self.phase = TxPhase::FinishingRollback;
                    TxAction::Finish
                },
                TxPhase::FinishingCommit => {
                    self.phase = TxPhase::Done;
                    let mut entries: Vec<BatchEntry> = Vec::new();
                    core::mem::swap(&mut self.results, &mut entries);
                    TxAction::Complete(BatchResult { entries })
                },
                _ => {
                    self.phase = TxPhase::Done;
                    let mut failure: Option<OdbcError> = None;
                    core::mem::swap(&mut self.failure, &mut failure);
                    match failure {
                        Some(e) => TxAction::Fail(e),
                        None => TxAction::Fail(
                            OdbcError::DataHandlerError("no failure recorded".to_string()),
                        ),
                    }
                },
            },
        }
    }
}

} // verus!
