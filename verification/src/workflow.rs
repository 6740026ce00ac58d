//! The bootstrap state machine.
//!
//! The workflow brings a named database into a known-good state in four
//! operations — replace the database, load the schema, load the dataset,
//! verify the load by a count query — each made of calls across the
//! collaborator boundary. The machine holds the decision logic: every
//! non-terminal phase names the collaborator call whose outcome it awaits,
//! and `step` consumes that outcome and says which call comes next. The
//! surrounding application performs the calls and feeds their outcomes back.
//!
//! The ordering guarantees of the workflow — deletion before re-creation,
//! schema committed before the dataset session opens, dataset committed
//! before the verification read, abort on first failure — are facts of the
//! transition relation, proved below over whole event traces.

use crate::errors::WorkflowError;
use crate::value::QueryValue;
use vstd::prelude::*;

verus! {

/// Where the workflow stands. Each non-terminal phase waits for the outcome
/// of one collaborator call; `Complete` and `Failed` are terminal.
#[derive(Clone, Copy, Debug, PartialEq, Eq, Structural)]
pub enum Phase {
    /// Waiting for the answer to the database existence check.
    CheckingExistence,
    /// Waiting for the deletion of the pre-existing database.
    DeletingOld,
    /// Waiting for the creation of the fresh database.
    CreatingDatabase,
    /// Waiting for the post-creation existence check.
    ConfirmingCreation,
    /// Waiting for the schema session to open.
    OpeningSchemaSession,
    /// Waiting for the schema write transaction to open.
    OpeningSchemaTx,
    /// Waiting for the schema definition to be accepted.
    DefiningSchema,
    /// Waiting for the schema transaction to commit.
    CommittingSchema,
    /// Waiting for the data session to open.
    OpeningDataSession,
    /// Waiting for the data write transaction to open.
    OpeningDataTx,
    /// Waiting for the insertion statements to be accepted.
    InsertingData,
    /// Waiting for the data transaction to commit.
    CommittingData,
    /// Waiting for the read transaction to open.
    OpeningReadTx,
    /// Waiting for the answer to the aggregate count query.
    CountingRows,
    /// The load was verified: the observed count equals the expected one.
    Complete,
    /// The workflow aborted with a typed error; no further call is made.
    Failed(WorkflowError),
}

/// The outcome of one collaborator call, handed back to the machine.
#[derive(Clone, Debug, PartialEq, Eq)]
pub enum StepEvent {
    /// The existence check answered.
    Exists(bool),
    /// The call succeeded and carries no value.
    Done,
    /// The aggregate count query answered, possibly without a value.
    Aggregate(Option<QueryValue>),
    /// The call failed at the collaborator boundary.
    CallFailed,
}

/// The next thing the surrounding application must do.
#[derive(Clone, Copy, Debug, PartialEq, Eq, Structural)]
pub enum StepAction {
    /// Ask whether the database exists.
    CheckExists,
    /// Delete the pre-existing database.
    DeleteDatabase,
    /// Create the fresh database.
    CreateDatabase,
    /// Re-check that the database now exists.
    ConfirmExists,
    /// Open a schema-kind session.
    OpenSchemaSession,
    /// Open a write transaction in the schema session.
    OpenSchemaTransaction,
    /// Submit the schema definition text.
    SubmitDefine,
    /// Commit the schema transaction.
    CommitSchema,
    /// Open a data-kind session.
    OpenDataSession,
    /// Open a write transaction in the data session.
    OpenDataTransaction,
    /// Submit the insertion statements and consume the result stream.
    SubmitInsert,
    /// Commit the data transaction.
    CommitData,
    /// Open a read transaction in the data session.
    OpenReadTransaction,
    /// Run the aggregate count query.
    RunCountQuery,
    /// Nothing is left to do: the workflow succeeded.
    Finish,
    /// Abort: discard any open transaction and surface this error.
    Report(WorkflowError),
}

/// The phase the workflow starts in.
pub open spec fn init_phase() -> Phase {
    Phase::CheckingExistence
}

/// The error charged when the call a phase waits for fails: each of the four
/// operations surfaces its own kind.
pub open spec fn phase_error(p: Phase) -> WorkflowError {
    match p {
        Phase::CheckingExistence => WorkflowError::Database,
        Phase::DeletingOld => WorkflowError::Database,
        Phase::CreatingDatabase => WorkflowError::Database,
        Phase::ConfirmingCreation => WorkflowError::Database,
        Phase::OpeningSchemaSession => WorkflowError::Schema,
        Phase::OpeningSchemaTx => WorkflowError::Schema,
        Phase::DefiningSchema => WorkflowError::Schema,
        Phase::CommittingSchema => WorkflowError::Schema,
        Phase::OpeningDataSession => WorkflowError::Insert,
        Phase::OpeningDataTx => WorkflowError::Insert,
        Phase::InsertingData => WorkflowError::Insert,
        Phase::CommittingData => WorkflowError::Insert,
        Phase::OpeningReadTx => WorkflowError::Query,
        Phase::CountingRows => WorkflowError::Query,
        Phase::Complete => WorkflowError::Query,
        Phase::Failed(e) => e,
    }
}

/// The transition relation. A phase advances on the one outcome it awaits;
/// any other outcome, `CallFailed` included, aborts the workflow with the
/// phase's error. Terminal phases stay put.
pub open spec fn next_phase(p: Phase, ev: StepEvent, expected: i64) -> Phase {
    match p {
        Phase::CheckingExistence => match ev {
            StepEvent::Exists(true) => Phase::DeletingOld,
            StepEvent::Exists(false) => Phase::CreatingDatabase,
            _ => Phase::Failed(phase_error(p)),
        },
        Phase::DeletingOld => match ev {
            StepEvent::Done => Phase::CreatingDatabase,
            _ => Phase::Failed(phase_error(p)),
        },
        Phase::CreatingDatabase => match ev {
            StepEvent::Done => Phase::ConfirmingCreation,
            _ => Phase::Failed(phase_error(p)),
        },
        Phase::ConfirmingCreation => match ev {
            StepEvent::Exists(true) => Phase::OpeningSchemaSession,
            _ => Phase::Failed(phase_error(p)),
        },
        Phase::OpeningSchemaSession => match ev {
            StepEvent::Done => Phase::OpeningSchemaTx,
            _ => Phase::Failed(phase_error(p)),
        },
        Phase::OpeningSchemaTx => match ev {
            StepEvent::Done => Phase::DefiningSchema,
            _ => Phase::Failed(phase_error(p)),
        },
        Phase::DefiningSchema => match ev {
            StepEvent::Done => Phase::CommittingSchema,
            _ => Phase::Failed(phase_error(p)),
        },
        Phase::CommittingSchema => match ev {
            StepEvent::Done => Phase::OpeningDataSession,
            _ => Phase::Failed(phase_error(p)),
        },
        Phase::OpeningDataSession => match ev {
            StepEvent::Done => Phase::OpeningDataTx,
            _ => Phase::Failed(phase_error(p)),
        },
        Phase::OpeningDataTx => match ev {
            StepEvent::Done => Phase::InsertingData,
            _ => Phase::Failed(phase_error(p)),
        },
        Phase::InsertingData => match ev {
            StepEvent::Done => Phase::CommittingData,
            _ => Phase::Failed(phase_error(p)),
        },
        Phase::CommittingData => match ev {
            StepEvent::Done => Phase::OpeningReadTx,
            _ => Phase::Failed(phase_error(p)),
        },
        Phase::OpeningReadTx => match ev {
            StepEvent::Done => Phase::CountingRows,
            _ => Phase::Failed(phase_error(p)),
        },
        Phase::CountingRows => match ev {
            StepEvent::Aggregate(Some(QueryValue::Long(n))) => if n == expected {
                Phase::Complete
            } else {
                Phase::Failed(WorkflowError::VerificationFailed { expected, observed: n })
            },
            _ => Phase::Failed(phase_error(p)),
        },
        Phase::Complete => Phase::Complete,
        Phase::Failed(e) => Phase::Failed(e),
    }
}

/// The call each phase has in flight, or what is left to do at the end.
pub open spec fn action_of(p: Phase) -> StepAction {
    match p {
        Phase::CheckingExistence => StepAction::CheckExists,
        Phase::DeletingOld => StepAction::DeleteDatabase,
        Phase::CreatingDatabase => StepAction::CreateDatabase,
        Phase::ConfirmingCreation => StepAction::ConfirmExists,
        Phase::OpeningSchemaSession => StepAction::OpenSchemaSession,
        Phase::OpeningSchemaTx => StepAction::OpenSchemaTransaction,
        Phase::DefiningSchema => StepAction::SubmitDefine,
        Phase::CommittingSchema => StepAction::CommitSchema,
        Phase::OpeningDataSession => StepAction::OpenDataSession,
        Phase::OpeningDataTx => StepAction::OpenDataTransaction,
        Phase::InsertingData => StepAction::SubmitInsert,
        Phase::CommittingData => StepAction::CommitData,
        Phase::OpeningReadTx => StepAction::OpenReadTransaction,
        Phase::CountingRows => StepAction::RunCountQuery,
        Phase::Complete => StepAction::Finish,
        Phase::Failed(e) => StepAction::Report(e),
    }
}

/// The bootstrap workflow machine: the current phase, and the count the
/// final verification step must observe.
pub struct Bootstrap {
    /// Where the workflow stands.
    pub phase: Phase,
    /// The count the verification query is expected to report.
    pub expected: i64,
}

impl Bootstrap {
    /// A machine at the start of the workflow.
    pub fn new(expected: i64) -> (m: Bootstrap)
        ensures
            m.phase == init_phase(),
            m.expected == expected,
    {
        Bootstrap { phase: Phase::CheckingExistence, expected }
    }

    /// The collaborator call the application must perform next.
    pub fn next_action(&self) -> (a: StepAction)
        ensures
            a == action_of(self.phase),
    {
        match self.phase {
            Phase::CheckingExistence => StepAction::CheckExists,
            Phase::DeletingOld => StepAction::DeleteDatabase,
            Phase::CreatingDatabase => StepAction::CreateDatabase,
            Phase::ConfirmingCreation => StepAction::ConfirmExists,
            Phase::OpeningSchemaSession => StepAction::OpenSchemaSession,
            Phase::OpeningSchemaTx => StepAction::OpenSchemaTransaction,
            Phase::DefiningSchema => StepAction::SubmitDefine,
            Phase::CommittingSchema => StepAction::CommitSchema,
            Phase::OpeningDataSession => StepAction::OpenDataSession,
            Phase::OpeningDataTx => StepAction::OpenDataTransaction,
            Phase::InsertingData => StepAction::SubmitInsert,
            Phase::CommittingData => StepAction::CommitData,
            Phase::OpeningReadTx => StepAction::OpenReadTransaction,
            Phase::CountingRows => StepAction::RunCountQuery,
            Phase::Complete => StepAction::Finish,
            Phase::Failed(e) => StepAction::Report(e),
        }
    }

    /// Consumes the outcome of the call in flight and advances the machine,
    /// returning the next call to perform.
    pub fn step(&mut self, ev: StepEvent) -> (a: StepAction)
        ensures
            final(self).phase == next_phase(old(self).phase, ev, old(self).expected),
            final(self).expected == old(self).expected,
            a == action_of(final(self).phase),
    {
        let next = match self.phase {
            Phase::CheckingExistence => match ev {
                StepEvent::Exists(true) => Phase::DeletingOld,
                StepEvent::Exists(false) => Phase::CreatingDatabase,
                _ => Phase::Failed(WorkflowError::Database),
            },
            Phase::DeletingOld => match ev {
                StepEvent::Done => Phase::CreatingDatabase,
                _ => Phase::Failed(WorkflowError::Database),
            },
            Phase::CreatingDatabase => match ev {
                StepEvent::Done => Phase::ConfirmingCreation,
                _ => Phase::Failed(WorkflowError::Database),
            },
            Phase::ConfirmingCreation => match ev {
                StepEvent::Exists(true) => Phase::OpeningSchemaSession,
                _ => Phase::Failed(WorkflowError::Database),
            },
            Phase::OpeningSchemaSession => match ev {
                StepEvent::Done => Phase::OpeningSchemaTx,
                _ => Phase::Failed(WorkflowError::Schema),
            },
            Phase::OpeningSchemaTx => match ev {
                StepEvent::Done => Phase::DefiningSchema,
                _ => Phase::Failed(WorkflowError::Schema),
            },
            Phase::DefiningSchema => match ev {
                StepEvent::Done => Phase::CommittingSchema,
                _ => Phase::Failed(WorkflowError::Schema),
            },
            Phase::CommittingSchema => match ev {
                StepEvent::Done => Phase::OpeningDataSession,
                _ => Phase::Failed(WorkflowError::Schema),
            },
            Phase::OpeningDataSession => match ev {
                StepEvent::Done => Phase::OpeningDataTx,
                _ => Phase::Failed(WorkflowError::Insert),
            },
            Phase::OpeningDataTx => match ev {
                StepEvent::Done => Phase::InsertingData,
                _ => Phase::Failed(WorkflowError::Insert),
            },
            Phase::InsertingData => match ev {
                StepEvent::Done => Phase::CommittingData,
                _ => Phase::Failed(WorkflowError::Insert),
            },
            Phase::CommittingData => match ev {
                StepEvent::Done => Phase::OpeningReadTx,
                _ => Phase::Failed(WorkflowError::Insert),
            },
            Phase::OpeningReadTx => match ev {
                StepEvent::Done => Phase::CountingRows,
                _ => Phase::Failed(WorkflowError::Query),
            },
            Phase::CountingRows => match ev {
                StepEvent::Aggregate(Some(QueryValue::Long(n))) => if n == self.expected {
                    Phase::Complete
                } else {
                    Phase::Failed(
                        WorkflowError::VerificationFailed { expected: self.expected, observed: n },
                    )
                },
                _ => Phase::Failed(WorkflowError::Query),
            },
            Phase::Complete => Phase::Complete,
            Phase::Failed(e) => Phase::Failed(e),
        };
        self.phase = next;
        self.next_action()
    }

    /// The workflow's result once it is terminal, and nothing before that.
    pub fn outcome(&self) -> (r: Option<Result<(), WorkflowError>>)
        ensures
            self.phase is Complete ==> r == Some(Ok::<(), WorkflowError>(())),
            self.phase matches Phase::Failed(e) ==> r == Some(Err::<(), WorkflowError>(e)),
            !(self.phase is Complete) && !(self.phase is Failed) ==> r is None,
    {
        match self.phase {
            Phase::Complete => Some(Ok(())),
            Phase::Failed(e) => Some(Err(e)),
            _ => None,
        }
    }
}

/// The phase after consuming a whole sequence of outcomes, front to back.
pub open spec fn run_phases(p: Phase, expected: i64, evs: Seq<StepEvent>) -> Phase
    decreases evs.len(),
{
    if evs.len() == 0 {
        p
    } else {
        run_phases(next_phase(p, evs[0], expected), expected, evs.drop_first())
    }
}

/// True of the phases the machine occupies only once the schema
/// transaction's commit was acknowledged: the whole dataset-load and
/// verification tail.
pub open spec fn past_schema_commit(p: Phase) -> bool {
    match p {
        Phase::OpeningDataSession => true,
        Phase::OpeningDataTx => true,
        Phase::InsertingData => true,
        Phase::CommittingData => true,
        Phase::OpeningReadTx => true,
        Phase::CountingRows => true,
        Phase::Complete => true,
        _ => false,
    }
}

/// True of the actions that make up the dataset load.
pub open spec fn is_data_action(a: StepAction) -> bool {
    match a {
        StepAction::OpenDataSession => true,
        StepAction::OpenDataTransaction => true,
        StepAction::SubmitInsert => true,
        StepAction::CommitData => true,
        _ => false,
    }
}

/// How far along the workflow a phase is. Every transition moves forward:
/// see `lemma_rank_monotone`.
pub open spec fn phase_rank(p: Phase) -> int {
    match p {
        Phase::CheckingExistence => 0,
        Phase::DeletingOld => 1,
        Phase::CreatingDatabase => 2,
        Phase::ConfirmingCreation => 3,
        Phase::OpeningSchemaSession => 4,
        Phase::OpeningSchemaTx => 5,
        Phase::DefiningSchema => 6,
        Phase::CommittingSchema => 7,
        Phase::OpeningDataSession => 8,
        Phase::OpeningDataTx => 9,
        Phase::InsertingData => 10,
        Phase::CommittingData => 11,
        Phase::OpeningReadTx => 12,
        Phase::CountingRows => 13,
        Phase::Complete => 14,
        Phase::Failed(_) => 15,
    }
}

/// Running a trace splits at any point: first the head, then the rest.
pub proof fn lemma_run_append(p: Phase, expected: i64, s1: Seq<StepEvent>, s2: Seq<StepEvent>)
    ensures
        run_phases(p, expected, s1 + s2) == run_phases(
            run_phases(p, expected, s1),
            expected,
            s2,
        ),
    decreases s1.len(),
{
    if s1.len() == 0 {
        assert(s1 + s2 =~= s2);
    } else {
        assert((s1 + s2)[0] == s1[0]);
        assert((s1 + s2).drop_first() =~= s1.drop_first() + s2);
        lemma_run_append(next_phase(p, s1[0], expected), expected, s1.drop_first(), s2);
    }
}

/// A failed workflow stays failed, with the same error, whatever else comes.
pub proof fn lemma_failed_absorbs(e: WorkflowError, expected: i64, evs: Seq<StepEvent>)
    ensures
        run_phases(Phase::Failed(e), expected, evs) == Phase::Failed(e),
    decreases evs.len(),
{
    if evs.len() > 0 {
        lemma_failed_absorbs(e, expected, evs.drop_first());
    }
}

/// The workflow only moves forward: no trace brings a later phase back to
/// an earlier one.
pub proof fn lemma_rank_monotone(p: Phase, expected: i64, evs: Seq<StepEvent>)
    ensures
        phase_rank(run_phases(p, expected, evs)) >= phase_rank(p),
    decreases evs.len(),
{
    if evs.len() > 0 {
        lemma_rank_monotone(next_phase(p, evs[0], expected), expected, evs.drop_first());
    }
}

/// The workflow aborts on first failure: when the call a (non-terminal)
/// phase waits for fails, every later point of the trace sits in `Failed`
/// with that phase's error, and no further collaborator call is requested.
pub proof fn lemma_failure_aborts(expected: i64, evs: Seq<StepEvent>, i: int)
    requires
        0 <= i < evs.len(),
        !(run_phases(init_phase(), expected, evs.take(i)) is Complete),
        !(run_phases(init_phase(), expected, evs.take(i)) is Failed),
        evs[i] == StepEvent::CallFailed,
    ensures
        forall|j: int|
            i < j <= evs.len() ==> run_phases(init_phase(), expected, evs.take(j)) == Phase::Failed(
                phase_error(run_phases(init_phase(), expected, evs.take(i))),
            ),
{
    let p_i = run_phases(init_phase(), expected, evs.take(i));
    let err = phase_error(p_i);
    assert forall|j: int|
        i < j <= evs.len() implies run_phases(init_phase(), expected, evs.take(j)) == Phase::Failed(
        err,
    ) by {
        let pre = evs.take(i);
        let mid = seq![evs[i]];
        let rest = evs.subrange(i + 1, j);
        assert(evs.take(j) =~= (pre + mid) + rest);
        lemma_run_append(init_phase(), expected, pre, mid);
        lemma_run_append(init_phase(), expected, pre + mid, rest);
        assert(mid.drop_first() =~= Seq::<StepEvent>::empty());
        reveal_with_fuel(run_phases, 2);
        assert(run_phases(p_i, expected, mid) == next_phase(p_i, evs[i], expected));
        assert(next_phase(p_i, StepEvent::CallFailed, expected) == Phase::Failed(err));
        lemma_failed_absorbs(err, expected, rest);
    }
}

/// Ordering guarantee of the dataset load: the machine reaches the
/// dataset-load tail of the workflow only after the schema transaction's
/// commit was acknowledged.
pub proof fn lemma_data_load_needs_schema_commit(p: Phase, expected: i64, evs: Seq<StepEvent>)
    requires
        !past_schema_commit(p),
    ensures
        past_schema_commit(run_phases(p, expected, evs)) ==> exists|i: int|
            0 <= i < evs.len() && #[trigger] run_phases(p, expected, evs.take(i))
                == Phase::CommittingSchema && evs[i] == StepEvent::Done,
    decreases evs.len(),
{
    if evs.len() > 0 {
        let p1 = next_phase(p, evs[0], expected);
        if past_schema_commit(p1) {
            assert(p == Phase::CommittingSchema && evs[0] == StepEvent::Done);
            assert(evs.take(0) =~= Seq::<StepEvent>::empty());
            assert(run_phases(p, expected, evs.take(0)) == Phase::CommittingSchema);
        } else {
            let tail = evs.drop_first();
            lemma_data_load_needs_schema_commit(p1, expected, tail);
            if past_schema_commit(run_phases(p, expected, evs)) {
                let i0 = choose|i: int|
                    0 <= i < tail.len() && #[trigger] run_phases(p1, expected, tail.take(i))
                        == Phase::CommittingSchema && tail[i] == StepEvent::Done;
                assert(evs.take(i0 + 1).drop_first() =~= tail.take(i0));
                assert(evs.take(i0 + 1)[0] == evs[0]);
                assert(run_phases(p, expected, evs.take(i0 + 1)) == Phase::CommittingSchema);
                assert(evs[i0 + 1] == tail[i0]);
            }
        }
    }
}

/// If the schema definition is refused, the dataset load is never
/// attempted: from that point the trace stays in `Failed` with a `Schema`
/// error, and at no point — before or after — is any dataset-load call
/// requested.
pub proof fn lemma_schema_rejection_blocks_data(expected: i64, evs: Seq<StepEvent>, i: int)
    requires
        0 <= i < evs.len(),
        run_phases(init_phase(), expected, evs.take(i)) == Phase::DefiningSchema,
        evs[i] == StepEvent::CallFailed,
    ensures
        forall|j: int|
            i < j <= evs.len() ==> run_phases(init_phase(), expected, evs.take(j)) == Phase::Failed(
                WorkflowError::Schema,
            ),
        forall|j: int|
            0 <= j <= evs.len() ==> !is_data_action(
                #[trigger] action_of(run_phases(init_phase(), expected, evs.take(j))),
            ),
{
    lemma_failure_aborts(expected, evs, i);
    assert forall|j: int|
        0 <= j <= evs.len() implies !is_data_action(
        action_of(run_phases(init_phase(), expected, evs.take(j))),
    ) by {
        if j <= i {
            assert(evs.take(i) =~= evs.take(j) + evs.subrange(j, i));
            lemma_run_append(init_phase(), expected, evs.take(j), evs.subrange(j, i));
            lemma_rank_monotone(
                run_phases(init_phase(), expected, evs.take(j)),
                expected,
                evs.subrange(j, i),
            );
        }
    }
}

/// If an insertion statement is refused partway through the dataset load,
/// the data transaction is never committed: from that point the trace stays
/// in `Failed` with an `Insert` error, and at no point is the data commit
/// requested.
pub proof fn lemma_insert_failure_blocks_commit(expected: i64, evs: Seq<StepEvent>, i: int)
    requires
        0 <= i < evs.len(),
        run_phases(init_phase(), expected, evs.take(i)) == Phase::InsertingData,
        evs[i] == StepEvent::CallFailed,
    ensures
        forall|j: int|
            i < j <= evs.len() ==> run_phases(init_phase(), expected, evs.take(j)) == Phase::Failed(
                WorkflowError::Insert,
            ),
        forall|j: int|
            0 <= j <= evs.len() ==> action_of(
                #[trigger] run_phases(init_phase(), expected, evs.take(j)),
            ) != StepAction::CommitData,
{
    lemma_failure_aborts(expected, evs, i);
    assert forall|j: int|
        0 <= j <= evs.len() implies action_of(run_phases(init_phase(), expected, evs.take(j)))
        != StepAction::CommitData by {
        if j <= i {
            assert(evs.take(i) =~= evs.take(j) + evs.subrange(j, i));
            lemma_run_append(init_phase(), expected, evs.take(j), evs.subrange(j, i));
            lemma_rank_monotone(
                run_phases(init_phase(), expected, evs.take(j)),
                expected,
                evs.subrange(j, i),
            );
        }
    }
}

/// The trace of a fully successful run: every call succeeds, the database
/// already existed or not, and the final count query answers `count`.
pub open spec fn success_events(existed: bool, count: i64) -> Seq<StepEvent> {
    let tail = seq![
        StepEvent::Done,
        StepEvent::Exists(true),
        StepEvent::Done,
        StepEvent::Done,
        StepEvent::Done,
        StepEvent::Done,
        StepEvent::Done,
        StepEvent::Done,
        StepEvent::Done,
        StepEvent::Done,
        StepEvent::Done,
        StepEvent::Aggregate(Some(QueryValue::Long(count))),
    ];
    if existed {
        seq![StepEvent::Exists(true), StepEvent::Done] + tail
    } else {
        seq![StepEvent::Exists(false)] + tail
    }
}

/// When the collaborator accepts every call — as it does for a valid
/// schema/dataset pair — and the count query reports the expected count,
/// the workflow completes.
pub proof fn lemma_valid_bootstrap_completes(existed: bool, expected: i64)
    ensures
        run_phases(init_phase(), expected, success_events(existed, expected)) == Phase::Complete,
{
    reveal_with_fuel(run_phases, 16);
}

} // verus!
