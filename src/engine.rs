//! The engine: applies a changeset in order, records how to undo each
//! applied change, and undoes the record in reverse order.
//!
//! The engine does no filesystem work itself. Each call hands back a `Step`:
//! either an operation for the driver to perform, whose `Outcome` the driver
//! reports with `on_outcome`, or the end of the run with its result.

use vstd::prelude::*;
use crate::change::{Change, FsOp, OpModel, Plan, RevertAction, lemma_plan_len, ops_view};

verus! {

/// Where an engine stands.
#[derive(PartialEq, Eq, Structural, Clone, Copy, Debug)]
pub enum Phase {
    Idle,
    Executing,
    AllApplied,
    HaltedOnApplyError,
    Reverting,
    FullyReverted,
    HaltedOnRevertError,
}

/// What came of an operation that the engine asked for.
#[derive(Debug)]
pub enum Outcome {
    /// The operation succeeded.
    Done,
    /// A read succeeded with this text.
    Content(String),
    /// The operation failed with this message.
    Failed(String),
}

/// What the driver must do next.
#[derive(Debug)]
pub enum Step {
    /// Perform this operation and report its outcome.
    Perform(FsOp),
    /// The run has ended with this result.
    Finished(Result<(), String>),
}

/// An applied change with the action that undoes it.
pub struct Entry {
    pub change: Change,
    pub revert: RevertAction,
}

pub struct Engine {
    history: Vec<Entry>,
    /// Changes not yet applied, the next one last.
    queue: Vec<Change>,
    /// Operations of the change being applied, once planned.
    ops: Vec<FsOp>,
    next_op: usize,
    /// How to undo the change being applied, once planned.
    revert: Option<RevertAction>,
    backup_dir: String,
    phase: Phase,
    /// Every change of the history followed by those still to apply.
    planned: Ghost<Seq<Change>>,
    /// The plan of the change being applied, once planned.
    plan: Ghost<(Seq<OpModel>, OpModel)>,
    /// The text read for the change being applied (empty for a rename).
    text: Ghost<Seq<char>>,
}

/// Whether a step agrees with the operation that an engine awaits.
pub open spec fn step_agrees(s: Step, e: Engine) -> bool {
    match s {
        Step::Perform(op) => e.awaiting() == Some(op@),
        Step::Finished(_) => e.awaiting() is None,
    }
}

/// Whether a step asks for an operation of the given model.
pub open spec fn asks_for(s: Step, op: OpModel) -> bool {
    s matches Step::Perform(o) && o@ == op
}

/// Whether an outcome is the success of the operation awaited.
pub open spec fn succeeds(outcome: Outcome, awaited: OpModel) -> bool {
    match awaited {
        OpModel::Read(_) => outcome is Content,
        _ => outcome is Done,
    }
}

/// Whether an outcome, taken by an executing engine, is a success that the
/// engine can go on from: the awaited operation succeeded, and a text that
/// was read lets the change be planned.
pub open spec fn successful_for(e: Engine, outcome: Outcome) -> bool {
    &&& succeeds(outcome, e.awaiting()->Some_0)
    &&& e.plan_in_progress() is None ==> e.in_progress()->Some_0.plan_spec(
        e.backup_dir_spec(),
        outcome->Content_0@,
    ) is Some
}

/// What a step of a run from `old` to `new` keeps, and how a success moves
/// the run on: either to its next operation, with less work left, or to its
/// successful end.
pub open spec fn advances(old: Engine, outcome: Outcome, new: Engine, s: Step) -> bool {
    &&& new.wf()
    &&& new.planned() == old.planned()
    &&& new.backup_dir_spec() == old.backup_dir_spec()
    &&& step_agrees(s, new)
    &&& successful_for(old, outcome) ==> {
        ||| s is Perform && new.phase_spec() == Phase::Executing && new.work_left() < old.work_left()
        ||| s == Step::Finished(Ok(())) && new.phase_spec() == Phase::AllApplied
    }
    &&& !successful_for(old, outcome) ==> halted_keeping(s, new, old)
}

/// A run ended by a failure, with the history as it was.
pub open spec fn halted_keeping(s: Step, new: Engine, old: Engine) -> bool {
    &&& s matches Step::Finished(Err(_))
    &&& new.phase_spec() == Phase::HaltedOnApplyError
    &&& new.history_changes() == old.history_changes()
    &&& new.history_undo() == old.history_undo()
}

/// The steps of a run from `states[0]`: each outcome is taken while
/// executing, and moves the engine from one state to the next.
pub open spec fn is_run(states: Seq<Engine>, outcomes: Seq<Outcome>, steps: Seq<Step>) -> bool {
    &&& states.len() == outcomes.len() + 1
    &&& steps.len() == outcomes.len()
    &&& states[0].wf()
    &&& forall|i: int| 0 <= i < outcomes.len() ==> #[trigger] states[i].phase_spec() == Phase::Executing
    &&& forall|i: int|
        0 <= i < outcomes.len() ==> advances(states[i], #[trigger] outcomes[i], states[i + 1], steps[i])
}

proof fn lemma_run_prefix(states: Seq<Engine>, outcomes: Seq<Outcome>, steps: Seq<Step>, n: int)
    requires
        is_run(states, outcomes, steps),
        0 <= n < outcomes.len(),
        forall|i: int| 0 <= i < n ==> successful_for(states[i], #[trigger] outcomes[i]),
    ensures
        states[n].wf(),
        states[n].planned() == states[0].planned(),
        states[n].backup_dir_spec() == states[0].backup_dir_spec(),
        states[n].work_left() + n <= states[0].work_left(),
        forall|i: int| 0 <= i < n ==> #[trigger] steps[i] is Perform,
    decreases n,
{
    if n > 0 {
        lemma_run_prefix(states, outcomes, steps, n - 1);
        assert(advances(states[n - 1], outcomes[n - 1], states[n], steps[n - 1]));
        assert(successful_for(states[n - 1], outcomes[n - 1]));
        assert(states[n].phase_spec() == Phase::Executing);
    }
}

/// A run in which every operation succeeds and every change can be planned
/// never ends in an error. Each outcome moves it to its next operation with
/// less work left, so at most `work_left()` outcomes come before it ends; it
/// ends with `Ok`, and then every planned change is recorded, in order.
pub proof fn lemma_successful_run(states: Seq<Engine>, outcomes: Seq<Outcome>, steps: Seq<Step>)
    requires
        is_run(states, outcomes, steps),
        forall|i: int| 0 <= i < outcomes.len() ==> successful_for(states[i], #[trigger] outcomes[i]),
    ensures
        outcomes.len() <= states[0].work_left(),
        forall|i: int|
            0 <= i < steps.len() ==> #[trigger] steps[i] is Perform || steps[i] == Step::Finished(Ok(())),
        states.last().wf(),
        states.last().planned() == states[0].planned(),
        states.last().phase_spec() == Phase::AllApplied ==> states.last().history_changes()
            == states[0].planned(),
{
    let n = outcomes.len() as int;
    if n > 0 {
        lemma_run_prefix(states, outcomes, steps, n - 1);
        states[n - 1].lemma_state();
        assert(advances(states[n - 1], outcomes[n - 1], states[n], steps[n - 1]));
        assert(successful_for(states[n - 1], outcomes[n - 1]));
    }
    states.last().lemma_state();
}

/// A run whose operations succeed up to one that fails (or whose text cannot
/// be planned) ends at that outcome with an error and asks for nothing more.
/// Its history is then the changes before the failing one, which is the
/// change that was in progress: it and every change after it are neither
/// recorded nor touched again.
pub proof fn lemma_failed_run(states: Seq<Engine>, outcomes: Seq<Outcome>, steps: Seq<Step>)
    requires
        is_run(states, outcomes, steps),
        outcomes.len() > 0,
        forall|i: int| 0 <= i < outcomes.len() - 1 ==> successful_for(states[i], #[trigger] outcomes[i]),
        !successful_for(states[outcomes.len() - 1], outcomes.last()),
    ensures
        forall|i: int| 0 <= i < steps.len() - 1 ==> #[trigger] steps[i] is Perform,
        steps.last() matches Step::Finished(Err(_)),
        states.last().phase_spec() == Phase::HaltedOnApplyError,
        states.last().awaiting() is None,
        states.last().planned() == states[0].planned(),
        states.last().history_changes() == states[0].planned().take(
            states.last().history_changes().len() as int,
        ),
        states.last().history_changes().len() < states[0].planned().len(),
        states[outcomes.len() - 1].in_progress() == Some(
            states[0].planned()[states.last().history_changes().len() as int],
        ),
{
    let n = outcomes.len() as int;
    lemma_run_prefix(states, outcomes, steps, n - 1);
    states[n - 1].lemma_state();
    assert(advances(states[n - 1], outcomes[n - 1], states[n], steps[n - 1]));
    states.last().lemma_state();
}


impl Engine {
    /// The applied changes, oldest first.
    pub closed spec fn history_changes(&self) -> Seq<Change> {
        self.history@.map_values(|e: Entry| e.change)
    }

    /// The undoing operations of the applied changes, oldest first.
    pub closed spec fn history_undo(&self) -> Seq<OpModel> {
        self.history@.map_values(|e: Entry| e.revert@)
    }

    /// The history followed by the changes of the current changeset that are
    /// still to be applied.
    pub closed spec fn planned(&self) -> Seq<Change> {
        self.planned@
    }

    pub closed spec fn phase_spec(&self) -> Phase {
        self.phase
    }

    /// The directory where the current run keeps its backups.
    pub closed spec fn backup_dir_spec(&self) -> Seq<char> {
        self.backup_dir@
    }

    /// The change being applied, while executing.
    pub closed spec fn in_progress(&self) -> Option<Change> {
        if self.phase == Phase::Executing {
            Some(self.queue@.last())
        } else {
            None
        }
    }

    /// The plan (operations and undoing operation) of the change being
    /// applied, once its text is read; a rename is planned at once.
    pub closed spec fn plan_in_progress(&self) -> Option<(Seq<OpModel>, OpModel)> {
        if self.phase == Phase::Executing && self.revert is Some {
            Some(self.plan@)
        } else {
            None
        }
    }

    /// The text that the plan in progress was made from.
    pub closed spec fn text_read(&self) -> Seq<char> {
        self.text@
    }

    /// How many operations of the plan in progress are done.
    pub closed spec fn ops_done(&self) -> nat {
        self.next_op as nat
    }

    /// A bound on the outcomes still to come before the run ends when every
    /// one succeeds: four for each change left, less what is done of the
    /// change in progress.
    pub closed spec fn work_left(&self) -> nat {
        if self.phase == Phase::Executing {
            (4 * self.queue@.len() - (if self.revert is Some { 1 + self.next_op } else { 0 })) as nat
        } else {
            0
        }
    }

    /// The engine has just started a change: nothing of it is done yet, and
    /// a change that needs its file's text waits for that text.
    pub open spec fn at_change_start(&self) -> bool {
        &&& self.phase_spec() == Phase::Executing
        &&& self.ops_done() == 0
        &&& self.in_progress()->Some_0.source_spec() is Some ==> self.plan_in_progress() is None
    }

    /// The operation whose outcome the engine waits for, if any.
    pub closed spec fn awaiting(&self) -> Option<OpModel> {
        match self.phase {
            Phase::Executing => match self.revert {
                None => Some(OpModel::Read(self.queue@.last().source_spec()->Some_0)),
                Some(_) => Some(self.ops@[self.next_op as int]@),
            },
            Phase::Reverting => Some(self.history@.last().revert@),
            _ => None,
        }
    }

    closed spec fn queue_matches(&self) -> bool {
        let h = self.history@.len();
        let n = self.planned@.len();
        &&& h + self.queue@.len() == n
        &&& self.history_changes() == self.planned@.take(h as int)
        &&& forall|i: int| 0 <= i < self.queue@.len() ==> #[trigger] self.queue@[i] == self.planned@[n - 1 - i]
    }

    /// Between two changes of a run: the next one (if any) is not started.
    closed spec fn between(&self) -> bool {
        &&& self.phase == Phase::Executing
        &&& self.revert is None
        &&& self.next_op == 0
        &&& self.queue_matches()
    }

    /// The planned operations match the plan of the change being applied.
    closed spec fn plan_matches(&self) -> bool {
        &&& self.next_op < self.ops@.len()
        &&& self.ops@.len() <= 2
        &&& self.queue@.last().plan_spec(self.backup_dir@, self.text@) == Some(self.plan@)
        &&& ops_view(self.ops@) == self.plan@.0
        &&& self.revert->Some_0@ == self.plan@.1
        &&& self.queue@.last().source_spec() is None ==> self.text@ == Seq::<char>::empty()
    }

    pub closed spec fn wf(&self) -> bool {
        match self.phase {
            Phase::Idle => self.history@.len() == 0 && self.planned@.len() == 0,
            Phase::Executing => {
                &&& self.queue_matches()
                &&& self.queue@.len() > 0
                &&& self.revert is None ==> self.queue@.last().source_spec() is Some && self.next_op == 0
                &&& self.revert is Some ==> self.plan_matches()
            },
            Phase::AllApplied => self.history_changes() == self.planned@,
            Phase::HaltedOnApplyError => {
                &&& self.history@.len() < self.planned@.len()
                &&& self.history_changes() == self.planned@.take(self.history@.len() as int)
            },
            Phase::Reverting => self.history@.len() > 0,
            _ => true,
        }
    }

    /// The state of an engine, stated over its history: a run that applied
    /// everything has recorded every change in order; a run halted by a
    /// failure has recorded exactly the changes before the failing one; while
    /// executing, the engine works on the change after the recorded ones,
    /// first reading its file's text where it needs one, then performing the
    /// operations of its plan in order; and while reverting, it undoes the
    /// most recent entry first.
    pub proof fn lemma_state(&self)
        requires
            self.wf(),
        ensures
            self.history_undo().len() == self.history_changes().len(),
            self.phase_spec() == Phase::AllApplied ==> self.history_changes() == self.planned(),
            self.phase_spec() == Phase::HaltedOnApplyError ==> {
                &&& self.history_changes().len() < self.planned().len()
                &&& self.history_changes() == self.planned().take(self.history_changes().len() as int)
            },
            self.phase_spec() == Phase::Executing ==> {
                &&& self.history_changes().len() < self.planned().len()
                &&& self.history_changes() == self.planned().take(self.history_changes().len() as int)
                &&& self.in_progress() == Some(self.planned()[self.history_changes().len() as int])
                &&& match self.plan_in_progress() {
                    None => {
                        &&& self.in_progress()->Some_0.source_spec() is Some
                        &&& self.ops_done() == 0
                        &&& self.awaiting() == Some(
                            OpModel::Read(self.in_progress()->Some_0.source_spec()->Some_0),
                        )
                    },
                    Some(p) => {
                        &&& self.in_progress()->Some_0.plan_spec(self.backup_dir_spec(), self.text_read())
                            == Some(p)
                        &&& self.in_progress()->Some_0.source_spec() is None ==> self.text_read()
                            == Seq::<char>::empty()
                        &&& self.ops_done() < p.0.len()
                        &&& self.awaiting() == Some(p.0[self.ops_done() as int])
                    },
                }
            },
            self.phase_spec() == Phase::Reverting ==> {
                &&& self.history_undo().len() > 0
                &&& self.awaiting() == Some(self.history_undo().last())
            },
            self.awaiting() is Some <==> (self.phase_spec() == Phase::Executing || self.phase_spec()
                == Phase::Reverting),
            self.phase_spec() == Phase::Executing ==> self.work_left() > 0,
    {
        if self.phase == Phase::Executing {
            let q = self.queue@;
            assert(q[q.len() - 1] == self.planned@[self.planned@.len() - 1 - (q.len() - 1)]);
            if self.revert is Some {
                assert(ops_view(self.ops@)[self.next_op as int] == self.ops@[self.next_op as int]@);
            }
        }
    }

    /// A new engine with an empty history.
    pub fn new() -> (r: Engine)
        ensures
            r.wf(),
            r.phase_spec() == Phase::Idle,
            r.history_changes().len() == 0,
            r.history_undo().len() == 0,
            r.planned().len() == 0,
    {
        Engine {
            history: Vec::new(),
            queue: Vec::new(),
            ops: Vec::new(),
            next_op: 0,
            revert: None,
            backup_dir: String::new(),
            phase: Phase::Idle,
            planned: Ghost(Seq::empty()),
            plan: Ghost((Seq::empty(), OpModel::Read(Seq::empty()))),
            text: Ghost(Seq::empty()),
        }
    }

    pub fn phase(&self) -> (r: Phase)
        ensures
            r == self.phase_spec(),
    {
        self.phase
    }

    /// The number of applied changes on record.
    pub fn history_len(&self) -> (r: usize)
        ensures
            r == self.history_changes().len(),
    {
        self.history.len()
    }

    /// The applied change at position `i` of the history, oldest first.
    pub fn history_change(&self, i: usize) -> (r: &Change)
        requires
            i < self.history_changes().len(),
        ensures
            *r == self.history_changes()[i as int],
    {
        &self.history[i].change
    }

    /// Whether a changeset may be started now: before any run, or after a
    /// run has ended, as long as no revert has begun.
    pub fn can_execute(&self) -> (r: bool)
        ensures
            r == (self.phase_spec() == Phase::Idle || self.phase_spec() == Phase::AllApplied
                || self.phase_spec() == Phase::HaltedOnApplyError),
    {
        match self.phase {
            Phase::Idle | Phase::AllApplied | Phase::HaltedOnApplyError => true,
            _ => false,
        }
    }

    /// Whether the engine waits for the outcome of an operation.
    pub fn is_awaiting(&self) -> (r: bool)
        requires
            self.wf(),
        ensures
            r == self.awaiting() is Some,
    {
        proof {
            self.lemma_state();
        }
        match self.phase {
            Phase::Executing | Phase::Reverting => true,
            _ => false,
        }
    }

    /// Starts applying `changeset`, in order, with backups under
    /// `backup_dir`. The history is kept and grows by one entry for each
    /// change that is applied.
    pub fn execute(&mut self, changeset: Vec<Change>, backup_dir: String) -> (s: Step)
        requires
            old(self).wf(),
            old(self).phase_spec() == Phase::Idle || old(self).phase_spec() == Phase::AllApplied
                || old(self).phase_spec() == Phase::HaltedOnApplyError,
        ensures
            final(self).wf(),
            final(self).planned() == old(self).history_changes() + changeset@,
            final(self).history_changes() == old(self).history_changes(),
            final(self).history_undo() == old(self).history_undo(),
            step_agrees(s, *final(self)),
            final(self).backup_dir_spec() == backup_dir@,
            s is Finished ==> s == Step::Finished(Ok(())) && final(self).phase_spec()
                == Phase::AllApplied && changeset@.len() == 0,
            s is Perform ==> final(self).at_change_start(),
    {
        let ghost before = self.history_changes();
        let ghost all = before + changeset@;
        let n = changeset.len();
        let mut rest = changeset;
        let mut queue: Vec<Change> = Vec::new();
        while rest.len() > 0
            invariant
                rest@.len() + queue@.len() == n,
                rest@ == changeset@.take(rest@.len() as int),
                n == changeset@.len(),
                forall|i: int| 0 <= i < queue@.len() ==> #[trigger] queue@[i] == changeset@[n - 1 - i],
            decreases rest@.len(),
        {
            let c = rest.pop().unwrap();
            queue.push(c);
            assert(rest@ =~= changeset@.take(rest@.len() as int));
        }
        self.queue = queue;
        self.ops = Vec::new();
        self.next_op = 0;
        self.revert = None;
        self.backup_dir = backup_dir;
        self.phase = Phase::Executing;
        self.planned = Ghost(all);
        proof {
            let h = self.history@.len();
            assert(self.planned@.take(h as int) =~= before);
            assert forall|i: int| 0 <= i < self.queue@.len() implies #[trigger] self.queue@[i]
                == self.planned@[self.planned@.len() - 1 - i] by {
                assert(self.planned@[self.planned@.len() - 1 - i] == changeset@[n - 1 - i]);
            }
        }
        self.start_next()
    }

    /// Starts the next change of the run, or ends the run when none is left.
    fn start_next(&mut self) -> (s: Step)
        requires
            old(self).between(),
        ensures
            final(self).wf(),
            final(self).planned() == old(self).planned(),
            final(self).backup_dir_spec() == old(self).backup_dir_spec(),
            final(self).history_changes() == old(self).history_changes(),
            final(self).history_undo() == old(self).history_undo(),
            step_agrees(s, *final(self)),
            s is Finished ==> s == Step::Finished(Ok(())) && final(self).phase_spec() == Phase::AllApplied
                && old(self).queue@.len() == 0,
            s is Perform ==> final(self).at_change_start(),
            s is Perform ==> final(self).work_left() <= 4 * old(self).queue@.len(),
    {
        let n = self.queue.len();
        if n == 0 {
            self.phase = Phase::AllApplied;
            proof {
                assert(self.planned@.take(self.history@.len() as int) =~= self.planned@);
            }
            return Step::Finished(Ok(()));
        }
        match self.queue[n - 1].source() {
            Some(path) => Step::Perform(FsOp::Read { path }),
            None => {
                self.text = Ghost(Seq::empty());
                let planned = self.queue[n - 1].apply(self.backup_dir.as_str(), "");
                match planned {
                    Ok(plan) => {
                        proof {
                            reveal_strlit("");
                            assert(""@ =~= Seq::<char>::empty());
                            assert(ops_view(plan.ops@).len() == plan.ops@.len());
                        }
                        self.begin(plan)
                    },
                    Err(e) => {
                        proof {
                            assert(self.queue@[n - 1] is RenameFile);
                        }
                        self.halt(e)
                    },
                }
            },
        }
    }

    /// Starts the operations of the change being applied.
    fn begin(&mut self, plan: Plan) -> (s: Step)
        requires
            old(self).between(),
            old(self).queue@.len() > 0,
            plan.ops@.len() > 0,
            old(self).queue@.last().plan_spec(old(self).backup_dir@, old(self).text@) == Some(
                (ops_view(plan.ops@), plan.revert@),
            ),
            old(self).queue@.last().source_spec() is None ==> old(self).text@ == Seq::<char>::empty(),
        ensures
            final(self).wf(),
            final(self).planned() == old(self).planned(),
            final(self).backup_dir_spec() == old(self).backup_dir_spec(),
            final(self).history_changes() == old(self).history_changes(),
            final(self).history_undo() == old(self).history_undo(),
            final(self).in_progress() == Some(old(self).queue@.last()),
            final(self).plan_in_progress() == Some((ops_view(plan.ops@), plan.revert@)),
            final(self).text_read() == old(self).text@,
            final(self).ops_done() == 0,
            final(self).work_left() + 1 == 4 * old(self).queue@.len(),
            step_agrees(s, *final(self)),
            asks_for(s, ops_view(plan.ops@)[0]),
            final(self).phase_spec() == Phase::Executing,
    {
        proof {
            lemma_plan_len(old(self).queue@.last(), old(self).backup_dir@, old(self).text@);
        }
        self.plan = Ghost((ops_view(plan.ops@), plan.revert@));
        self.ops = plan.ops;
        self.next_op = 0;
        self.revert = Some(plan.revert);
        Step::Perform(self.ops[0].duplicate())
    }

    /// Ends the run on a failure: the history keeps what was applied.
    fn halt(&mut self, message: String) -> (s: Step)
        requires
            old(self).phase == Phase::Executing,
            old(self).queue_matches(),
            old(self).queue@.len() > 0,
        ensures
            final(self).wf(),
            final(self).planned() == old(self).planned(),
            final(self).history_changes() == old(self).history_changes(),
            final(self).history_undo() == old(self).history_undo(),
            final(self).backup_dir_spec() == old(self).backup_dir_spec(),
            s == Step::Finished(Err(message)),
            final(self).phase_spec() == Phase::HaltedOnApplyError,
    {
        self.phase = Phase::HaltedOnApplyError;
        Step::Finished(Err(message))
    }

    /// Takes the outcome of the awaited operation and says what to do next.
    ///
    /// While executing: the text read for a change is planned; an invalid
    /// plan, a failed operation or an unexpected outcome ends the run at once
    /// and keeps the history as it was, so the failing change and those after
    /// it are neither recorded nor touched. A done operation leads to the next
    /// one of the plan; after the last, the change is recorded with the
    /// plan's undoing operation and the next change starts.
    ///
    /// While reverting, the most recent entry leaves the history once its
    /// undoing operation is done; a failure ends the revert with that entry
    /// and every older one still on record.
    pub fn on_outcome(&mut self, outcome: Outcome) -> (s: Step)
        requires
            old(self).wf(),
            old(self).awaiting() is Some,
        ensures
            final(self).wf(),
            final(self).planned() == old(self).planned(),
            final(self).backup_dir_spec() == old(self).backup_dir_spec(),
            step_agrees(s, *final(self)),
            old(self).phase_spec() == Phase::Executing ==> advances(*old(self), outcome, *final(self), s),
            old(self).phase_spec() == Phase::Executing ==> match old(self).plan_in_progress() {
                None => match outcome {
                    Outcome::Content(t) => match old(self).in_progress()->Some_0.plan_spec(
                        old(self).backup_dir_spec(),
                        t@,
                    ) {
                        Some(p) => {
                            &&& final(self).phase_spec() == Phase::Executing
                            &&& final(self).in_progress() == old(self).in_progress()
                            &&& final(self).plan_in_progress() == Some(p)
                            &&& final(self).text_read() == t@
                            &&& final(self).ops_done() == 0
                            &&& asks_for(s, p.0[0])
                            &&& final(self).history_changes() == old(self).history_changes()
                            &&& final(self).history_undo() == old(self).history_undo()
                        },
                        None => {
                            &&& halted_keeping(s, *final(self), *old(self))
                            &&& s matches Step::Finished(Err(e)) && e@ == old(self).in_progress()->Some_0.apply_error_spec(t@)
                        },
                    },
                    _ => halted_keeping(s, *final(self), *old(self)),
                },
                Some(p) => match outcome {
                    Outcome::Done => if old(self).ops_done() + 1 < p.0.len() {
                        &&& final(self).phase_spec() == Phase::Executing
                        &&& final(self).in_progress() == old(self).in_progress()
                        &&& final(self).plan_in_progress() == Some(p)
                        &&& final(self).text_read() == old(self).text_read()
                        &&& final(self).ops_done() == old(self).ops_done() + 1
                        &&& asks_for(s, p.0[old(self).ops_done() + 1int])
                        &&& final(self).history_changes() == old(self).history_changes()
                        &&& final(self).history_undo() == old(self).history_undo()
                    } else {
                        &&& final(self).history_changes() == old(self).history_changes().push(
                            old(self).in_progress()->Some_0,
                        )
                        &&& final(self).history_undo() == old(self).history_undo().push(p.1)
                        &&& s is Finished ==> s == Step::Finished(Ok(())) && final(self).phase_spec()
                            == Phase::AllApplied
                        &&& s is Perform ==> final(self).at_change_start()
                    },
                    _ => halted_keeping(s, *final(self), *old(self)),
                },
            },
            old(self).phase_spec() == Phase::Reverting && outcome is Done ==> {
                &&& final(self).history_changes() == old(self).history_changes().drop_last()
                &&& final(self).history_undo() == old(self).history_undo().drop_last()
                &&& s is Finished ==> s == Step::Finished(Ok(())) && final(self).phase_spec()
                    == Phase::FullyReverted && final(self).history_changes().len() == 0
                &&& s is Perform ==> final(self).phase_spec() == Phase::Reverting
            },
            old(self).phase_spec() == Phase::Reverting && !(outcome is Done) ==> {
                &&& s is Finished && s->Finished_0 is Err
                &&& final(self).phase_spec() == Phase::HaltedOnRevertError
                &&& final(self).history_changes() == old(self).history_changes()
                &&& final(self).history_undo() == old(self).history_undo()
            },
            outcome matches Outcome::Failed(m) ==> s == Step::Finished(Err(m)),
    {
        if self.phase == Phase::Reverting {
            return match outcome {
                Outcome::Done => {
                    let _ = self.history.pop();
                    proof {
                        assert(self.history_changes() =~= old(self).history_changes().drop_last());
                        assert(self.history_undo() =~= old(self).history_undo().drop_last());
                    }
                    self.start_undo()
                },
                Outcome::Failed(m) => {
                    self.phase = Phase::HaltedOnRevertError;
                    Step::Finished(Err(m))
                },
                Outcome::Content(_) => {
                    self.phase = Phase::HaltedOnRevertError;
                    Step::Finished(Err(String::from_str("an undoing operation returned text")))
                },
            };
        }
        let n = self.queue.len();
        if self.revert.is_none() {
            match outcome {
                Outcome::Content(text) => {
                    self.text = Ghost(text@);
                    let planned = self.queue[n - 1].apply(self.backup_dir.as_str(), text.as_str());
                    match planned {
                        Ok(plan) => {
                            proof {
                                assert(ops_view(plan.ops@).len() == plan.ops@.len());
                            }
                            self.begin(plan)
                        },
                        Err(e) => self.halt(e),
                    }
                },
                Outcome::Failed(m) => self.halt(m),
                Outcome::Done => self.halt(String::from_str("a read returned no text")),
            }
        } else {
            proof {
                lemma_plan_len(self.queue@.last(), self.backup_dir@, self.text@);
                assert(ops_view(self.ops@)[self.next_op as int] == self.ops@[self.next_op as int]@);
            }
            match outcome {
                Outcome::Done => {
                    let count = self.ops.len();
                    assert(self.next_op < count);
                    self.next_op = self.next_op + 1;
                    if self.next_op < count {
                        let s = Step::Perform(self.ops[self.next_op].duplicate());
                        proof {
                            assert(ops_view(self.ops@)[self.next_op as int] == self.ops@[self.next_op as int]@);
                        }
                        return s;
                    }
                    self.finish_change()
                },
                Outcome::Failed(m) => self.halt(m),
                Outcome::Content(_) => self.halt(String::from_str("a write returned text")),
            }
        }
    }

    /// Records the change whose operations are all done, then goes on.
    fn finish_change(&mut self) -> (s: Step)
        requires
            old(self).phase == Phase::Executing,
            old(self).queue_matches(),
            old(self).queue@.len() > 0,
            old(self).revert is Some,
        ensures
            final(self).wf(),
            final(self).planned() == old(self).planned(),
            final(self).backup_dir_spec() == old(self).backup_dir_spec(),
            final(self).history_changes() == old(self).history_changes().push(old(self).queue@.last()),
            final(self).history_undo() == old(self).history_undo().push(old(self).revert->Some_0@),
            step_agrees(s, *final(self)),
            s is Finished ==> s == Step::Finished(Ok(())) && final(self).phase_spec() == Phase::AllApplied,
            s is Perform ==> final(self).at_change_start(),
            s is Perform ==> final(self).work_left() + 4 <= 4 * old(self).queue@.len(),
    {
        let ghost old_hist = self.history_changes();
        let ghost old_undo = self.history_undo();
        let change = self.queue.pop().unwrap();
        let revert = self.revert.take().unwrap();
        let ghost undo = revert@;
        self.history.push(Entry { change, revert });
        self.ops = Vec::new();
        self.next_op = 0;
        proof {
            assert(self.history_changes() =~= old_hist.push(change));
            assert(self.history_undo() =~= old_undo.push(undo));
            let h = self.history@.len();
            let n = self.planned@.len();
            assert(change == self.planned@[n - 1 - (self.queue@.len())]);
            assert(self.planned@.take(h as int) =~= old_hist.push(change));
            assert forall|i: int| 0 <= i < self.queue@.len() implies #[trigger] self.queue@[i]
                == self.planned@[n - 1 - i] by {
                assert(self.queue@[i] == old(self).queue@[i]);
            }
        }
        self.start_next()
    }

    /// Undoes the most recent entry, or ends the revert when none is left.
    fn start_undo(&mut self) -> (s: Step)
        requires
            old(self).phase == Phase::Reverting || old(self).history@.len() == 0,
        ensures
            final(self).wf(),
            final(self).backup_dir_spec() == old(self).backup_dir_spec(),
            final(self).planned() == old(self).planned(),
            final(self).history_changes() == old(self).history_changes(),
            final(self).history_undo() == old(self).history_undo(),
            step_agrees(s, *final(self)),
            s is Finished ==> s == Step::Finished(Ok(())) && final(self).phase_spec()
                == Phase::FullyReverted && final(self).history_changes().len() == 0,
            s is Perform ==> final(self).phase_spec() == Phase::Reverting,
    {
        let n = self.history.len();
        if n == 0 {
            self.phase = Phase::FullyReverted;
            return Step::Finished(Ok(()));
        }
        self.phase = Phase::Reverting;
        Step::Perform(self.history[n - 1].revert.op())
    }

    /// Starts undoing the history, most recent entry first.
    pub fn revert(&mut self) -> (s: Step)
        requires
            old(self).wf(),
            old(self).awaiting() is None,
        ensures
            final(self).wf(),
            final(self).history_changes() == old(self).history_changes(),
            final(self).history_undo() == old(self).history_undo(),
            step_agrees(s, *final(self)),
            s is Finished ==> s == Step::Finished(Ok(())) && final(self).phase_spec()
                == Phase::FullyReverted && final(self).history_changes().len() == 0,
            s is Perform ==> final(self).phase_spec() == Phase::Reverting,
            old(self).history_changes().len() == 0 ==> s == Step::Finished(Ok(())),
            old(self).history_changes().len() > 0 ==> asks_for(s, old(self).history_undo().last()),
    {
        self.phase = Phase::Reverting;
        self.start_undo()
    }
}

} // verus!
