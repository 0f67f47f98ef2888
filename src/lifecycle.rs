use vstd::prelude::*;
use crate::dispatch::{begin, first_step, progress, resume, Progress, Stage};
use crate::session::{ExecutionError, Reply, Step};
use crate::task::{Action, ScrapingTask};

verus! {

/// Where a task run stands.
#[derive(Debug, Clone, Copy, PartialEq, Eq)]
pub enum Phase {
    /// The action at the current position is under way, at this stage.
    Acting(Stage),
    /// The session was asked to close; its acknowledgement is awaited.
    Closing,
    /// The session is released and the outcome is known.
    Finished,
}

/// The abstract state of a task run.
pub struct RunState {
    /// The task's actions, in execution order.
    pub actions: Seq<Action>,
    /// The index of the action under way (or of the first one not run).
    pub position: nat,
    pub phase: Phase,
    /// The values extracted so far, in the order the actions produced them.
    pub extracted: Seq<String>,
    /// The error that stopped the task, if one did.
    pub failure: Option<ExecutionError>,
}

pub open spec fn well_formed(s: RunState) -> bool {
    &&& s.position <= s.actions.len()
    &&& s.phase is Acting ==> s.position < s.actions.len()
    &&& s.phase is Acting ==> s.failure is None
}

/// Starts action `position`, or asks for the session to close when no
/// action is left.
pub open spec fn enter(actions: Seq<Action>, position: nat, extracted: Seq<String>) -> (RunState, Option<Step>) {
    if position < actions.len() {
        let (stage, step) = first_step(actions[position as int]);
        (RunState { actions, position, phase: Phase::Acting(stage), extracted, failure: None }, Some(step))
    } else {
        (RunState { actions, position, phase: Phase::Closing, extracted, failure: None }, Some(Step::Close))
    }
}

/// The state and the first step of a run of `actions`, on a freshly opened
/// session.
pub open spec fn opening(actions: Seq<Action>) -> (RunState, Option<Step>) {
    enter(actions, 0, Seq::empty())
}

/// What a run in state `s` does with the session's `reply`: the next state
/// and the next step, if any.
///
/// A completed action hands on to the next one; a failed action ends the
/// task and closes the session at once; the close's acknowledgement (or its
/// failure) finishes the run.
pub open spec fn after(s: RunState, reply: Reply) -> (RunState, Option<Step>) {
    match s.phase {
        Phase::Acting(stage) => match progress(s.actions[s.position as int], stage, reply) {
            Progress::Next { stage, step } => (
                RunState { phase: Phase::Acting(stage), ..s },
                Some(step),
            ),
            Progress::Complete(v) => enter(
                s.actions,
                s.position + 1,
                if v is Some { s.extracted.push(v->0) } else { s.extracted },
            ),
            Progress::Fail(e) => (
                RunState { phase: Phase::Closing, failure: Some(e), ..s },
                Some(Step::Close),
            ),
        },
        Phase::Closing => (RunState { phase: Phase::Finished, ..s }, None),
        Phase::Finished => (s, None),
    }
}

/// The state reached, and every step issued (the opening one first), when a
/// run of `actions` receives `replies` in turn.
pub open spec fn run(actions: Seq<Action>, replies: Seq<Reply>) -> (RunState, Seq<Option<Step>>)
    decreases replies.len(),
{
    if replies.len() == 0 {
        let (s, step) = opening(actions);
        (s, seq![step])
    } else {
        let (s, steps) = run(actions, replies.drop_last());
        let (t, step) = after(s, replies.last());
        (t, steps.push(step))
    }
}

/// How many of `steps` ask the session to close.
pub open spec fn closes(steps: Seq<Option<Step>>) -> nat
    decreases steps.len(),
{
    if steps.len() == 0 {
        0
    } else {
        closes(steps.drop_last()) + if steps.last() == Some(Step::Close) { 1nat } else { 0nat }
    }
}

/// Whatever the session replies, a run never asks it to close while an
/// action is under way, and asks exactly once as soon as the actions are
/// over: when they all completed, and likewise when one failed and stopped
/// the task early. So a finished run, and every run that ended in an error,
/// has released its session exactly once.
pub proof fn lemma_session_closed_once(actions: Seq<Action>, replies: Seq<Reply>)
    ensures
        well_formed(run(actions, replies).0),
        closes(run(actions, replies).1) == if run(actions, replies).0.phase is Acting { 0nat } else { 1nat },
        run(actions, replies).0.phase is Finished ==> closes(run(actions, replies).1) == 1,
        run(actions, replies).0.failure is Some ==> closes(run(actions, replies).1) == 1,
    decreases replies.len(),
{
    if replies.len() == 0 {
        let steps = run(actions, replies).1;
        assert(steps.drop_last() =~= Seq::<Option<Step>>::empty());
        assert(closes(Seq::<Option<Step>>::empty()) == 0);
        if actions.len() > 0 {
            assert(first_step(actions[0]).1 != Step::Close);
        }
    } else {
        lemma_session_closed_once(actions, replies.drop_last());
        let (s, steps) = run(actions, replies.drop_last());
        let (t, step) = after(s, replies.last());
        assert(run(actions, replies).1 == steps.push(step));
        assert(steps.push(step).drop_last() =~= steps);
        assert(closes(steps.push(step)) == closes(steps) + if step == Some(Step::Close) { 1nat } else { 0nat });
        if let Phase::Acting(stage) = s.phase {
            let p = progress(s.actions[s.position as int], stage, replies.last());
            assert(p is Next ==> p->step != Step::Close);
            if s.position + 1 < s.actions.len() {
                assert(first_step(s.actions[s.position + 1 as int]).1 != Step::Close);
            }
        }
    }
}

/// Whatever the session replies, once a run is past its actions it has
/// either completed every one of them, or stopped at the first that failed,
/// and no later action was begun.
pub proof fn lemma_stops_at_first_failure(actions: Seq<Action>, replies: Seq<Reply>)
    ensures
        ({
            let s = run(actions, replies).0;
            &&& s.phase is Acting || s.failure is Some ==> s.position < actions.len()
            &&& !(s.phase is Acting) && s.failure is None ==> s.position == actions.len()
            &&& s.actions == actions
        }),
    decreases replies.len(),
{
    if replies.len() > 0 {
        lemma_stops_at_first_failure(actions, replies.drop_last());
        lemma_session_closed_once(actions, replies.drop_last());
    }
}

/// One task run against one browser session: the session has been opened,
/// and the run says which step the session performs next until it is
/// released.
pub struct TaskRun {
    task: ScrapingTask,
    position: usize,
    phase: Phase,
    extracted: Vec<String>,
    failure: Option<ExecutionError>,
}

impl View for TaskRun {
    type V = RunState;

    closed spec fn view(&self) -> RunState {
        RunState {
            actions: self.task.actions@,
            position: self.position as nat,
            phase: self.phase,
            extracted: self.extracted@,
            failure: self.failure,
        }
    }
}

impl TaskRun {
    fn enter_current(&mut self) -> (r: Option<Step>)
        requires
            old(self).position <= old(self).task.actions.len(),
        ensures
            (final(self)@, r) == enter(old(self)@.actions, old(self)@.position, old(self)@.extracted),
            final(self).task == old(self).task,
    {
        self.failure = None;
        if self.position < self.task.actions.len() {
            let (stage, step) = begin(&self.task.actions[self.position]);
            self.phase = Phase::Acting(stage);
            Some(step)
        } else {
            self.phase = Phase::Closing;
            Some(Step::Close)
        }
    }

    /// Starts running `task` on a freshly opened session; returns the run and
    /// the first step the session performs.
    pub fn start(task: ScrapingTask) -> (r: (TaskRun, Option<Step>))
        ensures
            (r.0@, r.1) == opening(task.actions@),
            well_formed(r.0@),
    {
        let mut run = TaskRun {
            task,
            position: 0,
            phase: Phase::Closing,
            extracted: Vec::new(),
            failure: None,
        };
        let step = run.enter_current();
        (run, step)
    }

    /// Feeds the session's reply to the last step into the run; returns the
    /// next step, or `None` once the session is released.
    pub fn advance(&mut self, reply: Reply) -> (r: Option<Step>)
        requires
            well_formed(old(self)@),
        ensures
            (final(self)@, r) == after(old(self)@, reply),
            well_formed(final(self)@),
    {
        match self.phase {
            Phase::Acting(stage) => {
                assert(self.position < self.task.actions.len());
                let p = resume(&self.task.actions[self.position], stage, reply);
                match p {
                    Progress::Next { stage, step } => {
                        self.phase = Phase::Acting(stage);
                        Some(step)
                    },
                    Progress::Complete(v) => {
                        match v {
                            Some(text) => self.extracted.push(text),
                            None => {},
                        }
                        self.position = self.position + 1;
                        self.enter_current()
                    },
                    Progress::Fail(e) => {
                        self.phase = Phase::Closing;
                        self.failure = Some(e);
                        Some(Step::Close)
                    },
                }
            },
            Phase::Closing => {
                self.phase = Phase::Finished;
                None
            },
            Phase::Finished => None,
        }
    }

    /// The position of the action that failed and stopped the task, if one
    /// did.
    pub fn failed_at(&self) -> (r: Option<usize>)
        ensures
            r == if self@.failure is Some { Some(self@.position as usize) } else { None::<usize> },
    {
        match self.failure {
            Some(_) => Some(self.position),
            None => None,
        }
    }

    /// Whether the session is released and the outcome known.
    pub fn is_finished(&self) -> (r: bool)
        ensures
            r == (self@.phase is Finished),
    {
        match self.phase {
            Phase::Finished => true,
            _ => false,
        }
    }

    /// The outcome of a finished run: every extracted value in order, or the
    /// error that stopped the task. `None` while the run is not finished.
    pub fn into_outcome(self) -> (r: Option<Result<Vec<String>, ExecutionError>>)
        ensures
            r is None <==> !(self@.phase is Finished),
            r matches Some(Ok(v)) ==> self@.failure is None && v@ == self@.extracted,
            r matches Some(Err(e)) ==> self@.failure == Some(e),
            self@.phase is Finished && self@.failure is None ==> r is Some && r->0 is Ok,
    {
        match self.phase {
            Phase::Finished => match self.failure {
                Some(e) => Some(Err(e)),
                None => Some(Ok(self.extracted)),
            },
            _ => None,
        }
    }
}

} // verus!
