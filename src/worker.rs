use vstd::prelude::*;

use crate::message::{forwarded, is_forwarded, RawMessage};
use crate::options::{cargo_args, cargo_args_spec, strings_view, CheckOptions};

verus! {

/// What one run publishes to the supervisor.
#[derive(Debug)]
pub enum CheckEvent {
    Begin,
    Msg(RawMessage),
    End,
}

/// How a run is to be set up: not at all, or with this argument list.
#[derive(Debug)]
pub enum WorkerPlan {
    /// No thread and no process; the run's event stream never yields.
    Inactive,
    /// Run cargo with these arguments in the workspace root.
    Active { args: Vec<String> },
}

/// The plan that the options give for a workspace root.
pub open spec fn plan_matches(plan: WorkerPlan, options: CheckOptions, workspace_root: Seq<char>) -> bool {
    if options.enable {
        match plan {
            WorkerPlan::Active { args } => strings_view(args@) == cargo_args_spec(
                options.command@,
                workspace_root,
                options.all_targets,
                options.extra_args(),
            ),
            WorkerPlan::Inactive => false,
        }
    } else {
        plan is Inactive
    }
}

/// Sets up one run: inactive when the options disable checking, else the
/// argument list for cargo.
pub fn plan_worker(options: &CheckOptions, workspace_root: &str) -> (r: WorkerPlan)
    requires
        options.enable ==> options.args@.len() + 6 <= usize::MAX,
    ensures
        plan_matches(r, *options, workspace_root@),
{
    if options.enable {
        WorkerPlan::Active { args: cargo_args(options, workspace_root) }
    } else {
        WorkerPlan::Inactive
    }
}

/// Where a run stands.
#[derive(Debug, Clone, Copy, PartialEq, Eq, Structural)]
pub enum RunPhase {
    NotStarted,
    Running,
    Finished,
}

/// The events that one run publishes, in order; `emitted` records them.
pub struct WorkerRun {
    pub phase: RunPhase,
    pub emitted: Ghost<Seq<CheckEvent>>,
}

/// Every event after the first, up to `end`, is a message.
pub open spec fn messages_between(events: Seq<CheckEvent>, end: int) -> bool {
    forall|k: int| 1 <= k < end ==> #[trigger] events[k] is Msg
}

impl WorkerRun {
    /// The record fits the phase: nothing before the start; `Begin` and then
    /// messages while running; `Begin`, messages and `End` once finished.
    pub open spec fn wf(&self) -> bool {
        let e = self.emitted@;
        match self.phase {
            RunPhase::NotStarted => e.len() == 0,
            RunPhase::Running => e.len() >= 1 && e[0] is Begin && messages_between(e, e.len() as int),
            RunPhase::Finished => e.len() >= 2 && e[0] is Begin && e.last() is End
                && messages_between(e, e.len() - 1),
        }
    }

    pub fn new() -> (r: WorkerRun)
        ensures
            r.wf(),
            r.phase == RunPhase::NotStarted,
    {
        WorkerRun { phase: RunPhase::NotStarted, emitted: Ghost(Seq::empty()) }
    }

    /// The first event of a run.
    pub fn begin(&mut self) -> (r: CheckEvent)
        requires
            old(self).wf(),
            old(self).phase == RunPhase::NotStarted,
        ensures
            final(self).wf(),
            r is Begin,
            final(self).phase == RunPhase::Running,
            final(self).emitted@ == old(self).emitted@.push(r),
    {
        self.phase = RunPhase::Running;
        let ghost e = self.emitted@.push(CheckEvent::Begin);
        self.emitted = Ghost(e);
        CheckEvent::Begin
    }

    /// A message that the process produced: published when it is forwarded,
    /// dropped otherwise.
    pub fn message(&mut self, m: RawMessage) -> (r: Option<CheckEvent>)
        requires
            old(self).wf(),
            old(self).phase == RunPhase::Running,
        ensures
            final(self).wf(),
            final(self).phase == RunPhase::Running,
            forwarded(m) ==> r == Some(CheckEvent::Msg(m)) && final(self).emitted@ == old(
                self,
            ).emitted@.push(CheckEvent::Msg(m)),
            !forwarded(m) ==> r is None && final(self).emitted@ == old(self).emitted@,
    {
        if is_forwarded(&m) {
            let ghost e = self.emitted@.push(CheckEvent::Msg(m));
            self.emitted = Ghost(e);
            Some(CheckEvent::Msg(m))
        } else {
            None
        }
    }

    /// The last event of a run, whether the process succeeded or not.
    pub fn end(&mut self) -> (r: CheckEvent)
        requires
            old(self).wf(),
            old(self).phase == RunPhase::Running,
        ensures
            final(self).wf(),
            r is End,
            final(self).phase == RunPhase::Finished,
            final(self).emitted@ == old(self).emitted@.push(r),
    {
        self.phase = RunPhase::Finished;
        let ghost e = self.emitted@.push(CheckEvent::End);
        self.emitted = Ghost(e);
        CheckEvent::End
    }
}

/// A finished run published exactly one `Begin`, as its first event and before
/// any message, and exactly one `End`, as its last event.
pub proof fn lemma_one_begin_one_end(run: &WorkerRun)
    requires
        run.wf(),
        run.phase == RunPhase::Finished,
    ensures
        run.emitted@[0] is Begin,
        run.emitted@.last() is End,
        forall|k: int| 0 <= k < run.emitted@.len() && (#[trigger] run.emitted@[k]) is Begin ==> k == 0,
        forall|k: int|
            0 <= k < run.emitted@.len() && (#[trigger] run.emitted@[k]) is End ==> k
                == run.emitted@.len() - 1,
{
}

} // verus!
