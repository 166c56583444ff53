use vstd::prelude::*;

use cargo_metadata::diagnostic::Diagnostic;

use crate::message::RawMessage;
use crate::options::CheckOptions;
use crate::worker::{plan_matches, plan_worker, CheckEvent, WorkerPlan};

verus! {

/// A command to the supervisor.
#[derive(Debug, Clone, Copy, PartialEq, Eq, Structural)]
pub enum CheckCommand {
    /// Request a restart of the check run.
    Update,
}

/// A progress notification for the editor.
#[derive(Debug)]
pub enum Progress {
    Begin { title: String },
    Report { message: String },
    End,
}

/// A request to the editor integration.
#[derive(Debug)]
pub enum TaskRequest {
    /// Drop every diagnostic published so far.
    ClearDiagnostics,
    /// Show check progress.
    Status(Progress),
    /// Translate this compiler diagnostic and add each result with its fixes.
    MapDiagnostic(Diagnostic),
}

/// What a task request says, with its strings as character sequences.
pub enum TaskView {
    ClearDiagnostics,
    Begin(Seq<char>),
    Report(Seq<char>),
    End,
    MapDiagnostic(Diagnostic),
}

impl TaskRequest {
    pub open spec fn view_task(&self) -> TaskView {
        match self {
            TaskRequest::ClearDiagnostics => TaskView::ClearDiagnostics,
            TaskRequest::Status(Progress::Begin { title }) => TaskView::Begin(title@),
            TaskRequest::Status(Progress::Report { message }) => TaskView::Report(message@),
            TaskRequest::Status(Progress::End) => TaskView::End,
            TaskRequest::MapDiagnostic(d) => TaskView::MapDiagnostic(*d),
        }
    }
}

pub open spec fn tasks_view(ts: Seq<TaskRequest>) -> Seq<TaskView> {
    ts.map_values(|t: TaskRequest| t.view_task())
}

/// The title of the progress shown while a run goes on.
pub open spec fn progress_title() -> Seq<char> {
    "Running 'cargo check'"@
}

/// The task requests that one event of a run turns into.
pub open spec fn event_tasks(e: CheckEvent) -> Seq<TaskView> {
    match e {
        CheckEvent::Begin => seq![TaskView::Begin(progress_title())],
        CheckEvent::End => seq![TaskView::End],
        CheckEvent::Msg(RawMessage::CompilerArtifact { target_name, .. }) => seq![
            TaskView::Report(target_name@),
        ],
        CheckEvent::Msg(RawMessage::CompilerMessage { diagnostic }) => seq![
            TaskView::MapDiagnostic(diagnostic),
        ],
        CheckEvent::Msg(_) => Seq::empty(),
    }
}

/// Turns one event of a run into task requests.
pub fn event_to_tasks(event: CheckEvent) -> (r: Vec<TaskRequest>)
    ensures
        tasks_view(r@) == event_tasks(event),
{
    let ghost ev = event;
    let out = match event {
        CheckEvent::Begin => vec![
            TaskRequest::Status(Progress::Begin { title: String::from_str("Running 'cargo check'") }),
        ],
        CheckEvent::End => vec![TaskRequest::Status(Progress::End)],
        CheckEvent::Msg(RawMessage::CompilerArtifact { target_name, .. }) => vec![
            TaskRequest::Status(Progress::Report { message: target_name }),
        ],
        CheckEvent::Msg(RawMessage::CompilerMessage { diagnostic }) => vec![
            TaskRequest::MapDiagnostic(diagnostic),
        ],
        CheckEvent::Msg(_) => Vec::new(),
    };
    assert(tasks_view(out@) =~= event_tasks(ev));
    out
}

/// The control state of the supervisor: whether a restart is pending, the
/// number of the current run, and whether its event stream can still yield.
#[derive(Debug, Clone, Copy, PartialEq, Eq, Structural)]
pub struct Control {
    pub restart_pending: bool,
    pub worker: u64,
    pub listening: bool,
}

/// One input of the control loop.
#[derive(Debug)]
pub enum SupervisorInput {
    Command(CheckCommand),
    /// The command channel closed: the loop ends.
    CommandsClosed,
    /// An event from the run numbered `worker`.
    Event { worker: u64, event: CheckEvent },
    /// The event stream of the run numbered `worker` closed.
    EventsClosed { worker: u64 },
}

/// The control state after one input.
pub open spec fn control_after_input(c: Control, input: SupervisorInput) -> Control {
    match input {
        SupervisorInput::Command(_) => Control { restart_pending: true, ..c },
        SupervisorInput::EventsClosed { worker } => if worker == c.worker {
            Control { listening: false, ..c }
        } else {
            c
        },
        _ => c,
    }
}

/// The task requests delivered for an event of the run numbered `worker`:
/// only the current run's events, and only while its stream is live.
pub open spec fn delivered_tasks(c: Control, worker: u64, e: CheckEvent) -> Seq<TaskView> {
    if worker == c.worker && c.listening {
        event_tasks(e)
    } else {
        Seq::empty()
    }
}

/// The task requests that one input gives, before the restart check.
pub open spec fn input_tasks(c: Control, input: SupervisorInput) -> Seq<TaskView> {
    match input {
        SupervisorInput::Event { worker, event } => delivered_tasks(c, worker, event),
        _ => Seq::empty(),
    }
}

/// The control state after the restart check: a pending restart starts the
/// next run, which can yield events only when checking is enabled.
pub open spec fn control_after_recheck(c: Control, enabled: bool) -> Control {
    if c.restart_pending {
        Control { restart_pending: false, worker: (c.worker + 1) as u64, listening: enabled }
    } else {
        c
    }
}

/// The task requests that the restart check gives.
pub open spec fn recheck_tasks(c: Control) -> Seq<TaskView> {
    if c.restart_pending {
        seq![TaskView::ClearDiagnostics]
    } else {
        Seq::empty()
    }
}

/// What the loop does with one input, before the restart check.
#[derive(Debug)]
pub enum Reaction {
    /// End the loop.
    Shutdown,
    /// Stop listening to the current run's stream, which has closed.
    Silence,
    /// Send these task requests, in order.
    Tasks(Vec<TaskRequest>),
}

/// What the loop does in one round: send `tasks` in order, stop listening to
/// the current run when `silence_worker`, end when `shutdown`, and last, when
/// `restart` holds a plan, tear the current run down and start that one.
#[derive(Debug)]
pub struct Step {
    pub tasks: Vec<TaskRequest>,
    pub silence_worker: bool,
    pub shutdown: bool,
    pub restart: Option<WorkerPlan>,
}

/// The control loop's state: the options and workspace root each run is set up
/// from, and the control state.
#[derive(Debug)]
pub struct Supervisor {
    pub options: CheckOptions,
    pub workspace_root: String,
    pub control: Control,
}

impl Supervisor {
    /// Starts idle, with an inactive run numbered 0.
    pub fn new(options: CheckOptions, workspace_root: String) -> (r: Supervisor)
        ensures
            r.options == options,
            r.workspace_root == workspace_root,
            r.control == (Control { restart_pending: false, worker: 0, listening: false }),
    {
        Supervisor {
            options,
            workspace_root,
            control: Control { restart_pending: false, worker: 0, listening: false },
        }
    }

    /// Handles one input.
    pub fn handle_input(&mut self, input: SupervisorInput) -> (r: Reaction)
        ensures
            final(self).options == old(self).options,
            final(self).workspace_root == old(self).workspace_root,
            final(self).control == control_after_input(old(self).control, input),
            match r {
                Reaction::Shutdown => input is CommandsClosed,
                Reaction::Silence => input is EventsClosed && input_tasks(old(self).control, input)
                    == Seq::<TaskView>::empty(),
                Reaction::Tasks(ts) => !(input is CommandsClosed) && tasks_view(ts@) == input_tasks(
                    old(self).control,
                    input,
                ),
            },
            input is EventsClosed ==> (r is Silence <==> input->EventsClosed_worker
                == old(self).control.worker),
    {
        match input {
            SupervisorInput::Command(CheckCommand::Update) => {
                self.control.restart_pending = true;
                Reaction::Tasks(Vec::new())
            },
            SupervisorInput::CommandsClosed => Reaction::Shutdown,
            SupervisorInput::Event { worker, event } => {
                if worker == self.control.worker && self.control.listening {
                    Reaction::Tasks(event_to_tasks(event))
                } else {
                    Reaction::Tasks(Vec::new())
                }
            },
            SupervisorInput::EventsClosed { worker } => {
                if worker == self.control.worker {
                    self.control.listening = false;
                    Reaction::Silence
                } else {
                    Reaction::Tasks(Vec::new())
                }
            },
        }
    }

    /// The restart check: whether a restart is pending. Changes nothing.
    pub fn should_recheck(&self) -> (r: bool)
        ensures
            r == self.control.restart_pending,
    {
        self.control.restart_pending
    }

    /// Carries out a pending restart: clears the request, moves to the next
    /// run and returns that run's plan.
    pub fn begin_restart(&mut self) -> (r: WorkerPlan)
        requires
            old(self).control.restart_pending,
            old(self).control.worker < u64::MAX,
            old(self).options.enable ==> old(self).options.args@.len() + 6 <= usize::MAX,
        ensures
            final(self).options == old(self).options,
            final(self).workspace_root == old(self).workspace_root,
            final(self).control == control_after_recheck(
                old(self).control,
                old(self).options.enable,
            ),
            plan_matches(r, old(self).options, old(self).workspace_root@),
    {
        self.control.restart_pending = false;
        self.control.worker = self.control.worker + 1;
        self.control.listening = self.options.enable;
        plan_worker(&self.options, self.workspace_root.as_str())
    }

    /// One round of the control loop: the inputs at hand (the one that woke
    /// the loop and every command pending behind it), then one restart check.
    /// The round ends the loop when any input is the closing of the commands.
    pub fn step(&mut self, inputs: Vec<SupervisorInput>) -> (r: Step)
        requires
            old(self).control.worker < u64::MAX,
            old(self).options.enable ==> old(self).options.args@.len() + 6 <= usize::MAX,
        ensures
            final(self).options == old(self).options,
            final(self).workspace_root == old(self).workspace_root,
            ({
                let c = old(self).control;
                let mid = controls_after(c, inputs@);
                &&& r.shutdown == closes_commands(inputs@)
                &&& r.silence_worker == closes_stream_of(inputs@, c.worker)
                &&& r.shutdown ==> final(self).control == mid && r.restart is None
                    && tasks_view(r.tasks@) == tasks_after(c, inputs@)
                &&& !r.shutdown ==> final(self).control == control_after_recheck(
                    mid,
                    old(self).options.enable,
                ) && tasks_view(r.tasks@) == tasks_after(c, inputs@) + recheck_tasks(mid)
                    && r.restart.is_some() == mid.restart_pending
                &&& (r.restart matches Some(p) ==> plan_matches(
                    p,
                    old(self).options,
                    old(self).workspace_root@,
                ))
            }),
    {
        let ghost c = self.control;
        let ghost all = inputs@;
        let mut rest = inputs;
        let total = rest.len();
        let mut tasks: Vec<TaskRequest> = Vec::new();
        let mut silence_worker = false;
        let mut shutdown = false;
        let mut i: usize = 0;
        while rest.len() > 0
            invariant
                i <= all.len(),
                all.len() == total,
                rest@ == all.subrange(i as int, all.len() as int),
                self.options == old(self).options,
                self.workspace_root == old(self).workspace_root,
                self.control == controls_after(c, all.take(i as int)),
                self.control.worker == c.worker,
                tasks_view(tasks@) == tasks_after(c, all.take(i as int)),
                shutdown == closes_commands(all.take(i as int)),
                silence_worker == closes_stream_of(all.take(i as int), c.worker),
            decreases rest@.len(),
        {
            assert(rest@.len() == all.len() - i);
            let input = rest.remove(0);
            let ghost before = tasks@;
            proof {
                assert(all.take(i + 1).drop_last() =~= all.take(i as int));
                assert(all.take(i + 1).last() == input);
                lemma_input_keeps_run(self.control, input);
            }
            match self.handle_input(input) {
                Reaction::Shutdown => {
                    shutdown = true;
                },
                Reaction::Silence => {
                    silence_worker = true;
                },
                Reaction::Tasks(ts) => {
                    let mut ts = ts;
                    tasks.append(&mut ts);
                },
            }
            assert(tasks_view(tasks@) =~= tasks_view(before) + input_tasks(
                controls_after(c, all.take(i as int)),
                all[i as int],
            ));
            i = i + 1;
        }
        assert(all.take(i as int) =~= all);
        if shutdown {
            return Step { tasks, silence_worker, shutdown, restart: None };
        }
        let ghost before = tasks@;
        let restart = if self.should_recheck() {
            tasks.push(TaskRequest::ClearDiagnostics);
            Some(self.begin_restart())
        } else {
            None
        };
        assert(tasks_view(tasks@) =~= tasks_view(before) + recheck_tasks(controls_after(c, all)));
        Step { tasks, silence_worker, shutdown, restart }
    }
}

/// The control state after a sequence of inputs, with no restart check between.
pub open spec fn controls_after(c: Control, inputs: Seq<SupervisorInput>) -> Control
    decreases inputs.len(),
{
    if inputs.len() == 0 {
        c
    } else {
        control_after_input(controls_after(c, inputs.drop_last()), inputs.last())
    }
}

/// The task requests that a sequence of inputs gives, before the restart check.
pub open spec fn tasks_after(c: Control, inputs: Seq<SupervisorInput>) -> Seq<TaskView>
    decreases inputs.len(),
{
    if inputs.len() == 0 {
        Seq::empty()
    } else {
        tasks_after(c, inputs.drop_last()) + input_tasks(
            controls_after(c, inputs.drop_last()),
            inputs.last(),
        )
    }
}

/// Whether one of the inputs is the closing of the command channel.
pub open spec fn closes_commands(inputs: Seq<SupervisorInput>) -> bool {
    exists|k: int| 0 <= k < inputs.len() && #[trigger] inputs[k] is CommandsClosed
}

/// Whether one of the inputs is the closing of the stream of run `worker`.
pub open spec fn closes_stream_of(inputs: Seq<SupervisorInput>, worker: u64) -> bool {
    exists|k: int|
        0 <= k < inputs.len() && #[trigger] inputs[k] is EventsClosed
            && inputs[k]->EventsClosed_worker == worker
}

/// No input changes the number of the current run.
pub proof fn lemma_input_keeps_run(c: Control, input: SupervisorInput)
    ensures
        control_after_input(c, input).worker == c.worker,
{
}

/// Whether every input is a restart request.
pub open spec fn all_restart_requests(inputs: Seq<SupervisorInput>) -> bool {
    forall|k: int| 0 <= k < inputs.len() ==> #[trigger] inputs[k] is Command
}

/// Restart requests collapse: after any number `n >= 1` of them, the next
/// restart check starts exactly one new run and issues exactly one
/// `ClearDiagnostics`; a further check without a new request does nothing.
pub proof fn lemma_restart_requests_coalesce(c: Control, inputs: Seq<SupervisorInput>, enabled: bool)
    requires
        inputs.len() >= 1,
        all_restart_requests(inputs),
        c.worker < u64::MAX,
    ensures
        controls_after(c, inputs).restart_pending,
        controls_after(c, inputs).worker == c.worker,
        tasks_after(c, inputs) == Seq::<TaskView>::empty(),
        !closes_commands(inputs),
        recheck_tasks(controls_after(c, inputs)) == seq![TaskView::ClearDiagnostics],
        control_after_recheck(controls_after(c, inputs), enabled).worker == c.worker + 1,
        !control_after_recheck(controls_after(c, inputs), enabled).restart_pending,
        recheck_tasks(control_after_recheck(controls_after(c, inputs), enabled)) == Seq::<
            TaskView,
        >::empty(),
    decreases inputs.len(),
{
    let prev = inputs.drop_last();
    if inputs.len() > 1 {
        lemma_restart_requests_coalesce(c, prev, enabled);
    } else {
        assert(controls_after(c, prev) == c);
        assert(tasks_after(c, prev) == Seq::<TaskView>::empty());
    }
    assert(inputs.last() is Command);
    assert(tasks_after(c, inputs) =~= Seq::<TaskView>::empty());
    if closes_commands(inputs) {
        let k = choose|k: int| 0 <= k < inputs.len() && #[trigger] inputs[k] is CommandsClosed;
        assert(inputs[k] is Command);
    }
}

/// Run numbers never decrease: no input changes the current run's number, and
/// a restart check either keeps it or moves to the next one.
pub proof fn lemma_run_numbers_monotone(c: Control, input: SupervisorInput, enabled: bool)
    requires
        c.worker < u64::MAX,
    ensures
        control_after_input(c, input).worker == c.worker,
        control_after_recheck(c, enabled).worker >= c.worker,
{
}

/// Once a restart has been processed (after its `ClearDiagnostics`), no event
/// of any earlier run is delivered.
pub proof fn lemma_superseded_events_dropped(
    c: Control,
    enabled: bool,
    worker: u64,
    e: CheckEvent,
)
    requires
        c.restart_pending,
        c.worker < u64::MAX,
        worker <= c.worker,
    ensures
        recheck_tasks(c) == seq![TaskView::ClearDiagnostics],
        delivered_tasks(control_after_recheck(c, enabled), worker, e) == Seq::<TaskView>::empty(),
{
}

/// With checking disabled, a supervisor that is not listening never starts
/// listening: every run it plans is inactive, and no event of any run is
/// delivered, whatever the inputs.
pub proof fn lemma_disabled_never_yields(
    options: CheckOptions,
    workspace_root: Seq<char>,
    plan: WorkerPlan,
    c: Control,
    input: SupervisorInput,
    worker: u64,
    e: CheckEvent,
)
    requires
        !options.enable,
        !c.listening,
    ensures
        plan_matches(plan, options, workspace_root) ==> plan is Inactive,
        !control_after_input(c, input).listening,
        !control_after_recheck(c, options.enable).listening,
        delivered_tasks(c, worker, e) == Seq::<TaskView>::empty(),
        input_tasks(c, input) == Seq::<TaskView>::empty(),
{
}

} // verus!
