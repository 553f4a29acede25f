use vstd::prelude::*;
use crate::vars::VarMap;

verus! {

/// What the provisioning engine is called with: the template file, the
/// engine's working directory for it, the variables and the verbosity.
#[derive(Debug)]
pub struct Deployment {
    pub template_path: String,
    pub workspace_dir: String,
    pub vars: VarMap,
    pub verbose: bool,
}

pub struct DeploymentView {
    pub template_path: Seq<char>,
    pub workspace_dir: Seq<char>,
    pub vars: Seq<(Seq<char>, Seq<char>)>,
    pub verbose: bool,
}

impl View for Deployment {
    type V = DeploymentView;

    open spec fn view(&self) -> DeploymentView {
        DeploymentView {
            template_path: self.template_path@,
            workspace_dir: self.workspace_dir@,
            vars: self.vars@,
            verbose: self.verbose,
        }
    }
}

impl Deployment {
    /// A copy with the same template, workspace, variables and verbosity.
    pub fn duplicate(&self) -> (r: Deployment)
        ensures
            r@ == self@,
    {
        Deployment {
            template_path: self.template_path.clone(),
            workspace_dir: self.workspace_dir.clone(),
            vars: self.vars.duplicate(),
            verbose: self.verbose,
        }
    }
}

/// Where the controller stands.
#[derive(Clone, Copy, Debug, PartialEq, Eq, Structural)]
pub enum Phase {
    /// Nothing has been done yet.
    Idle,
    /// The stale engine workspace is being removed.
    Clearing,
    /// The engine is creating the resource.
    Applying,
    /// The resource exists and the teardown is armed.
    Deployed,
    /// The engine is deleting the resource.
    TearingDown,
    /// The resource was deleted.
    Done,
    /// The run failed before any resource was created.
    Failed,
    /// Deleting the resource failed; it may still exist.
    TeardownFailed,
}

/// What ended the wait for the resource's teardown.
#[derive(Clone, Copy, Debug, PartialEq, Eq, Structural)]
pub enum Termination {
    /// The operator asked for the teardown itself.
    Explicit,
    /// An interrupt notification.
    Interrupt,
    /// A terminate notification.
    Terminate,
    /// A fault unwound the program, or the listener went away.
    Fault,
}

/// What the surrounding program observed.
#[derive(Debug)]
pub enum Event {
    /// Begin the run.
    Start,
    /// The stale workspace is gone.
    WorkspaceCleared,
    /// Removing the stale workspace failed, with this message.
    WorkspaceFailed(String),
    /// The engine created the resource and reported these outputs.
    Applied(Vec<(String, String)>),
    /// The engine failed to create the resource, with this message.
    ApplyFailed(String),
    /// Something asked the run to end.
    Terminated(Termination),
    /// The engine deleted the resource.
    Destroyed,
    /// The engine failed to delete the resource, with this message.
    DestroyFailed(String),
}

/// The shape of an event, without its data.
#[derive(Clone, Copy, Debug, PartialEq, Eq, Structural)]
pub enum EventKind {
    Start,
    WorkspaceCleared,
    WorkspaceFailed,
    Applied,
    ApplyFailed,
    Terminated(Termination),
    Destroyed,
    DestroyFailed,
}

impl Event {
    pub open spec fn kind(&self) -> EventKind {
        match self {
            Event::Start => EventKind::Start,
            Event::WorkspaceCleared => EventKind::WorkspaceCleared,
            Event::WorkspaceFailed(_) => EventKind::WorkspaceFailed,
            Event::Applied(_) => EventKind::Applied,
            Event::ApplyFailed(_) => EventKind::ApplyFailed,
            Event::Terminated(t) => EventKind::Terminated(*t),
            Event::Destroyed => EventKind::Destroyed,
            Event::DestroyFailed(_) => EventKind::DestroyFailed,
        }
    }
}

/// What the operator is told when the process ends.
#[derive(Debug)]
pub enum Report {
    /// Nothing beyond what was already shown.
    Quiet,
    /// The run failed with this message.
    Error(String),
    /// The teardown failed with this message; the resource may remain.
    TeardownFailed(String),
}

#[derive(Clone, Copy, Debug, PartialEq, Eq, Structural)]
pub enum ReportKind {
    Quiet,
    Error,
    TeardownFailed,
}

impl Report {
    pub open spec fn kind(&self) -> ReportKind {
        match self {
            Report::Quiet => ReportKind::Quiet,
            Report::Error(_) => ReportKind::Error,
            Report::TeardownFailed(_) => ReportKind::TeardownFailed,
        }
    }
}

/// What the surrounding program is asked to do next.
#[derive(Debug)]
pub enum Action {
    /// Remove this directory if it exists.
    ClearWorkspace(String),
    /// Ask the engine to create the resource.
    Apply(Deployment),
    /// Show this text, then wait for a termination.
    Announce(String),
    /// Ask the engine to delete the resource.
    Destroy(Deployment),
    /// End the process with this code, after telling the operator.
    Exit { code: i32, report: Report },
    /// Nothing: the event came too late or out of turn.
    Ignore,
}

/// The shape of an action, without its data.
#[derive(Clone, Copy, Debug, PartialEq, Eq, Structural)]
pub enum ActionKind {
    ClearWorkspace,
    Apply,
    Announce,
    Destroy,
    Exit(i32, ReportKind),
    Ignore,
}

impl Action {
    pub open spec fn kind(&self) -> ActionKind {
        match self {
            Action::ClearWorkspace(_) => ActionKind::ClearWorkspace,
            Action::Apply(_) => ActionKind::Apply,
            Action::Announce(_) => ActionKind::Announce,
            Action::Destroy(_) => ActionKind::Destroy,
            Action::Exit { code, report } => ActionKind::Exit(*code, report.kind()),
            Action::Ignore => ActionKind::Ignore,
        }
    }
}

/// The abstract state of a controller.
pub struct State {
    pub phase: Phase,
    pub cause: Termination,
    /// How many teardowns the controller has issued.
    pub destroys: nat,
    /// The deployment the controller was made for.
    pub deployment: DeploymentView,
    /// The captured teardown, present from a successful apply until it is
    /// taken.
    pub teardown: Option<DeploymentView>,
}

/// The exit code once the teardown has run its course: a fault always ends
/// the process as failed; a failed teardown does so only where it was the
/// operator's own request.
pub open spec fn exit_code_of(cause: Termination, teardown_ok: bool) -> i32 {
    match cause {
        Termination::Fault => 1,
        Termination::Explicit => if teardown_ok { 0 } else { 1 },
        _ => 0,
    }
}

/// How a failed teardown is reported.
pub open spec fn teardown_report_of(cause: Termination) -> ReportKind {
    match cause {
        Termination::Explicit => ReportKind::Error,
        _ => ReportKind::TeardownFailed,
    }
}

/// One transition of the controller: the next state and what to do.
pub open spec fn next(s: State, e: EventKind) -> (State, ActionKind) {
    match (s.phase, e) {
        (Phase::Idle, EventKind::Start) => (State { phase: Phase::Clearing, ..s }, ActionKind::ClearWorkspace),
        (Phase::Clearing, EventKind::WorkspaceCleared) => (State { phase: Phase::Applying, ..s }, ActionKind::Apply),
        (Phase::Clearing, EventKind::WorkspaceFailed) => (
            State { phase: Phase::Failed, ..s },
            ActionKind::Exit(1, ReportKind::Error),
        ),
        (Phase::Applying, EventKind::Applied) => (
            State { phase: Phase::Deployed, teardown: Some(s.deployment), ..s },
            ActionKind::Announce,
        ),
        (Phase::Applying, EventKind::ApplyFailed) => (
            State { phase: Phase::Failed, ..s },
            ActionKind::Exit(1, ReportKind::Error),
        ),
        (Phase::Deployed, EventKind::Terminated(c)) => (
            State {
                phase: Phase::TearingDown,
                cause: c,
                destroys: s.destroys + 1,
                teardown: None,
                ..s
            },
            ActionKind::Destroy,
        ),
        (Phase::Idle, EventKind::Terminated(_)) | (Phase::Clearing, EventKind::Terminated(_)) | (
            Phase::Applying,
            EventKind::Terminated(_),
        ) => (State { phase: Phase::Failed, ..s }, ActionKind::Exit(1, ReportKind::Quiet)),
        (Phase::TearingDown, EventKind::Destroyed) => (
            State { phase: Phase::Done, ..s },
            ActionKind::Exit(exit_code_of(s.cause, true), ReportKind::Quiet),
        ),
        (Phase::TearingDown, EventKind::DestroyFailed) => (
            State { phase: Phase::TeardownFailed, ..s },
            ActionKind::Exit(exit_code_of(s.cause, false), teardown_report_of(s.cause)),
        ),
        _ => (s, ActionKind::Ignore),
    }
}

/// The view of a list of name and value pairs.
pub open spec fn pairs_of(o: Seq<(String, String)>) -> Seq<(Seq<char>, Seq<char>)> {
    o.map_values(|p: (String, String)| (p.0@, p.1@))
}

pub open spec fn outputs_header() -> Seq<char> {
    "*************************** Outputs **************************\n"@
}

pub open spec fn outputs_footer() -> Seq<char> {
    "**************************************************************\n"@
}

/// One `name: value` line for each output, in order.
pub open spec fn output_lines_of(o: Seq<(Seq<char>, Seq<char>)>) -> Seq<char>
    decreases o.len(),
{
    if o.len() == 0 {
        Seq::empty()
    } else {
        output_lines_of(o.drop_last()) + o.last().0 + ": "@ + o.last().1 + "\n"@
    }
}

/// The block that shows the engine's outputs: nothing when there are none,
/// else the lines between a header and a footer.
pub open spec fn outputs_block_of(o: Seq<(Seq<char>, Seq<char>)>) -> Seq<char> {
    if o.len() == 0 {
        Seq::empty()
    } else {
        outputs_header() + output_lines_of(o) + outputs_footer()
    }
}

/// Writes the block that shows the engine's outputs.
pub fn outputs_block(outputs: &Vec<(String, String)>) -> (r: String)
    ensures
        r@ == outputs_block_of(pairs_of(outputs@)),
{
    if outputs.len() == 0 {
        return String::new();
    }
    let mut lines = String::new();
    let mut i: usize = 0;
    while i < outputs.len()
        invariant
            i <= outputs@.len(),
            lines@ == output_lines_of(pairs_of(outputs@.subrange(0, i as int))),
        decreases outputs@.len() - i,
    {
        lines.append(outputs[i].0.as_str());
        lines.append(": ");
        lines.append(outputs[i].1.as_str());
        lines.append("\n");
        let ghost next = pairs_of(outputs@.subrange(0, i + 1));
        assert(next.drop_last() =~= pairs_of(outputs@.subrange(0, i as int)));
        i = i + 1;
    }
    assert(outputs@.subrange(0, outputs@.len() as int) =~= outputs@);
    String::from_str("*************************** Outputs **************************\n").concat(
        lines.as_str(),
    ).concat("**************************************************************\n")
}

/// The message a failure event carries; empty for the other events.
pub open spec fn event_message(e: Event) -> Seq<char> {
    match e {
        Event::WorkspaceFailed(m) => m@,
        Event::ApplyFailed(m) => m@,
        Event::DestroyFailed(m) => m@,
        _ => Seq::empty(),
    }
}

/// The states a controller can be in: the teardown is held exactly while
/// the resource is deployed, it is the deployment the controller was made
/// for, and it has been issued once after that and never before.
pub open spec fn wf(s: State) -> bool {
    &&& (s.teardown is Some <==> s.phase == Phase::Deployed)
    &&& (s.teardown matches Some(d) ==> d == s.deployment)
    &&& s.destroys <= 1
    &&& (s.destroys == 1 <==> (s.phase == Phase::TearingDown || s.phase == Phase::Done || s.phase
        == Phase::TeardownFailed))
}

/// The controller of one deployment: from clearing the engine's workspace,
/// through apply, to the single teardown.
pub struct Lifecycle {
    phase: Phase,
    cause: Termination,
    destroys: Ghost<nat>,
    deployment: Deployment,
    teardown: Option<Deployment>,
}

impl View for Lifecycle {
    type V = State;

    closed spec fn view(&self) -> State {
        State {
            phase: self.phase,
            cause: self.cause,
            destroys: self.destroys@,
            deployment: self.deployment@,
            teardown: match self.teardown {
                Some(d) => Some(d@),
                None => None,
            },
        }
    }
}

impl Lifecycle {
    /// A controller that will clear the workspace, apply, wait, and tear down.
    pub fn for_deploy(deployment: Deployment) -> (r: Lifecycle)
        ensures
            r@.phase == Phase::Idle,
            r@.deployment == deployment@,
            r@.destroys == 0,
            wf(r@),
    {
        Lifecycle {
            phase: Phase::Idle,
            cause: Termination::Explicit,
            destroys: Ghost(0),
            deployment,
            teardown: None,
        }
    }

    /// A controller for a resource that already exists: its teardown is
    /// armed from the start.
    pub fn for_undeploy(deployment: Deployment) -> (r: Lifecycle)
        ensures
            r@.phase == Phase::Deployed,
            r@.deployment == deployment@,
            r@.teardown == Some(deployment@),
            r@.destroys == 0,
            wf(r@),
    {
        let teardown = deployment.duplicate();
        Lifecycle {
            phase: Phase::Deployed,
            cause: Termination::Explicit,
            destroys: Ghost(0),
            deployment,
            teardown: Some(teardown),
        }
    }

    /// Where the controller stands.
    pub fn phase(&self) -> (r: Phase)
        ensures
            r == self@.phase,
    {
        self.phase
    }

    /// The deployment the controller was made for.
    pub fn deployment(&self) -> (r: &Deployment)
        ensures
            r@ == self@.deployment,
    {
        &self.deployment
    }

    /// Takes in what happened and says what to do next.
    pub fn step(&mut self, e: Event) -> (a: Action)
        requires
            wf(old(self)@),
        ensures
            (final(self)@, a.kind()) == next(old(self)@, e.kind()),
            wf(final(self)@),
            a matches Action::ClearWorkspace(w) ==> w@ == old(self)@.deployment.workspace_dir,
            a matches Action::Apply(d) ==> d@ == old(self)@.deployment,
            a matches Action::Destroy(d) ==> old(self)@.teardown == Some(d@),
            a matches Action::Announce(t) ==> e matches Event::Applied(o) && t@ == outputs_block_of(
                pairs_of(o@),
            ),
            a matches Action::Exit { report: Report::Error(m), .. } ==> m@ == event_message(e),
            a matches Action::Exit { report: Report::TeardownFailed(m), .. } ==> m@
                == event_message(e),
    {
        match e {
            Event::Start => {
                if self.phase == Phase::Idle {
                    self.phase = Phase::Clearing;
                    return Action::ClearWorkspace(self.deployment.workspace_dir.clone());
                }
            },
            Event::WorkspaceCleared => {
                if self.phase == Phase::Clearing {
                    self.phase = Phase::Applying;
                    return Action::Apply(self.deployment.duplicate());
                }
            },
            Event::WorkspaceFailed(m) => {
                if self.phase == Phase::Clearing {
                    self.phase = Phase::Failed;
                    return Action::Exit { code: 1, report: Report::Error(m) };
                }
            },
            Event::Applied(outputs) => {
                if self.phase == Phase::Applying {
                    self.phase = Phase::Deployed;
                    self.teardown = Some(self.deployment.duplicate());
                    return Action::Announce(outputs_block(&outputs));
                }
            },
            Event::ApplyFailed(m) => {
                if self.phase == Phase::Applying {
                    self.phase = Phase::Failed;
                    return Action::Exit { code: 1, report: Report::Error(m) };
                }
            },
            Event::Terminated(c) => {
                if self.phase == Phase::Deployed {
                    let taken = self.teardown.take();
                    match taken {
                        Some(d) => {
                            self.phase = Phase::TearingDown;
                            self.cause = c;
                            self.destroys = Ghost(self.destroys@ + 1);
                            return Action::Destroy(d);
                        },
                        None => {
                            assert(false);
                        },
                    }
                } else if self.phase == Phase::Idle || self.phase == Phase::Clearing || self.phase
                    == Phase::Applying {
                    self.phase = Phase::Failed;
                    return Action::Exit { code: 1, report: Report::Quiet };
                }
            },
            Event::Destroyed => {
                if self.phase == Phase::TearingDown {
                    self.phase = Phase::Done;
                    let code: i32 = if self.cause == Termination::Fault { 1 } else { 0 };
                    return Action::Exit { code, report: Report::Quiet };
                }
            },
            Event::DestroyFailed(m) => {
                if self.phase == Phase::TearingDown {
                    self.phase = Phase::TeardownFailed;
                    return match self.cause {
                        Termination::Explicit => Action::Exit { code: 1, report: Report::Error(m) },
                        Termination::Fault => Action::Exit {
                            code: 1,
                            report: Report::TeardownFailed(m),
                        },
                        _ => Action::Exit { code: 0, report: Report::TeardownFailed(m) },
                    };
                }
            },
        }
        Action::Ignore
    }
}

/// The state after a sequence of events.
pub open spec fn run(s: State, events: Seq<EventKind>) -> State
    decreases events.len(),
{
    if events.len() == 0 {
        s
    } else {
        next(run(s, events.drop_last()), events.last()).0
    }
}

/// How many teardowns a sequence of events makes the controller issue.
pub open spec fn destroy_count(s: State, events: Seq<EventKind>) -> nat
    decreases events.len(),
{
    if events.len() == 0 {
        0
    } else {
        destroy_count(s, events.drop_last()) + if next(
            run(s, events.drop_last()),
            events.last(),
        ).1 == ActionKind::Destroy {
            1nat
        } else {
            0nat
        }
    }
}

/// A transition keeps the controller's states well formed, never changes
/// the deployment, and issues a teardown only by taking the one it holds.
pub proof fn lemma_next_keeps_wf(s: State, e: EventKind)
    requires
        wf(s),
    ensures
        wf(next(s, e).0),
        next(s, e).0.deployment == s.deployment,
        next(s, e).1 == ActionKind::Destroy ==> s.teardown == Some(s.deployment) && s.destroys
            == 0 && next(s, e).0.destroys == 1,
        next(s, e).1 != ActionKind::Destroy ==> next(s, e).0.destroys == s.destroys,
{
}

/// Every state reached from a well-formed one is well formed, holds the same
/// deployment, and has counted each teardown it issued.
pub proof fn lemma_run_keeps_wf(s: State, events: Seq<EventKind>)
    requires
        wf(s),
    ensures
        wf(run(s, events)),
        run(s, events).deployment == s.deployment,
        run(s, events).destroys == s.destroys + destroy_count(s, events),
    decreases events.len(),
{
    if events.len() > 0 {
        lemma_run_keeps_wf(s, events.drop_last());
        lemma_next_keeps_wf(run(s, events.drop_last()), events.last());
    }
}

/// Teardown is issued at most once: whatever events arrive, in whatever
/// order, a controller that has not torn down yet issues at most one
/// teardown.
pub proof fn lemma_teardown_at_most_once(s: State, events: Seq<EventKind>)
    requires
        wf(s),
        s.destroys == 0,
    ensures
        destroy_count(s, events) <= 1,
{
    lemma_run_keeps_wf(s, events);
}

/// The teardown carries what was applied: whenever a transition issues a
/// teardown, the teardown it takes is the deployment the controller was made
/// for, the same one every apply is issued with.
pub proof fn lemma_teardown_matches_apply(s: State, events: Seq<EventKind>, e: EventKind)
    requires
        wf(s),
        next(run(s, events), e).1 == ActionKind::Destroy,
    ensures
        run(s, events).teardown == Some(s.deployment),
{
    lemma_run_keeps_wf(s, events);
    lemma_next_keeps_wf(run(s, events), e);
}

proof fn lemma_run_append(s: State, a: Seq<EventKind>, b: Seq<EventKind>)
    ensures
        run(s, a + b) == run(run(s, a), b),
        destroy_count(s, a + b) == destroy_count(s, a) + destroy_count(run(s, a), b),
    decreases b.len(),
{
    if b.len() == 0 {
        assert(a + b =~= a);
    } else {
        lemma_run_append(s, a, b.drop_last());
        assert((a + b).drop_last() =~= a + b.drop_last());
    }
}

/// Teardown happens exactly once on every termination path: once the
/// resource is deployed, a termination of any kind (an explicit request, an
/// interrupt or terminate notification, or a fault) issues one teardown, and
/// no events that follow issue another.
pub proof fn lemma_termination_tears_down_once(
    s: State,
    events: Seq<EventKind>,
    cause: Termination,
    rest: Seq<EventKind>,
)
    requires
        wf(s),
        s.destroys == 0,
        run(s, events).phase == Phase::Deployed,
    ensures
        destroy_count(s, events.push(EventKind::Terminated(cause)) + rest) == 1,
{
    let all = events.push(EventKind::Terminated(cause)) + rest;
    let head = events.push(EventKind::Terminated(cause));
    lemma_run_keeps_wf(s, events);
    assert(head.drop_last() =~= events);
    lemma_next_keeps_wf(run(s, events), EventKind::Terminated(cause));
    lemma_run_keeps_wf(s, head);
    lemma_run_append(s, head, rest);
    lemma_run_keeps_wf(s, all);
}

} // verus!
