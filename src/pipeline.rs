//! The discovery of one target as a state machine. Each call of
//! [`TargetPipeline::handle`] takes what happened (a command's output, a
//! file operation's result) and answers with the work to start next and the
//! progress lines to show; running the work is left to the caller.
use vstd::prelude::*;
use crate::commands::DiscoveryCommand;
use crate::error::RecoverableDiscoveryError;
use crate::hosts::{entry_present, hosts_entry, is_registered};
use crate::scan::{parse_port_scan, service_ports, Service};
use crate::tasks::{lemma_web_tasks_for_len, web_scan_tasks, web_tasks, web_tasks_for, ScanTask, TaskView, WebProtocol};
use crate::target::{IMDUser, TargetMachine};

verus! {

/// Where a target's discovery stands.
#[derive(Debug, Clone, Copy, PartialEq, Eq, Structural)]
pub enum Stage {
    /// Nothing has run yet.
    Start,
    /// Waiting for the connectivity check.
    Connectivity,
    /// Waiting for the hosts file to be read.
    HostsLookup,
    /// Waiting for the hosts entry to be appended.
    HostsAppend,
    /// Waiting for the results directory to be created.
    DirectoryCreate,
    /// Waiting for the results directory to change owner.
    DirectoryOwner,
    /// Scans are running.
    Scanning,
    /// Every scan has finished.
    Completed,
    /// A fatal failure ended the discovery of this target.
    Aborted,
}

/// What creating the results directory came to.
#[derive(Debug, Clone, Copy, PartialEq, Eq, Structural)]
pub enum DirOutcome {
    Created,
    AlreadyExists,
    Failed,
}

/// What one scan came to.
#[derive(Debug, Clone)]
pub enum ScanOutcome {
    /// The command could not be run or its output was not text.
    CommandFailed,
    /// The result file could not be created, given its owner, or written.
    WriteFailed,
    /// The output, saved to the result file.
    Saved(String),
}

/// Something that happened to the target's discovery.
#[derive(Debug, Clone)]
pub enum Event {
    /// The discovery is to start.
    Begin,
    /// The connectivity check ran and printed this; `None` where it could not run.
    Pinged(Option<String>),
    /// The hosts file holds this; `None` where it could not be read.
    HostsRead(Option<String>),
    /// The hosts entry was appended, or could not be.
    HostsAppended(bool),
    DirectoryCreated(DirOutcome),
    /// The results directory changed owner, or could not.
    OwnerChanged(bool),
    /// The scan of the given number finished.
    ScanFinished(usize, ScanOutcome),
}

/// Work for the caller to start; each answers with one event.
#[derive(Debug, Clone, Copy, PartialEq, Eq, Structural)]
pub enum Action {
    /// Run the connectivity command ([`TargetPipeline::connectivity_command`]);
    /// answer `Pinged`.
    CheckConnectivity,
    /// Read the hosts file; answer `HostsRead`.
    ReadHosts,
    /// Append [`TargetPipeline::hosts_entry`] to the hosts file; answer `HostsAppended`.
    AppendHosts,
    /// Create the directory [`TargetPipeline::results_dir`]; answer `DirectoryCreated`.
    CreateDirectory,
    /// Give the results directory to the operator; answer `OwnerChanged`.
    ChangeOwner,
    /// Run the scan of this number in a worker of its own and save its
    /// result; answer `ScanFinished`.
    RunScan(usize),
}

/// Which step a progress line is about.
#[derive(Debug, Clone, Copy, PartialEq, Eq, Structural)]
pub enum Step {
    Connectivity,
    Hosts,
    Directory,
    Scan(usize),
    ParseServices,
    Discovery,
}

/// A failure of the caller's work.
#[derive(Debug, Clone, Copy, PartialEq, Eq, Structural)]
pub enum Failure {
    Command,
    HostsRead,
    HostsWrite,
    CreateDirectory,
    ChangeOwner,
    WriteResult,
}

impl Failure {
    pub open spec fn text(self) -> Seq<char> {
        match self {
            Failure::Command => "✕ Problem running the command"@,
            Failure::HostsRead => "✕ Problem reading '/etc/hosts'"@,
            Failure::HostsWrite => "✕ Problem writing to '/etc/hosts'"@,
            Failure::CreateDirectory => "✕ Problem creating the directory"@,
            Failure::ChangeOwner => "✕ Problem changing the owner of the directory"@,
            Failure::WriteResult => "✕ Problem saving the results"@,
        }
    }

    pub fn as_str(&self) -> (r: &'static str)
        ensures
            r@ == self.text(),
    {
        match self {
            Failure::Command => "✕ Problem running the command",
            Failure::HostsRead => "✕ Problem reading '/etc/hosts'",
            Failure::HostsWrite => "✕ Problem writing to '/etc/hosts'",
            Failure::CreateDirectory => "✕ Problem creating the directory",
            Failure::ChangeOwner => "✕ Problem changing the owner of the directory",
            Failure::WriteResult => "✕ Problem saving the results",
        }
    }
}

/// How a step ended.
#[derive(Debug, Clone, Copy, PartialEq, Eq, Structural)]
pub enum Outcome {
    Done,
    Recoverable(RecoverableDiscoveryError),
    Failed(Failure),
}

#[derive(Debug, Clone, Copy, PartialEq, Eq, Structural)]
pub enum Severity {
    Info,
    Success,
    Warning,
    Error,
}

/// One progress line of a target.
#[derive(Debug, Clone, Copy, PartialEq, Eq, Structural)]
pub struct ProgressEvent {
    pub step: Step,
    pub outcome: Outcome,
    pub severity: Severity,
}

pub open spec fn progress(step: Step, outcome: Outcome, severity: Severity) -> ProgressEvent {
    ProgressEvent { step, outcome, severity }
}

/// The outcome of a scan, with its output as characters.
pub enum ScanOutcomeView {
    CommandFailed,
    WriteFailed,
    Saved(Seq<char>),
}

/// An event, with its texts as characters.
pub enum EventView {
    Begin,
    Pinged(Option<Seq<char>>),
    HostsRead(Option<Seq<char>>),
    HostsAppended(bool),
    DirectoryCreated(DirOutcome),
    OwnerChanged(bool),
    ScanFinished(usize, ScanOutcomeView),
}

pub open spec fn opt_view(o: Option<String>) -> Option<Seq<char>> {
    match o {
        Some(s) => Some(s@),
        None => None,
    }
}

impl View for ScanOutcome {
    type V = ScanOutcomeView;

    open spec fn view(&self) -> ScanOutcomeView {
        match self {
            ScanOutcome::CommandFailed => ScanOutcomeView::CommandFailed,
            ScanOutcome::WriteFailed => ScanOutcomeView::WriteFailed,
            ScanOutcome::Saved(s) => ScanOutcomeView::Saved(s@),
        }
    }
}

impl View for Event {
    type V = EventView;

    open spec fn view(&self) -> EventView {
        match self {
            Event::Begin => EventView::Begin,
            Event::Pinged(o) => EventView::Pinged(opt_view(*o)),
            Event::HostsRead(o) => EventView::HostsRead(opt_view(*o)),
            Event::HostsAppended(b) => EventView::HostsAppended(*b),
            Event::DirectoryCreated(d) => EventView::DirectoryCreated(*d),
            Event::OwnerChanged(b) => EventView::OwnerChanged(*b),
            Event::ScanFinished(id, o) => EventView::ScanFinished(*id, o@),
        }
    }
}

/// The state of a target's discovery: its stage, the address and hostname
/// of the target, and the scans started so far (numbered by position) with
/// whether each has finished.
pub struct PipelineView {
    pub stage: Stage,
    pub ip: Seq<char>,
    pub hostname: Option<Seq<char>>,
    pub tasks: Seq<TaskView>,
    pub finished: Seq<bool>,
}

/// The result of one transition: the next state, the work to start, and the
/// progress lines to show, in order.
pub struct StepView {
    pub next: PipelineView,
    pub actions: Seq<Action>,
    pub events: Seq<ProgressEvent>,
}

pub open spec fn with_stage(p: PipelineView, stage: Stage) -> PipelineView {
    PipelineView { stage, ..p }
}

pub open spec fn unchanged(p: PipelineView) -> StepView {
    StepView { next: p, actions: seq![], events: seq![] }
}

/// The connectivity check failed: it could not run, or its output reports
/// total packet loss.
pub open spec fn connection_lost(out: Option<Seq<char>>) -> bool {
    match out {
        None => true,
        Some(o) => DiscoveryCommand::Ping.reports_failure(o),
    }
}

/// The three scans that start together once the results directory is ready.
pub open spec fn base_tasks() -> Seq<TaskView> {
    seq![TaskView::AllTcpPorts, TaskView::NetworkDrives, TaskView::CommonTcpPorts]
}

/// `RunScan` for the scans numbered `start` to `start + n - 1`.
pub open spec fn run_actions(start: int, n: int) -> Seq<Action> {
    Seq::new(n as nat, |k: int| Action::RunScan((start + k) as usize))
}

pub open spec fn all_finished(finished: Seq<bool>) -> bool {
    forall|i: int| 0 <= i < finished.len() ==> finished[i]
}

/// The results directory is ready: the base scans start.
pub open spec fn start_scanning(p: PipelineView, events: Seq<ProgressEvent>) -> StepView {
    StepView {
        next: PipelineView {
            stage: Stage::Scanning,
            tasks: base_tasks(),
            finished: seq![false, false, false],
            ..p
        },
        actions: run_actions(0, 3),
        events,
    }
}

pub open spec fn to_directory(p: PipelineView, events: Seq<ProgressEvent>) -> StepView {
    StepView {
        next: with_stage(p, Stage::DirectoryCreate),
        actions: seq![Action::CreateDirectory],
        events,
    }
}

/// The web scans that the saved output `text` of a scan calls for: none
/// unless it is the service scan.
pub open spec fn follow_ups(task: TaskView, text: Seq<char>) -> Seq<TaskView> {
    if task is CommonTcpPorts {
        web_tasks(service_ports(text, Service::Http), service_ports(text, Service::Https))
    } else {
        seq![]
    }
}

/// The progress lines for the end of the scan `id`.
pub open spec fn scan_events(id: usize, task: TaskView, out: ScanOutcomeView) -> Seq<ProgressEvent> {
    let is_services = task is CommonTcpPorts;
    match out {
        ScanOutcomeView::CommandFailed => seq![progress(Step::Scan(id), Outcome::Failed(Failure::Command), Severity::Warning)]
            + if is_services {
                seq![progress(Step::ParseServices, Outcome::Recoverable(RecoverableDiscoveryError::Services), Severity::Error)]
            } else {
                seq![]
            },
        ScanOutcomeView::WriteFailed => seq![progress(Step::Scan(id), Outcome::Failed(Failure::WriteResult), Severity::Warning)]
            + if is_services {
                seq![progress(Step::ParseServices, Outcome::Recoverable(RecoverableDiscoveryError::Services), Severity::Error)]
            } else {
                seq![]
            },
        ScanOutcomeView::Saved(_) => seq![progress(Step::Scan(id), Outcome::Done, Severity::Success)]
            + if is_services {
                seq![progress(Step::ParseServices, Outcome::Done, Severity::Success)]
            } else {
                seq![]
            },
    }
}

/// The scan `id` of a scanning target finished with `out`.
pub open spec fn finish_scan(p: PipelineView, id: usize, out: ScanOutcomeView) -> StepView {
    if id >= p.tasks.len() || p.finished[id as int] {
        unchanged(p)
    } else {
        let task = p.tasks[id as int];
        let added = match out {
            ScanOutcomeView::Saved(text) => follow_ups(task, text),
            _ => seq![],
        };
        let tasks = p.tasks + added;
        let finished = p.finished.update(id as int, true) + Seq::new(added.len(), |_k: int| false);
        let events = scan_events(id, task, out);
        let done = all_finished(finished);
        StepView {
            next: PipelineView {
                stage: if done { Stage::Completed } else { Stage::Scanning },
                tasks,
                finished,
                ..p
            },
            actions: run_actions(p.tasks.len() as int, added.len() as int),
            events: if done {
                events.push(progress(Step::Discovery, Outcome::Done, Severity::Success))
            } else {
                events
            },
        }
    }
}

/// What a target's discovery does on each event. An event that does not
/// belong to the current stage changes nothing.
pub open spec fn transition(p: PipelineView, e: EventView) -> StepView {
    match (p.stage, e) {
        (Stage::Start, EventView::Begin) => StepView {
            next: with_stage(p, Stage::Connectivity),
            actions: seq![Action::CheckConnectivity],
            events: seq![],
        },
        (Stage::Connectivity, EventView::Pinged(out)) => if connection_lost(out) {
            StepView {
                next: with_stage(p, Stage::Aborted),
                actions: seq![],
                events: seq![progress(Step::Connectivity, Outcome::Recoverable(RecoverableDiscoveryError::Connection), Severity::Error)],
            }
        } else {
            let ok = seq![progress(Step::Connectivity, Outcome::Done, Severity::Success)];
            if p.hostname is Some {
                StepView { next: with_stage(p, Stage::HostsLookup), actions: seq![Action::ReadHosts], events: ok }
            } else {
                to_directory(p, ok)
            }
        },
        (Stage::HostsLookup, EventView::HostsRead(contents)) => match contents {
            None => to_directory(p, seq![progress(Step::Hosts, Outcome::Failed(Failure::HostsRead), Severity::Warning)]),
            Some(c) => if p.hostname is Some && entry_present(c, p.ip, p.hostname->Some_0) {
                to_directory(p, seq![progress(Step::Hosts, Outcome::Recoverable(RecoverableDiscoveryError::AlreadyInHost), Severity::Info)])
            } else {
                StepView { next: with_stage(p, Stage::HostsAppend), actions: seq![Action::AppendHosts], events: seq![] }
            },
        },
        (Stage::HostsAppend, EventView::HostsAppended(ok)) => to_directory(
            p,
            if ok {
                seq![progress(Step::Hosts, Outcome::Done, Severity::Success)]
            } else {
                seq![progress(Step::Hosts, Outcome::Failed(Failure::HostsWrite), Severity::Warning)]
            },
        ),
        (Stage::DirectoryCreate, EventView::DirectoryCreated(outcome)) => match outcome {
            DirOutcome::Created => StepView {
                next: with_stage(p, Stage::DirectoryOwner),
                actions: seq![Action::ChangeOwner],
                events: seq![],
            },
            DirOutcome::AlreadyExists => start_scanning(
                p,
                seq![progress(Step::Directory, Outcome::Recoverable(RecoverableDiscoveryError::DirectoryExists), Severity::Info)],
            ),
            DirOutcome::Failed => StepView {
                next: with_stage(p, Stage::Aborted),
                actions: seq![],
                events: seq![progress(Step::Directory, Outcome::Failed(Failure::CreateDirectory), Severity::Error)],
            },
        },
        (Stage::DirectoryOwner, EventView::OwnerChanged(ok)) => if ok {
            start_scanning(p, seq![progress(Step::Directory, Outcome::Done, Severity::Success)])
        } else {
            StepView {
                next: with_stage(p, Stage::Aborted),
                actions: seq![],
                events: seq![progress(Step::Directory, Outcome::Failed(Failure::ChangeOwner), Severity::Error)],
            }
        },
        (Stage::Scanning, EventView::ScanFinished(id, out)) => finish_scan(p, id, out),
        _ => unchanged(p),
    }
}

/// The events `es`, handled one after another from `p`: the final state,
/// and all work and progress lines, in order.
pub open spec fn run(p: PipelineView, es: Seq<EventView>) -> StepView
    decreases es.len(),
{
    if es.len() == 0 {
        unchanged(p)
    } else {
        let first = transition(p, es[0]);
        let rest = run(first.next, es.drop_first());
        StepView { next: rest.next, actions: first.actions + rest.actions, events: first.events + rest.events }
    }
}

/// A discovery that has ended stays as it is, whatever happens after.
pub proof fn lemma_over_is_final(p: PipelineView, es: Seq<EventView>)
    requires
        p.stage == Stage::Completed || p.stage == Stage::Aborted,
    ensures
        run(p, es) == unchanged(p),
    decreases es.len(),
{
    if es.len() > 0 {
        lemma_over_is_final(p, es.drop_first());
        assert(transition(p, es[0]) == unchanged(p));
        assert(Seq::<Action>::empty() + Seq::<Action>::empty() =~= Seq::<Action>::empty());
        assert(Seq::<ProgressEvent>::empty() + Seq::<ProgressEvent>::empty() =~= Seq::<ProgressEvent>::empty());
    }
}

/// A failed connectivity check ends the target's discovery with exactly one
/// progress line, an error; whatever happens after, no work is started (no
/// directory is created) and no further line is shown.
pub proof fn connectivity_failure_ends_discovery(p: PipelineView, out: Option<Seq<char>>, later: Seq<EventView>)
    requires
        p.stage == Stage::Connectivity,
        connection_lost(out),
    ensures
        transition(p, EventView::Pinged(out)).next.stage == Stage::Aborted,
        transition(p, EventView::Pinged(out)).actions == Seq::<Action>::empty(),
        transition(p, EventView::Pinged(out)).events == seq![
            progress(Step::Connectivity, Outcome::Recoverable(RecoverableDiscoveryError::Connection), Severity::Error),
        ],
        run(transition(p, EventView::Pinged(out)).next, later).actions == Seq::<Action>::empty(),
        run(transition(p, EventView::Pinged(out)).next, later).events == Seq::<ProgressEvent>::empty(),
{
    lemma_over_is_final(transition(p, EventView::Pinged(out)).next, later);
}

/// Setting up the results directory twice for the same address: the second
/// setup finds the directory already there, which is not fatal and shows no
/// error, and only the first setup changes the directory's owner, once.
pub proof fn directory_setup_idempotent(first: PipelineView, second: PipelineView)
    requires
        first.stage == Stage::DirectoryCreate,
        second.stage == Stage::DirectoryCreate,
        first.ip == second.ip,
    ensures
        transition(first, EventView::DirectoryCreated(DirOutcome::Created)).actions == seq![Action::ChangeOwner],
        transition(transition(first, EventView::DirectoryCreated(DirOutcome::Created)).next, EventView::OwnerChanged(true)).next.stage
            == Stage::Scanning,
        forall|i: int| 0 <= i < transition(transition(first, EventView::DirectoryCreated(DirOutcome::Created)).next, EventView::OwnerChanged(true)).actions.len()
            ==> #[trigger] transition(transition(first, EventView::DirectoryCreated(DirOutcome::Created)).next, EventView::OwnerChanged(true)).actions[i]
            != Action::ChangeOwner,
        transition(second, EventView::DirectoryCreated(DirOutcome::AlreadyExists)).next.stage == Stage::Scanning,
        forall|i: int| 0 <= i < transition(second, EventView::DirectoryCreated(DirOutcome::AlreadyExists)).actions.len()
            ==> #[trigger] transition(second, EventView::DirectoryCreated(DirOutcome::AlreadyExists)).actions[i] != Action::ChangeOwner,
        forall|i: int| 0 <= i < transition(second, EventView::DirectoryCreated(DirOutcome::AlreadyExists)).events.len()
            ==> (#[trigger] transition(second, EventView::DirectoryCreated(DirOutcome::AlreadyExists)).events[i]).severity != Severity::Error,
{
}

/// A failed full-port scan touches no other scan: the others keep running,
/// nothing new starts, and a later saved service scan still starts the web
/// scans its output calls for.
pub proof fn scan_failure_isolated(
    p: PipelineView,
    failed: usize,
    services: usize,
    out: ScanOutcomeView,
    text: Seq<char>,
)
    requires
        p.stage == Stage::Scanning,
        p.tasks.len() == p.finished.len(),
        failed < p.tasks.len(),
        services < p.tasks.len(),
        p.tasks[failed as int] is AllTcpPorts,
        !p.finished[failed as int],
        p.tasks[services as int] is CommonTcpPorts,
        !p.finished[services as int],
        out is CommandFailed || out is WriteFailed,
    ensures
        transition(p, EventView::ScanFinished(failed, out)).next.stage == Stage::Scanning,
        transition(p, EventView::ScanFinished(failed, out)).next.tasks == p.tasks,
        transition(p, EventView::ScanFinished(failed, out)).next.finished == p.finished.update(failed as int, true),
        transition(p, EventView::ScanFinished(failed, out)).actions == Seq::<Action>::empty(),
        transition(transition(p, EventView::ScanFinished(failed, out)).next, EventView::ScanFinished(services, ScanOutcomeView::Saved(text))).next.tasks
            == p.tasks + web_tasks(service_ports(text, Service::Http), service_ports(text, Service::Https)),
        transition(transition(p, EventView::ScanFinished(failed, out)).next, EventView::ScanFinished(services, ScanOutcomeView::Saved(text))).actions
            == run_actions(p.tasks.len() as int, web_tasks(service_ports(text, Service::Http), service_ports(text, Service::Https)).len() as int),
{
    let a = transition(p, EventView::ScanFinished(failed, out));
    let finished = p.finished.update(failed as int, true) + Seq::new(0, |_k: int| false);
    assert(finished =~= p.finished.update(failed as int, true));
    assert(!finished[services as int]);
    assert(p.tasks + Seq::<TaskView>::empty() =~= p.tasks);
    assert(a.next.tasks == p.tasks);
    assert(!a.next.finished[services as int]);
}

/// Fan-out: a saved service scan starts exactly two web scans for each open
/// http or https port its output lists, numbered after the scans already
/// started, and nothing else.
pub proof fn web_fan_out(p: PipelineView, id: usize, text: Seq<char>)
    requires
        p.stage == Stage::Scanning,
        p.tasks.len() == p.finished.len(),
        id < p.tasks.len(),
        p.tasks[id as int] is CommonTcpPorts,
        !p.finished[id as int],
    ensures
        transition(p, EventView::ScanFinished(id, ScanOutcomeView::Saved(text))).actions.len()
            == 2 * (service_ports(text, Service::Http).len() + service_ports(text, Service::Https).len()),
        transition(p, EventView::ScanFinished(id, ScanOutcomeView::Saved(text))).actions == run_actions(
            p.tasks.len() as int,
            2 * (service_ports(text, Service::Http).len() + service_ports(text, Service::Https).len()) as int,
        ),
        transition(p, EventView::ScanFinished(id, ScanOutcomeView::Saved(text))).next.tasks.len()
            == p.tasks.len() + 2 * (service_ports(text, Service::Http).len() + service_ports(text, Service::Https).len()),
        forall|i: int| p.tasks.len() <= i < transition(p, EventView::ScanFinished(id, ScanOutcomeView::Saved(text))).next.tasks.len()
            ==> (#[trigger] transition(p, EventView::ScanFinished(id, ScanOutcomeView::Saved(text))).next.tasks[i]).is_web(),
{
    let http = service_ports(text, Service::Http);
    let https = service_ports(text, Service::Https);
    lemma_web_tasks_for_len(WebProtocol::Http, http);
    lemma_web_tasks_for_len(WebProtocol::Https, https);
    let w = web_tasks(http, https);
    let a = transition(p, EventView::ScanFinished(id, ScanOutcomeView::Saved(text)));
    assert(a.next.tasks == p.tasks + w);
    assert forall|i: int| p.tasks.len() <= i < a.next.tasks.len() implies (#[trigger] a.next.tasks[i]).is_web() by {
        let j = i - p.tasks.len();
        assert(a.next.tasks[i] == w[j]);
        let h = web_tasks_for(WebProtocol::Http, http);
        if j < h.len() {
            assert(w[j] == h[j]);
        } else {
            assert(w[j] == web_tasks_for(WebProtocol::Https, https)[j - h.len()]);
        }
    }
}

/// A target's discovery completes only once every scan started for it has
/// finished, and then says so in exactly one last progress line.
pub proof fn completion_waits_for_every_scan(p: PipelineView, e: EventView)
    requires
        p.stage != Stage::Completed,
        transition(p, e).next.stage == Stage::Completed,
    ensures
        all_finished(transition(p, e).next.finished),
        transition(p, e).events.len() > 0,
        transition(p, e).events.last() == progress(Step::Discovery, Outcome::Done, Severity::Success),
{
}

/// The first part of a progress line: what the step does.
pub open spec fn step_text(p: PipelineView, step: Step) -> Seq<char> {
    match step {
        Step::Connectivity => "Verifying connectivity"@,
        Step::Hosts => "Adding to /etc/hosts"@,
        Step::Directory => "Creating directory to store results in"@,
        Step::Scan(id) => if id < p.tasks.len() {
            p.tasks[id as int].description()
        } else {
            "Scanning"@
        },
        Step::ParseServices => "Parsing port scan"@,
        Step::Discovery => "Discovery completed"@,
    }
}

/// The second part of a progress line: how the step ended.
pub open spec fn outcome_text(o: Outcome) -> Seq<char> {
    match o {
        Outcome::Done => "✔️ Done"@,
        Outcome::Recoverable(e) => e.text(),
        Outcome::Failed(f) => f.text(),
    }
}

/// The answer to one event: the work to start, and the progress lines to show.
pub struct Reaction {
    pub actions: Vec<Action>,
    pub events: Vec<ProgressEvent>,
}

/// The discovery of one target.
pub struct TargetPipeline {
    target: TargetMachine,
    user: IMDUser,
    wordlist: String,
    stage: Stage,
    tasks: Vec<ScanTask>,
    finished: Vec<bool>,
}

impl View for TargetPipeline {
    type V = PipelineView;

    closed spec fn view(&self) -> PipelineView {
        PipelineView {
            stage: self.stage,
            ip: self.target.ip_spec(),
            hostname: self.target.hostname_spec(),
            tasks: self.tasks@.map_values(|t: ScanTask| t@),
            finished: self.finished@,
        }
    }
}

fn reaction(actions: Vec<Action>, events: Vec<ProgressEvent>) -> (r: Reaction)
    ensures
        r.actions@ == actions@,
        r.events@ == events@,
{
    Reaction { actions, events }
}

impl TargetPipeline {
    /// Every scan started has a finished flag.
    pub closed spec fn wf(&self) -> bool {
        self.tasks@.len() == self.finished@.len()
    }

    pub closed spec fn target_spec(&self) -> TargetMachine {
        self.target
    }

    pub closed spec fn user_spec(&self) -> IMDUser {
        self.user
    }

    pub closed spec fn wordlist_spec(&self) -> Seq<char> {
        self.wordlist@
    }

    /// A discovery of `target` that has not started, whose results go to
    /// `user` and whose content discovery uses `wordlist`.
    pub fn new(target: TargetMachine, user: IMDUser, wordlist: String) -> (r: TargetPipeline)
        ensures
            r.wf(),
            r@.stage == Stage::Start,
            r@.ip == target.ip_spec(),
            r@.hostname == target.hostname_spec(),
            r@.tasks == Seq::<TaskView>::empty(),
            r@.finished == Seq::<bool>::empty(),
            r.target_spec() == target,
            r.user_spec() == user,
            r.wordlist_spec() == wordlist@,
    {
        let r = TargetPipeline { target, user, wordlist, stage: Stage::Start, tasks: Vec::new(), finished: Vec::new() };
        assert(r@.tasks =~= Seq::<TaskView>::empty());
        r
    }

    pub fn stage(&self) -> (r: Stage)
        ensures
            r == self@.stage,
    {
        self.stage
    }

    /// The discovery has ended, completed or aborted: no event changes it.
    pub fn is_over(&self) -> (r: bool)
        ensures
            r == (self@.stage == Stage::Completed || self@.stage == Stage::Aborted),
    {
        match self.stage {
            Stage::Completed | Stage::Aborted => true,
            _ => false,
        }
    }

    pub fn target(&self) -> (r: &TargetMachine)
        ensures
            *r == self.target_spec(),
    {
        &self.target
    }

    /// The operator who is to own the results directory and files.
    pub fn user(&self) -> (r: &IMDUser)
        ensures
            *r == self.user_spec(),
    {
        &self.user
    }

    /// The directory the results go to: named by the target's address.
    pub fn results_dir(&self) -> (r: String)
        ensures
            r@ == self@.ip,
    {
        self.target.ip_as_string()
    }

    /// The program and arguments of the connectivity check.
    pub fn connectivity_command(&self) -> (r: (String, Vec<String>))
        ensures
            r.0@ == DiscoveryCommand::Ping.cli_spec(),
            r.1@.map_values(|a: String| a@) == DiscoveryCommand::Ping.args_spec(self@.ip),
    {
        let cmd = DiscoveryCommand::Ping;
        let args = cmd.args(self.target.ip_address().as_str());
        let mut owned: Vec<String> = Vec::new();
        let mut i: usize = 0;
        while i < args.len()
            invariant
                i <= args.len(),
                owned@.len() == i,
                crate::commands::str_views(args@) == cmd.args_spec(self@.ip),
                forall|j: int| 0 <= j < i ==> (#[trigger] owned@[j])@ == args@[j]@,
            decreases args.len() - i,
        {
            owned.push(args[i].to_owned());
            i = i + 1;
        }
        assert(owned@.map_values(|a: String| a@) =~= cmd.args_spec(self@.ip));
        (cmd.cli().to_owned(), owned)
    }

    /// The line to append to the hosts file; `None` for a target without a
    /// hostname.
    pub fn hosts_entry(&self) -> (r: Option<String>)
        ensures
            match self@.hostname {
                Some(h) => (r matches Some(e) && e@ == crate::hosts::entry_line(self@.ip, h)),
                None => r is None,
            },
    {
        match self.target.hostname() {
            Some(h) => Some(hosts_entry(self.target.ip_address().as_str(), h.as_str())),
            None => None,
        }
    }

    /// The scan numbered `id`, if one was started under that number.
    pub fn task(&self, id: usize) -> (r: Option<&ScanTask>)
        ensures
            id < self@.tasks.len() ==> (r matches Some(t) && t@ == self@.tasks[id as int]),
            id >= self@.tasks.len() ==> r is None,
    {
        if id < self.tasks.len() {
            Some(&self.tasks[id])
        } else {
            None
        }
    }

    /// The program and arguments of the scan numbered `id`.
    pub fn scan_command(&self, id: usize) -> (r: Option<(&'static str, Vec<String>)>)
        ensures
            id < self@.tasks.len() ==> (r matches Some((prog, args)) && prog@ == self@.tasks[id as int].program()
                && args@.map_values(|a: String| a@) == self@.tasks[id as int].arguments(
                    self@.ip,
                    self.target_spec().web_target_spec(),
                    self.wordlist_spec(),
                )),
            id >= self@.tasks.len() ==> r is None,
    {
        if id < self.tasks.len() {
            let t = &self.tasks[id];
            let web = self.target.web_target();
            Some((t.program(), t.arguments(self.target.ip_address().as_str(), web.as_str(), self.wordlist.as_str())))
        } else {
            None
        }
    }

    /// The result file of the scan numbered `id`.
    pub fn scan_output_file(&self, id: usize) -> (r: Option<String>)
        ensures
            id < self@.tasks.len() ==> (r matches Some(f) && f@ == self@.ip + "/"@ + self@.tasks[id as int].output_name()),
            id >= self@.tasks.len() ==> r is None,
    {
        if id < self.tasks.len() {
            Some(self.tasks[id].output_file(self.target.ip_address().as_str()))
        } else {
            None
        }
    }

    /// The text of a progress line of this target, without its label.
    pub fn message(&self, ev: &ProgressEvent) -> (r: String)
        ensures
            r@ == step_text(self@, ev.step) + " "@ + outcome_text(ev.outcome),
    {
        let mut r = match ev.step {
            Step::Connectivity => "Verifying connectivity".to_owned(),
            Step::Hosts => "Adding to /etc/hosts".to_owned(),
            Step::Directory => "Creating directory to store results in".to_owned(),
            Step::Scan(id) => if id < self.tasks.len() {
                self.tasks[id].description()
            } else {
                "Scanning".to_owned()
            },
            Step::ParseServices => "Parsing port scan".to_owned(),
            Step::Discovery => "Discovery completed".to_owned(),
        };
        r.append(" ");
        match ev.outcome {
            Outcome::Done => r.append("✔️ Done"),
            Outcome::Recoverable(e) => r.append(e.as_str()),
            Outcome::Failed(f) => r.append(f.as_str()),
        }
        r
    }

    /// A whole progress line: the target's label, then the message.
    pub fn line(&self, ev: &ProgressEvent) -> (r: String)
        ensures
            r@ == self.target_spec().prefix_spec() + " "@ + step_text(self@, ev.step) + " "@ + outcome_text(ev.outcome),
    {
        let mut r = self.target.prefix().clone();
        r.append(" ");
        let m = self.message(ev);
        r.append(m.as_str());
        r
    }

    fn all_finished_exec(&self) -> (r: bool)
        ensures
            r == all_finished(self.finished@),
    {
        let mut i: usize = 0;
        while i < self.finished.len()
            invariant
                i <= self.finished.len(),
                forall|j: int| 0 <= j < i ==> self.finished@[j],
            decreases self.finished.len() - i,
        {
            if !self.finished[i] {
                return false;
            }
            i = i + 1;
        }
        true
    }

    fn start_scanning_exec(&mut self, events: Vec<ProgressEvent>) -> (r: Reaction)
        ensures
            final(self).wf(),
            final(self)@ == start_scanning(old(self)@, events@).next,
            r.actions@ == start_scanning(old(self)@, events@).actions,
            r.events@ == events@,
            final(self).target_spec() == old(self).target_spec(),
            final(self).user_spec() == old(self).user_spec(),
            final(self).wordlist_spec() == old(self).wordlist_spec(),
    {
        self.stage = Stage::Scanning;
        self.tasks = vec![ScanTask::AllTcpPorts, ScanTask::NetworkDrives, ScanTask::CommonTcpPorts];
        self.finished = vec![false, false, false];
        assert(self.tasks@.map_values(|t: ScanTask| t@) =~= base_tasks());
        assert(self.finished@ =~= seq![false, false, false]);
        let actions = vec![Action::RunScan(0), Action::RunScan(1), Action::RunScan(2)];
        assert(actions@ =~= run_actions(0, 3));
        reaction(actions, events)
    }

    fn to_directory_exec(&mut self, events: Vec<ProgressEvent>) -> (r: Reaction)
        ensures
            final(self).wf() == old(self).wf(),
            final(self)@ == to_directory(old(self)@, events@).next,
            r.actions@ == to_directory(old(self)@, events@).actions,
            r.events@ == events@,
            final(self).target_spec() == old(self).target_spec(),
            final(self).user_spec() == old(self).user_spec(),
            final(self).wordlist_spec() == old(self).wordlist_spec(),
    {
        self.stage = Stage::DirectoryCreate;
        let actions = vec![Action::CreateDirectory];
        assert(actions@ =~= seq![Action::CreateDirectory]);
        reaction(actions, events)
    }

    fn abort_exec(&mut self, event: ProgressEvent) -> (r: Reaction)
        ensures
            final(self).wf() == old(self).wf(),
            final(self)@ == with_stage(old(self)@, Stage::Aborted),
            r.actions@ == Seq::<Action>::empty(),
            r.events@ == seq![event],
            final(self).target_spec() == old(self).target_spec(),
            final(self).user_spec() == old(self).user_spec(),
            final(self).wordlist_spec() == old(self).wordlist_spec(),
    {
        self.stage = Stage::Aborted;
        let events = vec![event];
        assert(events@ =~= seq![event]);
        reaction(Vec::new(), events)
    }

    fn finish_scan_exec(&mut self, id: usize, out: ScanOutcome) -> (r: Reaction)
        requires
            old(self).wf(),
            old(self).stage == Stage::Scanning,
        ensures
            final(self).wf(),
            final(self)@ == finish_scan(old(self)@, id, out@).next,
            r.actions@ == finish_scan(old(self)@, id, out@).actions,
            r.events@ == finish_scan(old(self)@, id, out@).events,
            final(self).target_spec() == old(self).target_spec(),
            final(self).user_spec() == old(self).user_spec(),
            final(self).wordlist_spec() == old(self).wordlist_spec(),
    {
        let ghost p = self@;
        if id >= self.tasks.len() || self.finished[id] {
            return reaction(Vec::new(), Vec::new());
        }
        let is_services = match &self.tasks[id] {
            ScanTask::CommonTcpPorts => true,
            _ => false,
        };
        assert(is_services == (p.tasks[id as int] is CommonTcpPorts));
        self.finished.set(id, true);
        let mut events: Vec<ProgressEvent> = Vec::new();
        let mut added: Vec<ScanTask> = match &out {
            ScanOutcome::CommandFailed => {
                events.push(ProgressEvent { step: Step::Scan(id), outcome: Outcome::Failed(Failure::Command), severity: Severity::Warning });
                Vec::new()
            },
            ScanOutcome::WriteFailed => {
                events.push(ProgressEvent { step: Step::Scan(id), outcome: Outcome::Failed(Failure::WriteResult), severity: Severity::Warning });
                Vec::new()
            },
            ScanOutcome::Saved(text) => {
                events.push(ProgressEvent { step: Step::Scan(id), outcome: Outcome::Done, severity: Severity::Success });
                if is_services {
                    web_scan_tasks(&parse_port_scan(text.as_str()))
                } else {
                    Vec::new()
                }
            },
        };
        if is_services {
            match &out {
                ScanOutcome::Saved(_) => events.push(ProgressEvent { step: Step::ParseServices, outcome: Outcome::Done, severity: Severity::Success }),
                _ => events.push(ProgressEvent {
                    step: Step::ParseServices,
                    outcome: Outcome::Recoverable(RecoverableDiscoveryError::Services),
                    severity: Severity::Error,
                }),
            }
        }
        let ghost added_view = match out@ {
            ScanOutcomeView::Saved(text) => follow_ups(p.tasks[id as int], text),
            _ => Seq::<TaskView>::empty(),
        };
        assert(added@.map_values(|t: ScanTask| t@) =~= added_view);
        assert(events@ =~= scan_events(id, p.tasks[id as int], out@));
        let start = self.tasks.len();
        let n = added.len();
        let ghost tasks_before = self.tasks@;
        let ghost added_before = added@;
        self.tasks.append(&mut added);
        assert(self.tasks@.map_values(|t: ScanTask| t@) =~= p.tasks + added_view) by {
            assert(self.tasks@ == tasks_before + added_before);
            assert(tasks_before.map_values(|t: ScanTask| t@) == p.tasks);
            assert(added_before.map_values(|t: ScanTask| t@) == added_view);
        }
        let total = self.tasks.len();
        let mut actions: Vec<Action> = Vec::new();
        let mut k: usize = 0;
        let ghost flags_start = self.finished@;
        let ghost tasks_after = self.tasks@;
        let ghost target = self.target;
        let ghost user = self.user;
        let ghost wordlist = self.wordlist;
        while k < n
            invariant
                k <= n,
                total == start + n,
                self.tasks@ == tasks_after,
                self.target == target,
                self.user == user,
                self.wordlist == wordlist,
                self.stage == Stage::Scanning,
                n == added_view.len(),
                start == p.tasks.len(),
                start + n == self.tasks@.len(),
                flags_start == p.finished.update(id as int, true),
                self.finished@ == flags_start + Seq::new(k as nat, |_j: int| false),
                actions@ == run_actions(start as int, k as int),
            decreases n - k,
        {
            self.finished.push(false);
            actions.push(Action::RunScan(start + k));
            assert(self.finished@ =~= flags_start + Seq::new((k + 1) as nat, |_j: int| false));
            assert(actions@ =~= run_actions(start as int, k + 1));
            k = k + 1;
        }
        if self.all_finished_exec() {
            self.stage = Stage::Completed;
            events.push(ProgressEvent { step: Step::Discovery, outcome: Outcome::Done, severity: Severity::Success });
        }
        reaction(actions, events)
    }

    /// Moves the discovery on by `event` ([`transition`]): returns the work
    /// to start and the progress lines to show.
    pub fn handle(&mut self, event: Event) -> (r: Reaction)
        requires
            old(self).wf(),
        ensures
            final(self).wf(),
            final(self)@ == transition(old(self)@, event@).next,
            r.actions@ == transition(old(self)@, event@).actions,
            r.events@ == transition(old(self)@, event@).events,
            final(self).target_spec() == old(self).target_spec(),
            final(self).user_spec() == old(self).user_spec(),
            final(self).wordlist_spec() == old(self).wordlist_spec(),
    {
        let ghost p = self@;
        match (self.stage, event) {
            (Stage::Start, Event::Begin) => {
                self.stage = Stage::Connectivity;
                let actions = vec![Action::CheckConnectivity];
                assert(actions@ =~= seq![Action::CheckConnectivity]);
                reaction(actions, Vec::new())
            },
            (Stage::Connectivity, Event::Pinged(out)) => {
                let lost = match &out {
                    None => true,
                    Some(o) => DiscoveryCommand::Ping.output_fails(o.as_str()),
                };
                if lost {
                    return self.abort_exec(ProgressEvent {
                        step: Step::Connectivity,
                        outcome: Outcome::Recoverable(RecoverableDiscoveryError::Connection),
                        severity: Severity::Error,
                    });
                }
                let ok = vec![ProgressEvent { step: Step::Connectivity, outcome: Outcome::Done, severity: Severity::Success }];
                assert(ok@ =~= seq![progress(Step::Connectivity, Outcome::Done, Severity::Success)]);
                if self.target.hostname().is_some() {
                    self.stage = Stage::HostsLookup;
                    let actions = vec![Action::ReadHosts];
                    assert(actions@ =~= seq![Action::ReadHosts]);
                    reaction(actions, ok)
                } else {
                    self.to_directory_exec(ok)
                }
            },
            (Stage::HostsLookup, Event::HostsRead(contents)) => {
                match contents {
                    None => {
                        let events = vec![ProgressEvent { step: Step::Hosts, outcome: Outcome::Failed(Failure::HostsRead), severity: Severity::Warning }];
                        assert(events@ =~= seq![progress(Step::Hosts, Outcome::Failed(Failure::HostsRead), Severity::Warning)]);
                        self.to_directory_exec(events)
                    },
                    Some(c) => {
                        let present = match self.target.hostname() {
                            Some(h) => is_registered(c.as_str(), self.target.ip_address().as_str(), h.as_str()),
                            None => false,
                        };
                        if present {
                            let events = vec![ProgressEvent {
                                step: Step::Hosts,
                                outcome: Outcome::Recoverable(RecoverableDiscoveryError::AlreadyInHost),
                                severity: Severity::Info,
                            }];
                            assert(events@ =~= seq![progress(Step::Hosts, Outcome::Recoverable(RecoverableDiscoveryError::AlreadyInHost), Severity::Info)]);
                            self.to_directory_exec(events)
                        } else {
                            self.stage = Stage::HostsAppend;
                            let actions = vec![Action::AppendHosts];
                            assert(actions@ =~= seq![Action::AppendHosts]);
                            reaction(actions, Vec::new())
                        }
                    },
                }
            },
            (Stage::HostsAppend, Event::HostsAppended(ok)) => {
                let events = if ok {
                    vec![ProgressEvent { step: Step::Hosts, outcome: Outcome::Done, severity: Severity::Success }]
                } else {
                    vec![ProgressEvent { step: Step::Hosts, outcome: Outcome::Failed(Failure::HostsWrite), severity: Severity::Warning }]
                };
                assert(events@ =~= if ok {
                    seq![progress(Step::Hosts, Outcome::Done, Severity::Success)]
                } else {
                    seq![progress(Step::Hosts, Outcome::Failed(Failure::HostsWrite), Severity::Warning)]
                });
                self.to_directory_exec(events)
            },
            (Stage::DirectoryCreate, Event::DirectoryCreated(outcome)) => {
                match outcome {
                    DirOutcome::Created => {
                        self.stage = Stage::DirectoryOwner;
                        let actions = vec![Action::ChangeOwner];
                        assert(actions@ =~= seq![Action::ChangeOwner]);
                        reaction(actions, Vec::new())
                    },
                    DirOutcome::AlreadyExists => {
                        let events = vec![ProgressEvent {
                            step: Step::Directory,
                            outcome: Outcome::Recoverable(RecoverableDiscoveryError::DirectoryExists),
                            severity: Severity::Info,
                        }];
                        assert(events@ =~= seq![progress(Step::Directory, Outcome::Recoverable(RecoverableDiscoveryError::DirectoryExists), Severity::Info)]);
                        self.start_scanning_exec(events)
                    },
                    DirOutcome::Failed => self.abort_exec(ProgressEvent {
                        step: Step::Directory,
                        outcome: Outcome::Failed(Failure::CreateDirectory),
                        severity: Severity::Error,
                    }),
                }
            },
            (Stage::DirectoryOwner, Event::OwnerChanged(ok)) => {
                if ok {
                    let events = vec![ProgressEvent { step: Step::Directory, outcome: Outcome::Done, severity: Severity::Success }];
                    assert(events@ =~= seq![progress(Step::Directory, Outcome::Done, Severity::Success)]);
                    self.start_scanning_exec(events)
                } else {
                    self.abort_exec(ProgressEvent {
                        step: Step::Directory,
                        outcome: Outcome::Failed(Failure::ChangeOwner),
                        severity: Severity::Error,
                    })
                }
            },
            (Stage::Scanning, Event::ScanFinished(id, out)) => self.finish_scan_exec(id, out),
            _ => reaction(Vec::new(), Vec::new()),
        }
    }
}

} // verus!
