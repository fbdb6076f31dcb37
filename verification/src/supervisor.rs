//! The supervisor: the decisions that lead from start-up to a published
//! readiness result, and from the exit signal to the kill of the child.
//!
//! The supervisor does no outside work itself. It is told what happened
//! (an [`Event`]) and answers with what to do next (an [`Action`]); whoever
//! drives it performs the action and reports back. Output lines of the
//! child and the exit signal may arrive at any time; every other event is
//! the answer to the action before it, and one that is not awaited changes
//! nothing.
//!
//! The order of things: a stored custom URL, else a URL from the reported
//! configuration, is probed until it answers or the operator gives up on
//! it; then a local port is chosen and probed, in case a server of an
//! earlier run still listens there; otherwise a server is spawned with a
//! fresh credential and polled until it answers or the wait runs out.

use crate::credential::{generate_credential, is_credential};
use crate::hostname::{
    configured_url,
    get_server_url_from_config,
    http_url,
    local_server_url,
    Config,
    ConfigView,
    LOCAL_HOSTNAME,
};
use crate::log_ring::{keep_latest, render_all, LogEntryView, LogRing, LogStream};
use crate::readiness::{
    apply_op,
    observed,
    status_view,
    Readiness,
    ReadinessOp,
    ReadinessView,
    ReadyView,
    ServerError,
    ServerErrorView,
    ServerReadyData,
    ServerStatus,
    StatusView,
};
use crate::registrar::{job_assigned, outcome_view, JobObjectState, JobObjectView};
use vstd::prelude::*;
use vstd::string::StringExecFns;

verus! {

/// After how many seconds a spawned server that does not answer is given
/// up.
pub const SPAWN_TIMEOUT_SECS: u64 = 30;

/// How many milliseconds lie between two probes of a spawned server.
pub const POLL_INTERVAL_MILLIS: u64 = 10;

/// What the supervisor waits for.
#[derive(Clone, Copy, Debug, PartialEq, Eq, Structural)]
pub enum Phase {
    /// The stored custom URL.
    ReadingSettings,
    /// The configuration that the supervised program reports.
    QueryingConfig,
    /// The answer to the probe of the custom URL.
    ProbingCustom,
    /// The operator's choice between another try and a local server.
    AskingOperator,
    /// The port for the local server.
    ChoosingPort,
    /// The answer to the probe of the local URL, before anything is
    /// spawned.
    ProbingLocal,
    /// The spawn of the local server.
    Spawning,
    /// The time since the spawn.
    CheckingClock,
    /// The end of the pause between two probes.
    Sleeping,
    /// The answer to the probe of the spawned server.
    ProbingSpawned,
    /// The outcome of putting the child into the kill-on-close group.
    Registering,
    /// Nothing: the result is published.
    Settled,
}

/// What the operator chose when the custom server did not answer.
#[derive(Clone, Copy, Debug, PartialEq, Eq, Structural)]
pub enum OperatorChoice {
    Retry,
    StartLocal,
}

/// A span of time: whole seconds and the nanoseconds beyond them.
#[derive(Clone, Copy, Debug, PartialEq, Eq, Structural)]
pub struct Elapsed {
    pub secs: u64,
    pub nanos: u32,
}

/// Whether a wait of `elapsed` is longer than the spawn timeout.
pub open spec fn timed_out(elapsed: Elapsed) -> bool {
    elapsed.secs > SPAWN_TIMEOUT_SECS || (elapsed.secs == SPAWN_TIMEOUT_SECS && elapsed.nanos > 0)
}

/// What happened outside.
#[derive(Debug)]
pub enum Event {
    /// The settings were read: the stored custom URL, if there is one.
    StoredUrl(Option<String>),
    /// The supervised program was asked for its configuration: what it
    /// reported, if it could be read.
    CliConfig(Option<Config>),
    /// A probe ended: whether the server is healthy.
    Health(bool),
    /// The operator chose.
    Choice(OperatorChoice),
    /// A port was chosen.
    Port(u32),
    /// The server was spawned, with this process identifier.
    Spawned(u32),
    /// The clock was read: this long since the spawn.
    Clock(Elapsed),
    /// The pause between two probes is over.
    Rested,
    /// The attempt to put the child into the kill-on-close group ended.
    Assigned(Result<(), String>),
    /// The child wrote a line.
    Output(LogStream, String),
    /// The application exits.
    Exit,
}

/// The mathematical value of an [`Event`].
pub enum EventView {
    StoredUrl(Option<Seq<char>>),
    CliConfig(Option<ConfigView>),
    Health(bool),
    Choice(OperatorChoice),
    Port(u32),
    Spawned(u32),
    Clock(Elapsed),
    Rested,
    Assigned(Result<(), Seq<char>>),
    Output(LogStream, Seq<char>),
    Exit,
}

impl View for Event {
    type V = EventView;

    open spec fn view(&self) -> EventView {
        match self {
            Event::StoredUrl(url) => EventView::StoredUrl(
                match url {
                    Some(u) => Some(u@),
                    None => None,
                },
            ),
            Event::CliConfig(config) => EventView::CliConfig(
                match config {
                    Some(c) => Some(c@),
                    None => None,
                },
            ),
            Event::Health(healthy) => EventView::Health(*healthy),
            Event::Choice(choice) => EventView::Choice(*choice),
            Event::Port(port) => EventView::Port(*port),
            Event::Spawned(pid) => EventView::Spawned(*pid),
            Event::Clock(elapsed) => EventView::Clock(*elapsed),
            Event::Rested => EventView::Rested,
            Event::Assigned(outcome) => EventView::Assigned(outcome_view(*outcome)),
            Event::Output(stream, text) => EventView::Output(*stream, text@),
            Event::Exit => EventView::Exit,
        }
    }
}

/// What is to be done outside.
#[derive(Debug, PartialEq, Eq)]
pub enum Action {
    /// Read the stored custom URL; answer with [`Event::StoredUrl`].
    ReadStoredUrl,
    /// Ask the supervised program for its configuration; answer with
    /// [`Event::CliConfig`].
    QueryCliConfig,
    /// Probe the server at `url`, with the password if there is one;
    /// answer with [`Event::Health`].
    Probe { url: String, password: Option<String> },
    /// Tell the operator that `url` does not answer and ask what to do;
    /// answer with [`Event::Choice`].
    AskOperator { url: String },
    /// Choose the port for the local server; answer with [`Event::Port`].
    ChoosePort,
    /// Spawn the server; answer with [`Event::Spawned`].
    Spawn { hostname: String, port: u32, credential: String },
    /// Read the time since the spawn; answer with [`Event::Clock`].
    ReadClock,
    /// Pause; answer with [`Event::Rested`].
    Sleep { millis: u64 },
    /// Put the process into the kill-on-close group; answer with
    /// [`Event::Assigned`].
    AssignToJob { pid: u32 },
    /// The result is published: wake whoever waits for it.
    Announce,
    /// Kill the process.
    Kill { pid: u32 },
    /// Nothing.
    Idle,
}

/// The mathematical value of an [`Action`].
pub enum ActionView {
    ReadStoredUrl,
    QueryCliConfig,
    Probe { url: Seq<char>, password: Option<Seq<char>> },
    AskOperator { url: Seq<char> },
    ChoosePort,
    Spawn { hostname: Seq<char>, port: u32, credential: Seq<char> },
    ReadClock,
    Sleep { millis: u64 },
    AssignToJob { pid: u32 },
    Announce,
    Kill { pid: u32 },
    Idle,
}

impl View for Action {
    type V = ActionView;

    open spec fn view(&self) -> ActionView {
        match self {
            Action::ReadStoredUrl => ActionView::ReadStoredUrl,
            Action::QueryCliConfig => ActionView::QueryCliConfig,
            Action::Probe { url, password } => ActionView::Probe {
                url: url@,
                password: match password {
                    Some(p) => Some(p@),
                    None => None,
                },
            },
            Action::AskOperator { url } => ActionView::AskOperator { url: url@ },
            Action::ChoosePort => ActionView::ChoosePort,
            Action::Spawn { hostname, port, credential } => ActionView::Spawn {
                hostname: hostname@,
                port: *port,
                credential: credential@,
            },
            Action::ReadClock => ActionView::ReadClock,
            Action::Sleep { millis } => ActionView::Sleep { millis: *millis },
            Action::AssignToJob { pid } => ActionView::AssignToJob { pid: *pid },
            Action::Announce => ActionView::Announce,
            Action::Kill { pid } => ActionView::Kill { pid: *pid },
            Action::Idle => ActionView::Idle,
        }
    }
}

/// The child that is killed on exit, and the readiness result.
#[derive(Debug)]
pub struct ServerState {
    child: Option<u32>,
    status: Readiness,
}

/// The mathematical value of a [`ServerState`].
pub struct ServerStateView {
    /// The process identifier of the tracked child, if there is one.
    pub child: Option<u32>,
    /// The readiness cell.
    pub status: ReadinessView,
}

impl View for ServerState {
    type V = ServerStateView;

    closed spec fn view(&self) -> ServerStateView {
        ServerStateView { child: self.child, status: self.status@ }
    }
}

impl ServerState {
    /// A state that tracks `child` and in which no result is published
    /// yet.
    pub fn new(child: Option<u32>) -> (state: ServerState)
        ensures
            state@ == (ServerStateView { child, status: ReadinessView::Pending }),
    {
        ServerState { child, status: Readiness::new() }
    }

    /// Tracks `child` from now on, in place of any child tracked before.
    pub fn set_child(&mut self, child: Option<u32>)
        ensures
            final(self)@ == (ServerStateView { child, ..old(self)@ }),
    {
        self.child = child;
    }

    /// Hands out the tracked child to be killed, and tracks none from now
    /// on.
    pub fn take_child(&mut self) -> (child: Option<u32>)
        ensures
            child == old(self)@.child,
            final(self)@ == (ServerStateView { child: None, ..old(self)@ }),
    {
        self.child.take()
    }

    /// Publishes the readiness result, if none was published before, and
    /// says whether it did.
    pub fn publish(&mut self, status: ServerStatus) -> (accepted: bool)
        ensures
            final(self)@ == (ServerStateView {
                status: apply_op(old(self)@.status, ReadinessOp::Publish(status_view(status))),
                ..old(self)@
            }),
            accepted == old(self)@.status is Pending,
    {
        self.status.publish(status)
    }

    /// Records that no result will be published. A published result
    /// stays.
    pub fn abandon(&mut self)
        ensures
            final(self)@ == (ServerStateView {
                status: apply_op(old(self)@.status, ReadinessOp::Abandon),
                ..old(self)@
            }),
    {
        self.status.abandon()
    }

    /// The readiness result as consumers see it now: `None` while it is
    /// pending.
    pub fn ensure_server_ready(&self) -> (seen: Option<ServerStatus>)
        ensures
            match seen {
                Some(status) => observed(self@.status) == Some(status_view(status)),
                None => observed(self@.status) is None,
            },
    {
        self.status.observe()
    }
}

/// The supervisor's state.
#[derive(Debug)]
pub struct Supervisor {
    phase: Phase,
    custom_url: Option<String>,
    port: u32,
    password: Option<String>,
    spawned: Option<u32>,
    server: ServerState,
    logs: LogRing,
    job: JobObjectState,
}

/// The mathematical value of a [`Supervisor`].
pub struct SupervisorView {
    /// What the supervisor waits for.
    pub phase: Phase,
    /// The custom URL, once one was found.
    pub custom_url: Option<Seq<char>>,
    /// The port of the local server, once one was chosen.
    pub port: u32,
    /// The credential generated for the spawned server, once there is one.
    pub password: Option<Seq<char>>,
    /// The process identifier of the spawned server, once it was spawned.
    pub spawned: Option<u32>,
    /// The child that is killed on exit.
    pub child: Option<u32>,
    /// The readiness cell.
    pub status: ReadinessView,
    /// The entries in the log ring.
    pub logs: Seq<LogEntryView>,
    /// The bound of the log ring.
    pub log_bound: nat,
    /// The record of the kill-on-close group.
    pub job: JobObjectView,
}

impl View for Supervisor {
    type V = SupervisorView;

    closed spec fn view(&self) -> SupervisorView {
        SupervisorView {
            phase: self.phase,
            custom_url: match self.custom_url {
                Some(u) => Some(u@),
                None => None,
            },
            port: self.port,
            password: match self.password {
                Some(p) => Some(p@),
                None => None,
            },
            spawned: self.spawned,
            child: self.server@.child,
            status: self.server@.status,
            logs: self.logs@,
            log_bound: self.logs.bound(),
            job: self.job@,
        }
    }
}

/// The state before anything happened.
pub open spec fn initial_state(log_bound: nat, job: JobObjectView) -> SupervisorView {
    SupervisorView {
        phase: Phase::ReadingSettings,
        custom_url: None,
        port: 0,
        password: None,
        spawned: None,
        child: None,
        status: ReadinessView::Pending,
        logs: Seq::empty(),
        log_bound,
        job,
    }
}

/// A text, or the empty text where there is none.
pub open spec fn text_or_empty(text: Option<Seq<char>>) -> Seq<char> {
    match text {
        Some(t) => t,
        None => Seq::empty(),
    }
}

/// The URL of the local server of this run.
pub open spec fn local_url(s: SupervisorView) -> Seq<char> {
    http_url(LOCAL_HOSTNAME@, s.port)
}

/// The step into the custom-URL phase: probe `url`, without a credential.
pub open spec fn begin_custom(s: SupervisorView, url: Seq<char>) -> (SupervisorView, ActionView) {
    (
        SupervisorView { phase: Phase::ProbingCustom, custom_url: Some(url), ..s },
        ActionView::Probe { url, password: None },
    )
}

/// The step into the local phase: have a port chosen.
pub open spec fn begin_local(s: SupervisorView) -> (SupervisorView, ActionView) {
    (SupervisorView { phase: Phase::ChoosingPort, ..s }, ActionView::ChoosePort)
}

/// The last step: publish `outcome`. On success `child` is tracked from
/// now on, to be killed on exit.
pub open spec fn settle(
    s: SupervisorView,
    outcome: StatusView,
    child: Option<u32>,
) -> (SupervisorView, ActionView) {
    (
        SupervisorView {
            phase: Phase::Settled,
            child: if outcome is Ok {
                child
            } else {
                s.child
            },
            status: apply_op(s.status, ReadinessOp::Publish(outcome)),
            ..s
        },
        ActionView::Announce,
    )
}

/// The result for a server that this run spawned: the local URL with the
/// generated credential.
pub open spec fn spawned_ready(s: SupervisorView) -> ReadyView {
    ReadyView { url: local_url(s), password: s.password }
}

/// The failure for a spawned server that did not answer in time: it
/// carries the snapshot of the log ring.
pub open spec fn spawn_timeout(s: SupervisorView) -> ServerErrorView {
    ServerErrorView::SpawnTimedOut { logs: render_all(s.logs) }
}

/// What an output line does: it goes into the log ring.
pub open spec fn on_output(
    s: SupervisorView,
    stream: LogStream,
    text: Seq<char>,
) -> (SupervisorView, ActionView) {
    (
        SupervisorView {
            logs: keep_latest(s.logs.push(LogEntryView { stream, text }), s.log_bound),
            ..s
        },
        ActionView::Idle,
    )
}

/// What the exit signal does: the tracked child, if there is one, is to be
/// killed and is tracked no longer.
pub open spec fn on_exit(s: SupervisorView) -> (SupervisorView, ActionView) {
    match s.child {
        Some(pid) => (SupervisorView { child: None, ..s }, ActionView::Kill { pid }),
        None => (s, ActionView::Idle),
    }
}

/// The step on the answer that the current phase waits for; an event that
/// is not awaited changes nothing. `credential` is the fresh credential that
/// the step uses if it decides to spawn.
pub open spec fn on_answer(
    s: SupervisorView,
    event: EventView,
    credential: Seq<char>,
) -> (SupervisorView, ActionView) {
    match (s.phase, event) {
        (Phase::ReadingSettings, EventView::StoredUrl(Some(url))) => begin_custom(s, url),
        (Phase::ReadingSettings, EventView::StoredUrl(None)) => (
            SupervisorView { phase: Phase::QueryingConfig, ..s },
            ActionView::QueryCliConfig,
        ),
        (Phase::QueryingConfig, EventView::CliConfig(Some(config))) => match configured_url(
            config,
        ) {
            Some(url) => begin_custom(s, url),
            None => begin_local(s),
        },
        (Phase::QueryingConfig, EventView::CliConfig(None)) => begin_local(s),
        (Phase::ProbingCustom, EventView::Health(true)) => settle(
            s,
            Ok(ReadyView { url: text_or_empty(s.custom_url), password: None }),
            None,
        ),
        (Phase::ProbingCustom, EventView::Health(false)) => (
            SupervisorView { phase: Phase::AskingOperator, ..s },
            ActionView::AskOperator { url: text_or_empty(s.custom_url) },
        ),
        (Phase::AskingOperator, EventView::Choice(OperatorChoice::Retry)) => (
            SupervisorView { phase: Phase::ProbingCustom, ..s },
            ActionView::Probe { url: text_or_empty(s.custom_url), password: None },
        ),
        (Phase::AskingOperator, EventView::Choice(OperatorChoice::StartLocal)) => begin_local(s),
        (Phase::ChoosingPort, EventView::Port(port)) => (
            SupervisorView { phase: Phase::ProbingLocal, port, ..s },
            ActionView::Probe { url: http_url(LOCAL_HOSTNAME@, port), password: None },
        ),
        (Phase::ProbingLocal, EventView::Health(true)) => settle(
            s,
            Ok(ReadyView { url: local_url(s), password: None }),
            None,
        ),
        (Phase::ProbingLocal, EventView::Health(false)) => (
            SupervisorView { phase: Phase::Spawning, password: Some(credential), ..s },
            ActionView::Spawn { hostname: LOCAL_HOSTNAME@, port: s.port, credential },
        ),
        (Phase::Spawning, EventView::Spawned(pid)) => (
            SupervisorView { phase: Phase::CheckingClock, spawned: Some(pid), ..s },
            ActionView::ReadClock,
        ),
        (Phase::CheckingClock, EventView::Clock(elapsed)) => if timed_out(elapsed) {
            settle(s, Err(spawn_timeout(s)), None)
        } else {
            (
                SupervisorView { phase: Phase::Sleeping, ..s },
                ActionView::Sleep { millis: POLL_INTERVAL_MILLIS },
            )
        },
        (Phase::Sleeping, EventView::Rested) => (
            SupervisorView { phase: Phase::ProbingSpawned, ..s },
            ActionView::Probe { url: local_url(s), password: s.password },
        ),
        (Phase::ProbingSpawned, EventView::Health(true)) => match s.spawned {
            Some(pid) if s.job.job => (
                SupervisorView { phase: Phase::Registering, ..s },
                ActionView::AssignToJob { pid },
            ),
            _ => settle(s, Ok(spawned_ready(s)), s.spawned),
        },
        (Phase::ProbingSpawned, EventView::Health(false)) => (
            SupervisorView { phase: Phase::CheckingClock, ..s },
            ActionView::ReadClock,
        ),
        (Phase::Registering, EventView::Assigned(outcome)) => settle(
            SupervisorView {
                job: match s.spawned {
                    Some(pid) => job_assigned(s.job, pid, outcome),
                    None => s.job,
                },
                ..s
            },
            Ok(spawned_ready(s)),
            s.spawned,
        ),
        _ => (s, ActionView::Idle),
    }
}

/// The supervisor's step: the state after `event`, and what is to be done
/// next.
pub open spec fn next(
    s: SupervisorView,
    event: EventView,
    credential: Seq<char>,
) -> (SupervisorView, ActionView) {
    match event {
        EventView::Output(stream, text) => on_output(s, stream, text),
        EventView::Exit => on_exit(s),
        _ => on_answer(s, event, credential),
    }
}

/// Whether the step on `event` uses the fresh credential.
pub open spec fn wants_credential(s: SupervisorView, event: EventView) -> bool {
    s.phase == Phase::ProbingLocal && event == EventView::Health(false)
}

impl Supervisor {
    /// A supervisor at the start of a run, with an empty log ring of the
    /// given bound and the record of the kill-on-close group, together
    /// with the first thing to do.
    pub fn new(log_bound: usize, job: JobObjectState) -> (start: (Supervisor, Action))
        ensures
            start.0@ == initial_state(log_bound as nat, job@),
            start.1@ == ActionView::ReadStoredUrl,
    {
        let supervisor = Supervisor {
            phase: Phase::ReadingSettings,
            custom_url: None,
            port: 0,
            password: None,
            spawned: None,
            server: ServerState::new(None),
            logs: LogRing::new(log_bound),
            job,
        };
        (supervisor, Action::ReadStoredUrl)
    }

    /// What the supervisor waits for.
    pub fn phase(&self) -> (phase: Phase)
        ensures
            phase == self@.phase,
    {
        self.phase
    }

    /// The readiness result as consumers see it now: `None` while it is
    /// pending.
    pub fn ensure_server_ready(&self) -> (seen: Option<ServerStatus>)
        ensures
            match seen {
                Some(status) => observed(self@.status) == Some(status_view(status)),
                None => observed(self@.status) is None,
            },
    {
        self.server.ensure_server_ready()
    }

    /// The retained log entries as one string.
    pub fn get_logs(&self) -> (text: String)
        ensures
            text@ == render_all(self@.logs),
    {
        self.logs.snapshot()
    }

    /// The process identifier of the child that is killed on exit, if one
    /// is tracked.
    pub fn tracked_child(&self) -> (child: Option<u32>)
        ensures
            child == self@.child,
    {
        let ghost view = self.server@;
        self.server.child
    }

    /// The record of the kill-on-close group.
    pub fn job(&self) -> (job: &JobObjectState)
        ensures
            job@ == self@.job,
    {
        &self.job
    }

    /// Records that the run ends without a result, so that nobody waits
    /// for one. A published result stays.
    pub fn abandon(&mut self)
        ensures
            final(self)@ == (SupervisorView {
                status: apply_op(old(self)@.status, ReadinessOp::Abandon),
                ..old(self)@
            }),
    {
        self.server.abandon();
    }

    /// Tells whether the step on `event` needs a fresh credential.
    pub fn needs_credential(&self, event: &Event) -> (needed: bool)
        ensures
            needed == wants_credential(self@, event@),
    {
        match (self.phase, event) {
            (Phase::ProbingLocal, Event::Health(false)) => true,
            _ => false,
        }
    }

    fn custom_url_text(&self) -> (url: String)
        ensures
            url@ == text_or_empty(self@.custom_url),
    {
        match &self.custom_url {
            Some(u) => u.clone(),
            None => String::new(),
        }
    }

    fn password_copy(&self) -> (password: Option<String>)
        ensures
            match password {
                Some(p) => self@.password == Some(p@),
                None => self@.password is None,
            },
    {
        match &self.password {
            Some(p) => Some(p.clone()),
            None => None,
        }
    }

    fn begin_custom(&mut self, url: String) -> (action: Action)
        ensures
            (final(self)@, action@) == begin_custom(old(self)@, url@),
    {
        let action = Action::Probe { url: url.clone(), password: None };
        self.custom_url = Some(url);
        self.phase = Phase::ProbingCustom;
        action
    }

    fn begin_local(&mut self) -> (action: Action)
        ensures
            (final(self)@, action@) == begin_local(old(self)@),
    {
        self.phase = Phase::ChoosingPort;
        Action::ChoosePort
    }

    fn settle(&mut self, outcome: ServerStatus, child: Option<u32>) -> (action: Action)
        ensures
            (final(self)@, action@) == settle(old(self)@, status_view(outcome), child),
    {
        if outcome.is_ok() {
            self.server.set_child(child);
        }
        let _ = self.server.publish(outcome);
        self.phase = Phase::Settled;
        Action::Announce
    }

    fn spawned_ready(&self) -> (ready: ServerReadyData)
        ensures
            ready@ == spawned_ready(self@),
    {
        ServerReadyData { url: local_server_url(self.port), password: self.password_copy() }
    }

    /// Takes one step with the given fresh credential, which is used if
    /// the step decides to spawn a server.
    pub fn advance(&mut self, event: Event, credential: String) -> (action: Action)
        ensures
            (final(self)@, action@) == next(old(self)@, event@, credential@),
    {
        match event {
            Event::Output(stream, text) => {
                self.logs.append(stream, text);
                Action::Idle
            },
            Event::Exit => match self.server.take_child() {
                Some(pid) => Action::Kill { pid },
                None => Action::Idle,
            },
            Event::StoredUrl(stored) => match (self.phase, stored) {
                (Phase::ReadingSettings, Some(url)) => self.begin_custom(url),
                (Phase::ReadingSettings, None) => {
                    self.phase = Phase::QueryingConfig;
                    Action::QueryCliConfig
                },
                _ => Action::Idle,
            },
            Event::CliConfig(config) => match (self.phase, config) {
                (Phase::QueryingConfig, Some(config)) => match get_server_url_from_config(
                    &config,
                ) {
                    Some(url) => self.begin_custom(url),
                    None => self.begin_local(),
                },
                (Phase::QueryingConfig, None) => self.begin_local(),
                _ => Action::Idle,
            },
            Event::Health(healthy) => match (self.phase, healthy) {
                (Phase::ProbingCustom, true) => {
                    let ready = ServerReadyData { url: self.custom_url_text(), password: None };
                    self.settle(Ok(ready), None)
                },
                (Phase::ProbingCustom, false) => {
                    self.phase = Phase::AskingOperator;
                    Action::AskOperator { url: self.custom_url_text() }
                },
                (Phase::ProbingLocal, true) => {
                    let ready = ServerReadyData {
                        url: local_server_url(self.port),
                        password: None,
                    };
                    self.settle(Ok(ready), None)
                },
                (Phase::ProbingLocal, false) => {
                    let action = Action::Spawn {
                        hostname: String::from_str(LOCAL_HOSTNAME),
                        port: self.port,
                        credential: credential.clone(),
                    };
                    self.password = Some(credential);
                    self.phase = Phase::Spawning;
                    action
                },
                (Phase::ProbingSpawned, true) => {
                    let registering = match self.spawned {
                        Some(pid) if self.job.has_job() => Some(pid),
                        _ => None,
                    };
                    match registering {
                        Some(pid) => {
                            self.phase = Phase::Registering;
                            Action::AssignToJob { pid }
                        },
                        None => {
                            let ready = self.spawned_ready();
                            let child = self.spawned;
                            self.settle(Ok(ready), child)
                        },
                    }
                },
                (Phase::ProbingSpawned, false) => {
                    self.phase = Phase::CheckingClock;
                    Action::ReadClock
                },
                _ => Action::Idle,
            },
            Event::Choice(choice) => match (self.phase, choice) {
                (Phase::AskingOperator, OperatorChoice::Retry) => {
                    self.phase = Phase::ProbingCustom;
                    Action::Probe { url: self.custom_url_text(), password: None }
                },
                (Phase::AskingOperator, OperatorChoice::StartLocal) => self.begin_local(),
                _ => Action::Idle,
            },
            Event::Port(port) => match self.phase {
                Phase::ChoosingPort => {
                    self.port = port;
                    self.phase = Phase::ProbingLocal;
                    Action::Probe { url: local_server_url(port), password: None }
                },
                _ => Action::Idle,
            },
            Event::Spawned(pid) => match self.phase {
                Phase::Spawning => {
                    self.spawned = Some(pid);
                    self.phase = Phase::CheckingClock;
                    Action::ReadClock
                },
                _ => Action::Idle,
            },
            Event::Clock(elapsed) => match self.phase {
                Phase::CheckingClock => {
                    if elapsed.secs > SPAWN_TIMEOUT_SECS || (elapsed.secs == SPAWN_TIMEOUT_SECS
                        && elapsed.nanos > 0) {
                        let error = ServerError::SpawnTimedOut { logs: self.logs.snapshot() };
                        self.settle(Err(error), None)
                    } else {
                        self.phase = Phase::Sleeping;
                        Action::Sleep { millis: POLL_INTERVAL_MILLIS }
                    }
                },
                _ => Action::Idle,
            },
            Event::Rested => match self.phase {
                Phase::Sleeping => {
                    self.phase = Phase::ProbingSpawned;
                    Action::Probe {
                        url: local_server_url(self.port),
                        password: self.password_copy(),
                    }
                },
                _ => Action::Idle,
            },
            Event::Assigned(outcome) => match self.phase {
                Phase::Registering => {
                    let ready = self.spawned_ready();
                    let child = self.spawned;
                    match child {
                        Some(pid) => self.job.assign_pid(pid, outcome),
                        None => {},
                    }
                    self.settle(Ok(ready), child)
                },
                _ => Action::Idle,
            },
        }
    }

    /// Takes one step. If the step decides to spawn a server, it generates
    /// the credential for it.
    pub fn handle(&mut self, event: Event) -> (action: Action)
        ensures
            exists|credential: Seq<char>|
                {
                    &&& wants_credential(old(self)@, event@) ==> is_credential(credential)
                    &&& (final(self)@, action@) == #[trigger] next(
                        old(self)@,
                        event@,
                        credential,
                    )
                },
    {
        let credential = if self.needs_credential(&event) {
            generate_credential()
        } else {
            String::new()
        };
        self.advance(event, credential)
    }
}

} // verus!
