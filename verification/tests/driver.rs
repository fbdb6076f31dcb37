use std::collections::VecDeque;

use sidecar_supervisor::health::{plan_health_check, probe_result};
use sidecar_supervisor::hostname::{Config, ServerConfig};
use sidecar_supervisor::log_ring::{LogStream, MAX_LOG_ENTRIES};
use sidecar_supervisor::port::get_sidecar_port;
use sidecar_supervisor::readiness::{ServerError, ServerReadyData};
use sidecar_supervisor::registrar::JobObjectState;
use sidecar_supervisor::supervisor::{Action, Elapsed, Event, OperatorChoice, Supervisor};

/// A world that answers the supervisor's requests from a script.
struct World {
    stored_url: Option<String>,
    config: Option<Config>,
    port_override: Option<&'static str>,
    free_port: u32,
    /// The status codes of the answers to the probes, in order; `None` is a
    /// request that failed. Once the script is used up every request fails.
    answers: VecDeque<Option<u16>>,
    choices: VecDeque<OperatorChoice>,
    /// How many milliseconds one pause takes in this world.
    pause_millis: u64,
    clock_millis: u64,
    probed: Vec<(String, bool, Option<String>)>,
    asked: usize,
    spawned: Vec<(String, u32, String)>,
    registered: Vec<u32>,
    killed: Vec<u32>,
}

impl World {
    fn new() -> World {
        World {
            stored_url: None,
            config: None,
            port_override: None,
            free_port: 49152,
            answers: VecDeque::new(),
            choices: VecDeque::new(),
            pause_millis: 10,
            clock_millis: 0,
            probed: Vec::new(),
            asked: 0,
            spawned: Vec::new(),
            registered: Vec::new(),
            killed: Vec::new(),
        }
    }

    fn probe(&mut self, url: &str, password: Option<&str>) -> bool {
        let Some(check) = plan_health_check(url, password) else {
            return false;
        };
        self.probed.push((check.url, check.bypass_proxy, check.password));
        probe_result(self.answers.pop_front().flatten())
    }

    /// Does what the supervisor asks for until it asks for nothing more.
    fn drive(&mut self, supervisor: &mut Supervisor, first: Action) {
        let mut action = first;
        loop {
            let event = match action {
                Action::ReadStoredUrl => Event::StoredUrl(self.stored_url.take()),
                Action::QueryCliConfig => Event::CliConfig(self.config.take()),
                Action::Probe { url, password } => {
                    Event::Health(self.probe(&url, password.as_deref()))
                }
                Action::AskOperator { .. } => {
                    self.asked += 1;
                    Event::Choice(self.choices.pop_front().unwrap_or(OperatorChoice::StartLocal))
                }
                Action::ChoosePort => Event::Port(
                    get_sidecar_port(self.port_override, None).unwrap_or(self.free_port),
                ),
                Action::Spawn { hostname, port, credential } => {
                    self.spawned.push((hostname, port, credential));
                    supervisor.handle(Event::Output(LogStream::Stdout, "starting\n".to_string()));
                    Event::Spawned(1000 + self.spawned.len() as u32)
                }
                Action::ReadClock => Event::Clock(Elapsed {
                    secs: self.clock_millis / 1000,
                    nanos: (self.clock_millis % 1000) as u32 * 1_000_000,
                }),
                Action::Sleep { millis } => {
                    assert_eq!(millis, 10);
                    self.clock_millis += self.pause_millis;
                    Event::Rested
                }
                Action::AssignToJob { pid } => {
                    self.registered.push(pid);
                    Event::Assigned(Ok(()))
                }
                Action::Kill { pid } => {
                    self.killed.push(pid);
                    return;
                }
                Action::Announce | Action::Idle => return,
            };
            action = supervisor.handle(event);
        }
    }
}

fn start(job: JobObjectState) -> (Supervisor, Action) {
    Supervisor::new(MAX_LOG_ENTRIES, job)
}

#[test]
fn driven_spawn_with_two_refused_probes() {
    let mut world = World::new();
    // The local probe before the spawn fails, then two probes of the
    // spawned server, then the server answers.
    world.answers = VecDeque::from([None, None, None, Some(200)]);
    let (mut supervisor, first) = start(JobObjectState::new(Ok(())));
    world.drive(&mut supervisor, first);

    assert_eq!(world.spawned.len(), 1);
    let (hostname, port, credential) = world.spawned[0].clone();
    assert_eq!((hostname.as_str(), port), ("127.0.0.1", 49152));
    assert!(!credential.is_empty());
    assert_eq!(world.probed.len(), 4);
    assert_eq!(
        world.probed[0],
        ("http://127.0.0.1:49152/global/health".to_string(), true, None)
    );
    for probe in &world.probed[1..] {
        assert_eq!(
            *probe,
            ("http://127.0.0.1:49152/global/health".to_string(), true, Some(credential.clone()))
        );
    }
    assert_eq!(world.registered, vec![1001]);
    assert!(supervisor.job().is_registered(1001));
    assert_eq!(
        supervisor.ensure_server_ready(),
        Some(Ok(ServerReadyData {
            url: "http://127.0.0.1:49152".to_string(),
            password: Some(credential)
        }))
    );

    let exit = supervisor.handle(Event::Exit);
    world.drive(&mut supervisor, exit);
    assert_eq!(world.killed, vec![1001]);
}

#[test]
fn driven_adoption_of_a_running_server() {
    let mut world = World::new();
    world.port_override = Some("4096");
    world.answers = VecDeque::from([Some(200)]);
    let (mut supervisor, first) = start(JobObjectState::new(Ok(())));
    world.drive(&mut supervisor, first);

    assert!(world.spawned.is_empty());
    assert!(world.registered.is_empty());
    assert_eq!(
        supervisor.ensure_server_ready(),
        Some(Ok(ServerReadyData { url: "http://127.0.0.1:4096".to_string(), password: None }))
    );
    let exit = supervisor.handle(Event::Exit);
    world.drive(&mut supervisor, exit);
    assert!(world.killed.is_empty());
}

#[test]
fn driven_custom_url_given_up_after_three_retries() {
    let mut world = World::new();
    world.stored_url = Some("http://server.example:9000".to_string());
    world.choices = VecDeque::from([
        OperatorChoice::Retry,
        OperatorChoice::Retry,
        OperatorChoice::Retry,
        OperatorChoice::StartLocal,
    ]);
    // Four probes of the custom URL fail; the local port answers.
    world.answers = VecDeque::from([None, Some(503), None, Some(404), Some(204)]);
    let (mut supervisor, first) = start(JobObjectState::new(Ok(())));
    world.drive(&mut supervisor, first);

    let custom: Vec<_> =
        world.probed.iter().filter(|p| p.0.starts_with("http://server.example")).collect();
    assert_eq!(custom.len(), 4);
    assert!(custom.iter().all(|p| !p.1 && p.2.is_none()));
    assert_eq!(world.asked, 4);
    assert_eq!(world.probed.len(), 5);
    assert!(world.spawned.is_empty());
    assert_eq!(
        supervisor.ensure_server_ready(),
        Some(Ok(ServerReadyData { url: "http://127.0.0.1:49152".to_string(), password: None }))
    );
}

#[test]
fn driven_custom_url_from_the_reported_configuration() {
    let mut world = World::new();
    world.config = Some(Config {
        server: Some(ServerConfig { hostname: Some("::".to_string()), port: Some(8123) }),
    });
    world.choices = VecDeque::from([OperatorChoice::Retry]);
    world.answers = VecDeque::from([None, Some(200)]);
    let (mut supervisor, first) = start(JobObjectState::new(Err("none".to_string())));
    world.drive(&mut supervisor, first);

    assert_eq!(
        world.probed,
        vec![
            ("http://[::1]:8123/global/health".to_string(), true, None),
            ("http://[::1]:8123/global/health".to_string(), true, None),
        ]
    );
    assert_eq!(
        supervisor.ensure_server_ready(),
        Some(Ok(ServerReadyData { url: "http://[::1]:8123".to_string(), password: None }))
    );
    assert!(world.spawned.is_empty());
}

#[test]
fn driven_spawn_that_never_answers() {
    let mut world = World::new();
    world.pause_millis = 2500;
    let (mut supervisor, first) = start(JobObjectState::new(Ok(())));
    world.drive(&mut supervisor, first);

    // Pauses end at 2.5 s, 5 s, ..., 30 s, which is not yet beyond the
    // timeout; the wait is given up at 32.5 s, after thirteen probes.
    assert_eq!(world.spawned.len(), 1);
    assert_eq!(world.probed.len(), 1 + 13);
    assert!(world.registered.is_empty());
    assert_eq!(
        supervisor.ensure_server_ready(),
        Some(Err(ServerError::SpawnTimedOut { logs: "[STDOUT] starting\n".to_string() }))
    );
    assert_eq!(supervisor.tracked_child(), None);
    let exit = supervisor.handle(Event::Exit);
    world.drive(&mut supervisor, exit);
    assert!(world.killed.is_empty());
}
