use sidecar_supervisor::readiness::{clone_status, Readiness, ServerError, ServerReadyData};

fn ready(url: &str, password: Option<&str>) -> ServerReadyData {
    ServerReadyData { url: url.to_string(), password: password.map(str::to_string) }
}

#[test]
fn pending_cell_shows_nothing() {
    let cell = Readiness::new();
    assert_eq!(cell.observe(), None);
}

#[test]
fn first_publication_wins() {
    let mut cell = Readiness::new();
    assert!(cell.publish(Ok(ready("http://127.0.0.1:1", Some("pw")))));
    assert!(!cell.publish(Ok(ready("http://other", None))));
    assert!(!cell.publish(Err(ServerError::StatusUnavailable)));
    cell.abandon();
    assert_eq!(cell.observe(), Some(Ok(ready("http://127.0.0.1:1", Some("pw")))));
}

#[test]
fn all_consumers_see_the_same_value() {
    let mut cell = Readiness::new();
    let early = cell.observe();
    cell.publish(Err(ServerError::SpawnTimedOut { logs: "l".to_string() }));
    let first = cell.observe();
    cell.publish(Ok(ready("x", None)));
    let second = cell.observe();
    cell.abandon();
    let third = cell.observe();
    assert_eq!(early, None);
    assert_eq!(first, Some(Err(ServerError::SpawnTimedOut { logs: "l".to_string() })));
    assert_eq!(first, second);
    assert_eq!(second, third);
}

#[test]
fn abandoned_cell_shows_a_terminal_failure() {
    let mut cell = Readiness::new();
    cell.abandon();
    assert_eq!(cell.observe(), Some(Err(ServerError::StatusUnavailable)));
    assert!(!cell.publish(Ok(ready("late", None))));
    assert_eq!(cell.observe(), Some(Err(ServerError::StatusUnavailable)));
}

#[test]
fn error_messages() {
    assert_eq!(
        ServerError::SpawnTimedOut { logs: "[STDERR] boom\n".to_string() }.message(),
        "Failed to spawn OpenCode Server. Logs:\n[STDERR] boom\n"
    );
    assert_eq!(ServerError::StatusUnavailable.message(), "Failed to get server status");
}

#[test]
fn copies_are_equal() {
    let status = Ok(ready("http://h:1", Some("p")));
    assert_eq!(clone_status(&status), status);
    let failed = Err(ServerError::SpawnTimedOut { logs: "x".to_string() });
    assert_eq!(clone_status(&failed), failed);
    let data = ready("u", None);
    assert_eq!(data.clone(), data);
}
