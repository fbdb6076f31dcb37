use sidecar_supervisor::registrar::JobObjectState;

#[test]
fn created_group_has_no_diagnostic() {
    let state = JobObjectState::new(Ok(()));
    assert!(state.has_job());
    assert_eq!(state.last_error(), None);
    assert!(!state.is_registered(1));
}

#[test]
fn failed_creation_is_recorded() {
    let state = JobObjectState::new(Err("out of handles".to_string()));
    assert!(!state.has_job());
    assert_eq!(
        state.last_error(),
        Some("Failed to create job object: out of handles".to_string())
    );
}

#[test]
fn assigned_processes_are_remembered() {
    let mut state = JobObjectState::new(Ok(()));
    state.assign_pid(10, Ok(()));
    state.assign_pid(11, Ok(()));
    assert!(state.is_registered(10));
    assert!(state.is_registered(11));
    assert!(!state.is_registered(12));
    assert_eq!(state.last_error(), None);
}

#[test]
fn failed_assignment_is_recorded_per_process() {
    let mut state = JobObjectState::new(Ok(()));
    state.assign_pid(10, Ok(()));
    state.assign_pid(11, Err("gone".to_string()));
    assert!(state.is_registered(10));
    assert!(!state.is_registered(11));
    assert_eq!(
        state.last_error(),
        Some("Failed to assign process to job object: gone".to_string())
    );
    assert!(state.has_job());
}

#[test]
fn without_a_group_nothing_is_assigned() {
    let mut state = JobObjectState::new(Err("no".to_string()));
    state.assign_pid(10, Ok(()));
    state.assign_pid(11, Err("x".to_string()));
    assert!(!state.is_registered(10));
    assert_eq!(state.last_error(), Some("Failed to create job object: no".to_string()));
}
