use captains_log::{DispatcherState, SetupError, SetupRequest, SetupStep};

fn request(checksum: u64, dynamic: bool, has_signals: bool) -> SetupRequest {
    SetupRequest { checksum, dynamic, has_signals }
}

#[test]
fn repeated_setup_spawns_one_listener() {
    let mut d = DispatcherState::new();
    assert!(!d.is_active());
    let req = request(42, false, true);
    let step = d.plan(&req);
    assert_eq!(step, SetupStep::Install);
    let e1 = d.complete(&req, step, true);
    assert_eq!(e1.result, Ok(true));
    assert!(e1.spawn_listener && e1.register && e1.reset_max_level);
    assert!(d.is_active());
    let before = d;
    let step = d.plan(&req);
    assert_eq!(step, SetupStep::Reopen);
    let e2 = d.complete(&req, step, true);
    assert_eq!(e2.result, Ok(false));
    assert!(!e2.spawn_listener && !e2.register);
    assert_eq!(d, before);
}

#[test]
fn no_listener_without_signals() {
    let mut d = DispatcherState::new();
    let req = request(1, true, false);
    let step = d.plan(&req);
    let e = d.complete(&req, step, true);
    assert!(!e.spawn_listener);
    assert!(!d.listener_started);
}

#[test]
fn changed_config_rejected_when_not_dynamic() {
    let mut d = DispatcherState::new();
    let first = request(1, false, false);
    let s = d.plan(&first);
    d.complete(&first, s, true);
    let second = request(2, true, false);
    let step = d.plan(&second);
    assert_eq!(step, SetupStep::Reject);
    let e = d.complete(&second, step, true);
    assert_eq!(e.result, Err(SetupError::ConfigChanged));
    assert_eq!(d.checksum, 1);
}

#[test]
fn changed_config_swapped_when_dynamic() {
    let mut d = DispatcherState::new();
    let first = request(1, true, true);
    let s = d.plan(&first);
    d.complete(&first, s, true);
    let second = request(2, true, true);
    let step = d.plan(&second);
    assert_eq!(step, SetupStep::Swap);
    let e = d.complete(&second, step, true);
    assert_eq!(e.result, Ok(false));
    assert!(e.reset_max_level && !e.spawn_listener);
    assert_eq!(d.checksum, 2);
}

#[test]
fn new_config_not_dynamic_rejected_even_on_dynamic_dispatcher() {
    let mut d = DispatcherState::new();
    let first = request(1, true, false);
    let s = d.plan(&first);
    d.complete(&first, s, true);
    assert_eq!(d.plan(&request(2, false, false)), SetupStep::Reject);
}

#[test]
fn failed_open_leaves_nothing_behind() {
    let mut d = DispatcherState::new();
    let req = request(5, false, true);
    let step = d.plan(&req);
    let e = d.complete(&req, step, false);
    assert_eq!(e.result, Err(SetupError::OpenFailed));
    assert!(!e.spawn_listener && !e.register);
    assert!(!d.is_active());
    assert!(!d.listener_started);
}

#[test]
fn failed_swap_keeps_old_checksum() {
    let mut d = DispatcherState::new();
    let first = request(1, true, false);
    let s = d.plan(&first);
    d.complete(&first, s, true);
    let second = request(2, true, false);
    let step = d.plan(&second);
    let e = d.complete(&second, step, false);
    assert_eq!(e.result, Err(SetupError::OpenFailed));
    assert_eq!(d.checksum, 1);
}
