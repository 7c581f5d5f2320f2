use atm_auto_runner::state::AppState;

#[test]
fn default_state_is_empty_and_idle() {
    let s = AppState::default();
    assert_eq!(s.get_atm_path(), "");
    assert!(!s.is_running());
    assert_eq!(s.configured_folder(), None);
}

#[test]
fn accepted_path_is_read_back_refused_one_is_not() {
    let mut s = AppState::default();
    assert!(s.set_atm_path("/opt/atm".to_string(), true));
    assert_eq!(s.get_atm_path(), "/opt/atm");
    assert_eq!(s.configured_folder(), Some("/opt/atm".to_string()));
    assert!(!s.set_atm_path("/tmp/nothing".to_string(), false));
    assert_eq!(s.get_atm_path(), "/opt/atm");
}

#[test]
fn start_is_refused_without_path() {
    let mut s = AppState::default();
    assert_eq!(s.start_run(), Err("ATM path not set".to_string()));
    assert!(!s.is_running());
}

#[test]
fn only_one_sequence_runs_at_a_time() {
    let mut s = AppState::default();
    s.set_atm_path("/opt/atm".to_string(), true);
    assert_eq!(s.start_run(), Ok("/opt/atm".to_string()));
    assert!(s.is_running());
    assert_eq!(s.start_run(), Err("Tests already running".to_string()));
    s.finish_run();
    assert!(!s.is_running());
    assert_eq!(s.start_run(), Ok("/opt/atm".to_string()));
    s.stop_tests();
    assert!(!s.is_running());
}
