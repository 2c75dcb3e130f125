use openfrp_launcher::supervisor::{ProbeOutcome, ProcessTable, SupervisorError, Termination};

fn id_of(s: &str) -> String {
    s.to_string()
}

#[test]
fn new_table_is_empty() {
    let table: ProcessTable<u8> = ProcessTable::new();
    assert_eq!(table.len(), 0);
    assert!(!table.contains("a"));
    assert_eq!(table.may_start("a"), Ok(()));
}

#[test]
fn registered_instance_is_in_the_table() {
    let mut table: ProcessTable<&str> = ProcessTable::new();
    assert!(table.register(id_of("a"), "handle a", "linux", 10).is_ok());
    assert!(table.contains("a"));
    assert!(!table.contains("b"));
    assert_eq!(table.len(), 1);
}

#[test]
fn second_start_fails_with_already_running() {
    let mut table: ProcessTable<&str> = ProcessTable::new();
    assert_eq!(table.may_start("a"), Ok(()));
    assert!(table.register(id_of("a"), "first", "linux", 10).is_ok());
    assert_eq!(table.may_start("a"), Err(SupervisorError::AlreadyRunning));
    let refused = table.register(id_of("a"), "second", "linux", 11).unwrap_err();
    assert_eq!(refused.error, SupervisorError::AlreadyRunning);
    assert_eq!(refused.handle, "second");
    assert_eq!(table.len(), 1);
    let stopped = table.stop("a").unwrap();
    assert_eq!(stopped.handle, "first");
}

#[test]
fn second_start_leaves_the_group_id_alone() {
    let mut table: ProcessTable<u8> = ProcessTable::new();
    assert!(table.register(id_of("a"), 1, "windows", 500).is_ok());
    assert!(table.register(id_of("a"), 2, "windows", 600).is_err());
    let stopped = table.stop("a").unwrap();
    assert_eq!(stopped.handle, 1);
    assert_eq!(stopped.termination(), Termination::Tree { group_id: 500 });
}

#[test]
fn stop_of_a_never_started_id_is_not_found() {
    let mut table: ProcessTable<u8> = ProcessTable::new();
    assert_eq!(table.stop("a").unwrap_err(), SupervisorError::NotFound);
    assert!(table.register(id_of("b"), 1, "linux", 10).is_ok());
    assert_eq!(table.stop("a").unwrap_err(), SupervisorError::NotFound);
    assert_eq!(table.len(), 1);
    assert!(table.contains("b"));
}

#[test]
fn stop_removes_and_hands_out_the_instance() {
    let mut table: ProcessTable<&str> = ProcessTable::new();
    assert!(table.register(id_of("a"), "ha", "linux", 10).is_ok());
    assert!(table.register(id_of("b"), "hb", "linux", 11).is_ok());
    let stopped = table.stop("a").unwrap();
    assert_eq!(stopped.id, "a");
    assert_eq!(stopped.handle, "ha");
    assert_eq!(stopped.termination(), Termination::Direct);
    assert!(!table.contains("a"));
    assert!(table.contains("b"));
    assert_eq!(table.len(), 1);
    assert_eq!(table.stop("a").unwrap_err(), SupervisorError::NotFound);
}

#[test]
fn stopped_id_can_start_again() {
    let mut table: ProcessTable<u8> = ProcessTable::new();
    assert!(table.register(id_of("a"), 1, "macos", 10).is_ok());
    assert!(table.stop("a").is_ok());
    assert_eq!(table.may_start("a"), Ok(()));
    assert!(table.register(id_of("a"), 2, "macos", 11).is_ok());
    assert_eq!(table.stop("a").unwrap().handle, 2);
}

#[test]
fn group_id_is_recorded_on_windows_only() {
    let mut table: ProcessTable<u8> = ProcessTable::new();
    assert!(table.register(id_of("w"), 1, "windows", 4242).is_ok());
    assert!(table.register(id_of("l"), 2, "linux", 4243).is_ok());
    assert!(table.register(id_of("m"), 3, "macos", 4244).is_ok());
    assert_eq!(table.stop("w").unwrap().termination(), Termination::Tree { group_id: 4242 });
    assert_eq!(table.stop("l").unwrap().termination(), Termination::Direct);
    assert_eq!(table.stop("m").unwrap().termination(), Termination::Direct);
}

#[test]
fn status_of_an_absent_id_is_false() {
    let mut table: ProcessTable<u8> = ProcessTable::new();
    assert!(!table.status("a", None));
    assert!(!table.status("a", Some(ProbeOutcome::Running)));
    assert!(!table.status("a", Some(ProbeOutcome::Exited)));
    assert_eq!(table.len(), 0);
}

#[test]
fn status_of_a_running_instance_is_true_and_keeps_it() {
    let mut table: ProcessTable<u8> = ProcessTable::new();
    assert!(table.register(id_of("a"), 1, "linux", 10).is_ok());
    assert!(table.status("a", Some(ProbeOutcome::Running)));
    assert!(table.contains("a"));
    assert!(table.status("a", Some(ProbeOutcome::Running)));
    assert_eq!(table.len(), 1);
}

#[test]
fn status_after_exit_is_false_and_forgets_the_instance() {
    let mut table: ProcessTable<u8> = ProcessTable::new();
    assert!(table.register(id_of("a"), 1, "linux", 10).is_ok());
    assert!(table.register(id_of("b"), 2, "linux", 11).is_ok());
    assert!(!table.status("a", Some(ProbeOutcome::Exited)));
    assert!(!table.contains("a"));
    assert!(table.handle_mut("a").is_none());
    assert!(!table.status("a", None));
    assert!(!table.status("a", Some(ProbeOutcome::Running)));
    assert!(table.contains("b"));
    assert_eq!(table.len(), 1);
}

#[test]
fn status_after_a_failed_probe_is_false_and_forgets_the_instance() {
    let mut table: ProcessTable<u8> = ProcessTable::new();
    assert!(table.register(id_of("a"), 1, "linux", 10).is_ok());
    assert!(!table.status("a", Some(ProbeOutcome::Failed)));
    assert!(!table.contains("a"));
    assert_eq!(table.stop("a").unwrap_err(), SupervisorError::NotFound);
}

#[test]
fn status_without_a_probe_forgets_the_instance() {
    let mut table: ProcessTable<u8> = ProcessTable::new();
    assert!(table.register(id_of("a"), 1, "linux", 10).is_ok());
    assert!(!table.status("a", None));
    assert!(!table.contains("a"));
}

#[test]
fn handle_mut_reaches_the_handle_in_the_table() {
    let mut table: ProcessTable<Vec<u8>> = ProcessTable::new();
    assert!(table.register(id_of("a"), vec![1], "linux", 10).is_ok());
    assert!(table.register(id_of("b"), vec![2], "linux", 11).is_ok());
    table.handle_mut("a").unwrap().push(9);
    assert!(table.handle_mut("c").is_none());
    assert_eq!(table.stop("b").unwrap().handle, vec![2]);
    assert_eq!(table.stop("a").unwrap().handle, vec![1, 9]);
}

#[test]
fn drain_hands_out_every_instance_once() {
    let mut table: ProcessTable<u8> = ProcessTable::new();
    assert!(table.register(id_of("a"), 1, "linux", 10).is_ok());
    assert!(table.register(id_of("b"), 2, "windows", 20).is_ok());
    assert!(table.register(id_of("c"), 3, "macos", 30).is_ok());
    assert!(table.stop("a").is_ok());
    let mut drained = table.drain();
    drained.sort_by(|x, y| x.id.cmp(&y.id));
    assert_eq!(drained.len(), 2);
    assert_eq!(drained[0].id, "b");
    assert_eq!(drained[0].handle, 2);
    assert_eq!(drained[0].termination(), Termination::Tree { group_id: 20 });
    assert_eq!(drained[1].id, "c");
    assert_eq!(drained[1].handle, 3);
    assert_eq!(drained[1].termination(), Termination::Direct);
    assert_eq!(table.len(), 0);
    assert!(!table.contains("b"));
    assert!(table.drain().is_empty());
}

#[test]
fn ids_are_compared_exactly() {
    let mut table: ProcessTable<u8> = ProcessTable::new();
    assert!(table.register(id_of("a"), 1, "linux", 10).is_ok());
    assert!(table.register(id_of("A"), 2, "linux", 11).is_ok());
    assert!(table.register(id_of("a "), 3, "linux", 12).is_ok());
    assert!(table.register(id_of(""), 4, "linux", 13).is_ok());
    assert_eq!(table.len(), 4);
    assert_eq!(table.stop("").unwrap().handle, 4);
    assert_eq!(table.stop("A").unwrap().handle, 2);
}
