use gitingesters::cleanup::{
    keep_nonempty, listing_event, parse_container_ids, remaining_ids, Cleaner, CleanupEvent,
    CleanupPhase, CleanupReport, RuntimeCall,
};
use gitingesters::runtime::call_args;

fn strings(words: &[&str]) -> Vec<String> {
    words.iter().map(|w| w.to_string()).collect()
}

/// A stand-in for the runtime: containers by id, each running or not.
struct Runtime {
    containers: Vec<(String, bool)>,
    stop_fails: bool,
    calls: Vec<RuntimeCall>,
}

impl Runtime {
    fn holding(containers: &[(&str, bool)]) -> Runtime {
        Runtime {
            containers: containers.iter().map(|(id, r)| (id.to_string(), *r)).collect(),
            stop_fails: false,
            calls: Vec::new(),
        }
    }

    fn perform(&mut self, call: &RuntimeCall) -> CleanupEvent {
        self.calls.push(call.clone());
        match call {
            RuntimeCall::ListContainers { include_stopped } => {
                let mut out = String::new();
                for (id, running) in &self.containers {
                    if *running || *include_stopped {
                        out.push_str(id);
                        out.push('\n');
                    }
                }
                listing_event(Some(out.into_bytes()))
            }
            RuntimeCall::Stop(id) => {
                if self.stop_fails {
                    return CleanupEvent::Completed(false);
                }
                let mut found = false;
                for c in self.containers.iter_mut() {
                    if &c.0 == id && c.1 {
                        c.1 = false;
                        found = true;
                    }
                }
                CleanupEvent::Completed(found)
            }
            RuntimeCall::Remove(id) => {
                let at = self.containers.iter().position(|c| &c.0 == id && !c.1);
                match at {
                    Some(i) => {
                        self.containers.remove(i);
                        CleanupEvent::Completed(true)
                    }
                    None => CleanupEvent::Completed(false),
                }
            }
            RuntimeCall::Prune => CleanupEvent::Completed(true),
        }
    }
}

fn run_cleanup(runtime: &mut Runtime) -> CleanupReport {
    let mut cleaner = Cleaner::new();
    let mut next = cleaner.step(CleanupEvent::Completed(true));
    let mut rounds = 0;
    while let Some(call) = next {
        let event = runtime.perform(&call);
        next = cleaner.step(event);
        rounds += 1;
        assert!(rounds < 1000);
    }
    assert!(cleaner.is_finished());
    cleaner.report()
}

#[test]
fn cleanup_of_one_running_and_two_stopped_containers() {
    let mut runtime = Runtime::holding(&[("s1", false), ("r1", true), ("s2", false)]);
    let report = run_cleanup(&mut runtime);
    assert_eq!(
        runtime.calls,
        vec![
            RuntimeCall::ListContainers { include_stopped: false },
            RuntimeCall::Stop("r1".to_string()),
            RuntimeCall::Remove("r1".to_string()),
            RuntimeCall::ListContainers { include_stopped: true },
            RuntimeCall::Remove("s1".to_string()),
            RuntimeCall::Remove("s2".to_string()),
            RuntimeCall::Prune,
        ]
    );
    assert!(runtime.containers.is_empty());
    assert_eq!(report.stopped, strings(&["r1"]));
    assert_eq!(report.removed, strings(&["r1", "s1", "s2"]));
    assert!(report.failed.is_empty());
    assert!(report.pruned);
    let prunes = runtime.calls.iter().filter(|c| **c == RuntimeCall::Prune).count();
    assert_eq!(prunes, 1);
}

#[test]
fn second_cleanup_finds_nothing_and_fails_nowhere() {
    let mut runtime = Runtime::holding(&[("r1", true), ("s1", false)]);
    let first = run_cleanup(&mut runtime);
    assert!(first.failed.is_empty());
    runtime.calls.clear();
    let second = run_cleanup(&mut runtime);
    assert_eq!(
        runtime.calls,
        vec![
            RuntimeCall::ListContainers { include_stopped: false },
            RuntimeCall::ListContainers { include_stopped: true },
            RuntimeCall::Prune,
        ]
    );
    assert_eq!(
        second,
        CleanupReport { stopped: vec![], removed: vec![], failed: vec![], pruned: true }
    );
}

#[test]
fn removal_is_attempted_after_a_failed_stop() {
    let mut runtime = Runtime::holding(&[("r1", true), ("r2", true)]);
    runtime.stop_fails = true;
    let report = run_cleanup(&mut runtime);
    assert_eq!(
        runtime.calls,
        vec![
            RuntimeCall::ListContainers { include_stopped: false },
            RuntimeCall::Stop("r1".to_string()),
            RuntimeCall::Remove("r1".to_string()),
            RuntimeCall::Stop("r2".to_string()),
            RuntimeCall::Remove("r2".to_string()),
            RuntimeCall::ListContainers { include_stopped: true },
            RuntimeCall::Remove("r1".to_string()),
            RuntimeCall::Remove("r2".to_string()),
            RuntimeCall::Prune,
        ]
    );
    assert!(report.stopped.is_empty());
    assert!(report.removed.is_empty());
    assert_eq!(report.failed.len(), 6);
    assert_eq!(report.failed[0], RuntimeCall::Stop("r1".to_string()));
    assert_eq!(report.failed[1], RuntimeCall::Remove("r1".to_string()));
    assert!(report.pruned);
}

#[test]
fn a_container_removed_in_the_first_pass_is_not_removed_again() {
    let mut cleaner = Cleaner::new();
    assert_eq!(
        cleaner.step(CleanupEvent::Completed(true)),
        Some(RuntimeCall::ListContainers { include_stopped: false })
    );
    assert_eq!(cleaner.phase(), CleanupPhase::ListingRunning);
    assert_eq!(
        cleaner.step(CleanupEvent::Listed(strings(&["a"]))),
        Some(RuntimeCall::Stop("a".to_string()))
    );
    assert_eq!(
        cleaner.step(CleanupEvent::Completed(true)),
        Some(RuntimeCall::Remove("a".to_string()))
    );
    assert_eq!(
        cleaner.step(CleanupEvent::Completed(true)),
        Some(RuntimeCall::ListContainers { include_stopped: true })
    );
    assert_eq!(
        cleaner.step(CleanupEvent::Listed(strings(&["a", "b"]))),
        Some(RuntimeCall::Remove("b".to_string()))
    );
    assert_eq!(cleaner.phase(), CleanupPhase::Sweeping);
    assert_eq!(cleaner.awaited(), Some(RuntimeCall::Remove("b".to_string())));
    assert_eq!(cleaner.step(CleanupEvent::Completed(false)), Some(RuntimeCall::Prune));
    assert_eq!(cleaner.step(CleanupEvent::Completed(false)), None);
    assert!(cleaner.is_finished());
    assert_eq!(cleaner.step(CleanupEvent::Completed(false)), None);
    let report = cleaner.report();
    assert_eq!(report.stopped, strings(&["a"]));
    assert_eq!(report.removed, strings(&["a"]));
    assert_eq!(report.failed, vec![RuntimeCall::Remove("b".to_string()), RuntimeCall::Prune]);
    assert!(!report.pruned);
}

#[test]
fn failed_listings_count_as_empty() {
    let mut cleaner = Cleaner::new();
    assert!(!cleaner.is_finished());
    assert_eq!(cleaner.awaited(), None);
    cleaner.step(CleanupEvent::Completed(true));
    assert_eq!(
        cleaner.step(listing_event(None)),
        Some(RuntimeCall::ListContainers { include_stopped: true })
    );
    assert_eq!(cleaner.step(listing_event(None)), Some(RuntimeCall::Prune));
    assert_eq!(cleaner.step(CleanupEvent::Completed(true)), None);
    let report = cleaner.report();
    assert_eq!(
        report.failed,
        vec![
            RuntimeCall::ListContainers { include_stopped: false },
            RuntimeCall::ListContainers { include_stopped: true },
        ]
    );
    assert!(report.pruned);
}

#[test]
fn container_ids_are_trimmed_lines() {
    assert_eq!(
        parse_container_ids("abc123\n  def456  \n\n\t\r\nghi789"),
        strings(&["abc123", "def456", "ghi789"])
    );
    assert_eq!(parse_container_ids(""), Vec::<String>::new());
    assert_eq!(parse_container_ids("\n\n"), Vec::<String>::new());
    assert_eq!(parse_container_ids("one\r\ntwo\r\n"), strings(&["one", "two"]));
    assert_eq!(parse_container_ids("a b"), strings(&["a b"]));
}

#[test]
fn listing_event_reads_the_output() {
    assert_eq!(
        listing_event(Some(b"aa\nbb\n".to_vec())),
        CleanupEvent::Listed(strings(&["aa", "bb"]))
    );
    assert_eq!(
        listing_event(Some(vec![b'a', 0xff, b'b', b'\n'])),
        CleanupEvent::Listed(strings(&["a\u{fffd}b"]))
    );
    assert_eq!(listing_event(Some(Vec::new())), CleanupEvent::Listed(vec![]));
    assert_eq!(listing_event(None), CleanupEvent::Completed(false));
}

#[test]
fn keep_nonempty_drops_only_empty_strings() {
    assert_eq!(keep_nonempty(&strings(&["", "a", "", " ", "b"])), strings(&["a", " ", "b"]));
    assert_eq!(keep_nonempty(&vec![]), Vec::<String>::new());
}

#[test]
fn remaining_ids_leaves_out_what_was_removed() {
    assert_eq!(
        remaining_ids(&strings(&["a", "b", "c", "b"]), &strings(&["b", "x"])),
        strings(&["a", "c"])
    );
    assert_eq!(remaining_ids(&strings(&["a"]), &vec![]), strings(&["a"]));
    assert_eq!(remaining_ids(&vec![], &strings(&["a"])), Vec::<String>::new());
}

#[test]
fn cleanup_calls_on_the_command_line() {
    assert_eq!(
        call_args(&RuntimeCall::ListContainers { include_stopped: false }),
        strings(&["ps", "--filter", "ancestor=gitingest-runner", "--format", "{{.ID}}"])
    );
    assert_eq!(
        call_args(&RuntimeCall::ListContainers { include_stopped: true }),
        strings(&["ps", "-a", "--filter", "ancestor=gitingest-runner", "--format", "{{.ID}}"])
    );
    assert_eq!(call_args(&RuntimeCall::Stop("abc".to_string())), strings(&["stop", "abc"]));
    assert_eq!(call_args(&RuntimeCall::Remove("abc".to_string())), strings(&["rm", "abc"]));
    assert_eq!(call_args(&RuntimeCall::Prune), strings(&["system", "prune", "-f"]));
}
