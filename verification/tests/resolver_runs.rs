use rkill::model::{Outcome, ProcessInfo, Protocol, SocketRecord};
use rkill::resolver::{Action, Resolver};

/// A deterministic stand-in for the operating system.
struct FakeSystem {
    sockets: Option<Vec<SocketRecord>>,
    processes: Option<Vec<ProcessInfo>>,
    existing_pids: Vec<u64>,
    killable_pids: Vec<u64>,
}

/// Drive one run to completion, answering every request from `sys`, and
/// report the outcomes together with every action the resolver asked for.
fn run(tokens: &[&str], sys: &FakeSystem) -> (Vec<Outcome>, Vec<Action>) {
    let toks: Vec<String> = tokens.iter().map(|t| t.to_string()).collect();
    let mut resolver = Resolver::new(toks);
    let mut actions: Vec<Action> = Vec::new();
    loop {
        let action = resolver.next_action();
        actions.push(action);
        match action {
            Action::Done => break,
            Action::Continue => {}
            Action::QuerySockets => resolver.provide_sockets(sys.sockets.clone()),
            Action::LookupPid(pid) => {
                resolver.provide_pid_lookup(sys.existing_pids.contains(&pid))
            }
            Action::Kill(pid) => resolver.provide_kill(sys.killable_pids.contains(&pid)),
            Action::QueryProcessList => resolver.provide_process_list(sys.processes.clone()),
        }
    }
    (resolver.outcomes, actions)
}

fn count_socket_queries(actions: &[Action]) -> usize {
    actions.iter().filter(|a| matches!(a, Action::QuerySockets)).count()
}

#[test]
fn mixed_targets_port_pid_and_name() {
    let sys = FakeSystem {
        sockets: Some(vec![SocketRecord {
            protocol: Protocol::Tcp,
            local_port: 1234,
            owning_pid: 55,
        }]),
        processes: Some(vec![ProcessInfo { pid: 88, name: "nc".to_string() }]),
        existing_pids: vec![55, 88],
        killable_pids: vec![55, 88],
    };
    let (outcomes, _) = run(&[":1234", "7777", "nc"], &sys);
    assert_eq!(outcomes.len(), 3);
    assert!(outcomes[0].success);
    assert_eq!(
        outcomes[0].message,
        "Process holding port :1234 (TCP) killed successfully!"
    );
    assert!(!outcomes[1].success);
    assert_eq!(outcomes[1].message, "Cannot get process with pid 7777");
    assert!(outcomes[2].success);
    assert_eq!(outcomes[2].message, "Process with name 'nc' killed successfully!");
}

#[test]
fn out_of_range_port_fails_without_enumeration() {
    let sys = FakeSystem {
        sockets: Some(vec![]),
        processes: Some(vec![]),
        existing_pids: vec![],
        killable_pids: vec![],
    };
    let (outcomes, actions) = run(&[":99999"], &sys);
    assert_eq!(outcomes.len(), 1);
    assert!(!outcomes[0].success);
    assert_eq!(outcomes[0].message, "Cannot parse port '99999' as number");
    assert_eq!(count_socket_queries(&actions), 0);
}

#[test]
fn no_port_target_never_enumerates() {
    let sys = FakeSystem {
        sockets: Some(vec![]),
        processes: Some(vec![ProcessInfo { pid: 3, name: "sshd".to_string() }]),
        existing_pids: vec![12],
        killable_pids: vec![12, 3],
    };
    let (outcomes, actions) = run(&["12", "sshd", "none"], &sys);
    assert_eq!(outcomes.len(), 3);
    assert_eq!(count_socket_queries(&actions), 0);
}

#[test]
fn many_port_targets_enumerate_once() {
    let sys = FakeSystem {
        sockets: Some(vec![
            SocketRecord { protocol: Protocol::Tcp, local_port: 80, owning_pid: 1 },
            SocketRecord { protocol: Protocol::Udp, local_port: 53, owning_pid: 2 },
        ]),
        processes: None,
        existing_pids: vec![],
        killable_pids: vec![1, 2],
    };
    let (outcomes, actions) = run(&[":80", ":53", ":22"], &sys);
    assert_eq!(count_socket_queries(&actions), 1);
    assert_eq!(outcomes.len(), 3);
    assert_eq!(outcomes[0].message, "Process holding port :80 (TCP) killed successfully!");
    assert_eq!(outcomes[1].message, "Process holding port :53 (UDP) killed successfully!");
    assert!(!outcomes[2].success);
    assert_eq!(outcomes[2].message, "Process that holds port :22 could not be found.");
}

#[test]
fn enumeration_failure_spares_non_port_targets() {
    let sys = FakeSystem {
        sockets: None,
        processes: Some(vec![ProcessInfo { pid: 9, name: "worker".to_string() }]),
        existing_pids: vec![],
        killable_pids: vec![9],
    };
    let (outcomes, actions) = run(&[":80", "worker", ":443"], &sys);
    assert_eq!(outcomes.len(), 3);
    assert!(!outcomes[0].success);
    assert_eq!(outcomes[0].message, "Cannot get socket info");
    assert!(outcomes[1].success);
    assert_eq!(outcomes[1].message, "Process with name 'worker' killed successfully!");
    assert!(!outcomes[2].success);
    assert_eq!(outcomes[2].message, "Cannot get socket info");
    // The failed enumeration is not retried for the second port target.
    assert_eq!(count_socket_queries(&actions), 1);
}

#[test]
fn kill_failures_are_reported_per_target() {
    let sys = FakeSystem {
        sockets: Some(vec![SocketRecord {
            protocol: Protocol::Udp,
            local_port: 53,
            owning_pid: 4,
        }]),
        processes: Some(vec![ProcessInfo { pid: 5, name: "held".to_string() }]),
        existing_pids: vec![6],
        killable_pids: vec![],
    };
    let (outcomes, _) = run(&[":53", "6", "held"], &sys);
    assert_eq!(outcomes.len(), 3);
    assert!(outcomes.iter().all(|o| !o.success));
    assert!(outcomes.iter().all(|o| o.message == "Cannot kill process"));
}

#[test]
fn pid_target_success_and_absence() {
    let sys = FakeSystem {
        sockets: None,
        processes: None,
        existing_pids: vec![7],
        killable_pids: vec![7],
    };
    let (outcomes, actions) = run(&["7", "8"], &sys);
    assert!(outcomes[0].success);
    assert_eq!(outcomes[0].message, "Process with pid 7 killed successfully!");
    assert!(!outcomes[1].success);
    assert_eq!(outcomes[1].message, "Cannot get process with pid 8");
    // Digit tokens go to a PID lookup, never to the process list.
    assert!(actions.iter().all(|a| !matches!(a, Action::QueryProcessList)));
}

#[test]
fn name_target_with_unavailable_process_list() {
    let sys = FakeSystem {
        sockets: None,
        processes: None,
        existing_pids: vec![],
        killable_pids: vec![],
    };
    let (outcomes, _) = run(&["nginx"], &sys);
    assert!(!outcomes[0].success);
    assert_eq!(outcomes[0].message, "Cannot collect process list");
}

#[test]
fn missing_name_target_is_reported() {
    let sys = FakeSystem {
        sockets: None,
        processes: Some(vec![ProcessInfo { pid: 1, name: "init".to_string() }]),
        existing_pids: vec![],
        killable_pids: vec![],
    };
    let (outcomes, _) = run(&["nginx"], &sys);
    assert!(!outcomes[0].success);
    assert_eq!(outcomes[0].message, "Cannot find process with name 'nginx'");
}

#[test]
fn duplicate_targets_get_independent_attempts() {
    let sys = FakeSystem {
        sockets: None,
        processes: None,
        existing_pids: vec![5],
        killable_pids: vec![5],
    };
    let (outcomes, actions) = run(&["5", "5"], &sys);
    assert_eq!(outcomes.len(), 2);
    assert!(outcomes[0].success && outcomes[1].success);
    let lookups = actions.iter().filter(|a| matches!(a, Action::LookupPid(5))).count();
    let kills = actions.iter().filter(|a| matches!(a, Action::Kill(5))).count();
    assert_eq!(lookups, 2);
    assert_eq!(kills, 2);
}

#[test]
fn outcomes_keep_input_order_and_tokens() {
    let sys = FakeSystem {
        sockets: Some(vec![]),
        processes: Some(vec![]),
        existing_pids: vec![],
        killable_pids: vec![],
    };
    let tokens = [":bad", "41", "ghost", ":65535", ""];
    let (outcomes, _) = run(&tokens, &sys);
    assert_eq!(outcomes.len(), tokens.len());
    for (tok, outcome) in tokens.iter().zip(outcomes.iter()) {
        assert_eq!(&outcome.target, tok);
        assert!(!outcome.success);
    }
}

#[test]
fn empty_run_finishes_with_no_outcome() {
    let sys = FakeSystem {
        sockets: None,
        processes: None,
        existing_pids: vec![],
        killable_pids: vec![],
    };
    let (outcomes, actions) = run(&[], &sys);
    assert!(outcomes.is_empty());
    assert_eq!(actions, vec![Action::Done]);
}
