use rkill::directory::{build_socket_table, find_by_name, find_by_port};
use rkill::model::{ProcessInfo, Protocol, RawSocketEntry, SocketRecord};

fn rec(protocol: Protocol, local_port: u16, owning_pid: u64) -> SocketRecord {
    SocketRecord { protocol, local_port, owning_pid }
}

#[test]
fn find_by_port_first_of_colliding_protocols_wins() {
    let records = vec![rec(Protocol::Tcp, 53, 11), rec(Protocol::Udp, 53, 22)];
    let first = find_by_port(53, &records);
    assert_eq!(first, Some(rec(Protocol::Tcp, 53, 11)));
    // Re-running over the same snapshot returns the same record.
    assert_eq!(find_by_port(53, &records), first);
    // With the enumeration order reversed, the other record is first.
    let reversed = vec![rec(Protocol::Udp, 53, 22), rec(Protocol::Tcp, 53, 11)];
    assert_eq!(find_by_port(53, &reversed), Some(rec(Protocol::Udp, 53, 22)));
}

#[test]
fn find_by_port_skips_other_ports() {
    let records = vec![rec(Protocol::Tcp, 80, 1), rec(Protocol::Udp, 53, 2)];
    assert_eq!(find_by_port(53, &records), Some(rec(Protocol::Udp, 53, 2)));
    assert_eq!(find_by_port(22, &records), None);
    assert_eq!(find_by_port(22, &Vec::new()), None);
}

fn proc(pid: u64, name: &str) -> ProcessInfo {
    ProcessInfo { pid, name: name.to_string() }
}

#[test]
fn find_by_name_first_exact_match_wins() {
    let procs = vec![proc(1, "NC"), proc(2, "nc"), proc(3, "nc")];
    assert_eq!(find_by_name(&"nc".to_string(), &procs), Some(2));
}

#[test]
fn find_by_name_is_exact_and_case_sensitive() {
    let procs = vec![proc(1, "nginx"), proc(2, "ngin")];
    assert_eq!(find_by_name(&"Nginx".to_string(), &procs), None);
    assert_eq!(find_by_name(&"ngi".to_string(), &procs), None);
    assert_eq!(find_by_name(&"ngin".to_string(), &procs), Some(2));
}

#[test]
fn socket_table_drops_ownerless_and_dead_entries() {
    let entries = vec![
        RawSocketEntry { protocol: Protocol::Tcp, local_port: 80, pids: vec![] },
        RawSocketEntry { protocol: Protocol::Tcp, local_port: 443, pids: vec![7, 8] },
        RawSocketEntry { protocol: Protocol::Udp, local_port: 53, pids: vec![9] },
    ];
    let resolvable = vec![false, true, false];
    let table = build_socket_table(&entries, &resolvable);
    // The ownerless entry and the entry whose first owner no longer
    // resolves are gone; the first reported owner is kept.
    assert_eq!(table, vec![rec(Protocol::Tcp, 443, 7)]);
}

#[test]
fn socket_table_keeps_enumeration_order() {
    let entries = vec![
        RawSocketEntry { protocol: Protocol::Udp, local_port: 53, pids: vec![2] },
        RawSocketEntry { protocol: Protocol::Tcp, local_port: 53, pids: vec![1] },
    ];
    let table = build_socket_table(&entries, &vec![true, true]);
    assert_eq!(table, vec![rec(Protocol::Udp, 53, 2), rec(Protocol::Tcp, 53, 1)]);
}
