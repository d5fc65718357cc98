//! Point-in-time lookups: building the socket table from a raw
//! enumeration, and finding the process that holds a port or carries a
//! name. Every lookup returns the first match in the order of the
//! snapshot it is given.

use vstd::prelude::*;
use crate::model::{ProcessInfo, RawSocketEntry, SocketRecord};

verus! {

/// The record kept for a raw entry that is accepted into the socket
/// table: the first process the system associates with the socket owns it.
pub open spec fn accepted_record(e: RawSocketEntry) -> SocketRecord
    recommends
        e.pids@.len() > 0,
{
    SocketRecord { protocol: e.protocol, local_port: e.local_port, owning_pid: e.pids@[0] }
}

/// The socket table built from a raw enumeration: an entry is kept exactly
/// when the system reported at least one owning process and that first
/// owner still resolved to a live process (`resolvable`), in enumeration
/// order.
pub open spec fn spec_socket_table(entries: Seq<RawSocketEntry>, resolvable: Seq<bool>) -> Seq<
    SocketRecord,
>
    recommends
        entries.len() == resolvable.len(),
    decreases entries.len(),
{
    if entries.len() == 0 {
        Seq::empty()
    } else {
        let prefix = spec_socket_table(entries.drop_last(), resolvable.drop_last());
        if entries.last().pids@.len() > 0 && resolvable.last() {
            prefix.push(accepted_record(entries.last()))
        } else {
            prefix
        }
    }
}

/// Build the socket table from a raw enumeration. `resolvable[i]` says
/// whether the first owning process of `entries[i]` resolved to a live
/// process; it is ignored for entries the system reported without any
/// owner, which are always dropped.
pub fn build_socket_table(entries: &Vec<RawSocketEntry>, resolvable: &Vec<bool>) -> (r: Vec<
    SocketRecord,
>)
    requires
        entries@.len() == resolvable@.len(),
    ensures
        r@ == spec_socket_table(entries@, resolvable@),
{
    let mut r: Vec<SocketRecord> = Vec::new();
    let n: usize = entries.len();
    let mut i: usize = 0;
    while i < n
        invariant
            0 <= i <= n,
            n == entries@.len(),
            entries@.len() == resolvable@.len(),
            r@ == spec_socket_table(entries@.subrange(0, i as int), resolvable@.subrange(0, i as int)),
        decreases n - i,
    {
        let e = &entries[i];
        if e.pids.len() > 0 && resolvable[i] {
            r.push(SocketRecord { protocol: e.protocol, local_port: e.local_port, owning_pid: e.pids[0] });
        }
        proof {
            assert(entries@.subrange(0, i as int + 1).drop_last() =~= entries@.subrange(0, i as int));
            assert(resolvable@.subrange(0, i as int + 1).drop_last() =~= resolvable@.subrange(0, i as int));
            assert(entries@.subrange(0, i as int + 1).last() == entries@[i as int]);
            assert(resolvable@.subrange(0, i as int + 1).last() == resolvable@[i as int]);
        }
        i = i + 1;
    }
    proof {
        assert(entries@.subrange(0, n as int) =~= entries@);
        assert(resolvable@.subrange(0, n as int) =~= resolvable@);
    }
    r
}

/// The first record of the snapshot holding `port`, if any.
pub open spec fn spec_find_by_port(port: u16, records: Seq<SocketRecord>) -> Option<SocketRecord>
    decreases records.len(),
{
    if records.len() == 0 {
        None
    } else if records[0].local_port == port {
        Some(records[0])
    } else {
        spec_find_by_port(port, records.drop_first())
    }
}

/// Find the process holding `port`: the first record of the enumerated
/// snapshot whose local port equals `port`, whatever its protocol.
pub fn find_by_port(port: u16, records: &Vec<SocketRecord>) -> (r: Option<SocketRecord>)
    ensures
        r == spec_find_by_port(port, records@),
{
    let n: usize = records.len();
    let mut i: usize = 0;
    proof {
        assert(records@.skip(0) =~= records@);
    }
    while i < n
        invariant
            0 <= i <= n,
            n == records@.len(),
            spec_find_by_port(port, records@) == spec_find_by_port(port, records@.skip(i as int)),
            forall|j: int| 0 <= j < i ==> (#[trigger] records@[j]).local_port != port,
        decreases n - i,
    {
        if records[i].local_port == port {
            proof {
                assert(records@.skip(i as int)[0] == records@[i as int]);
            }
            return Some(records[i]);
        }
        proof {
            assert(records@.skip(i as int)[0] == records@[i as int]);
            assert(records@.skip(i as int).drop_first() =~= records@.skip(i as int + 1));
        }
        i = i + 1;
    }
    proof {
        assert(records@.skip(n as int).len() == 0);
    }
    None
}

/// What the port lookup returns, spelled out: either no record of the
/// snapshot holds the port, or the result is a record holding it that is
/// preceded by no other. Because the lookup is a function of the snapshot
/// alone, re-running it over the same snapshot returns the same record,
/// however many records share the port across protocols.
pub proof fn lemma_find_by_port_first(port: u16, records: Seq<SocketRecord>)
    ensures
        (match spec_find_by_port(port, records) {
            Some(r) => exists|i: int|
                0 <= i < records.len() && records[i] == r && r.local_port == port && (forall|j: int|
                    0 <= j < i ==> (#[trigger] records[j]).local_port != port),
            None => forall|i: int|
                0 <= i < records.len() ==> (#[trigger] records[i]).local_port != port,
        }),
    decreases records.len(),
{
    if records.len() == 0 {
    } else if records[0].local_port == port {
        let r = records[0];
        assert(exists|i: int|
            0 <= i < records.len() && records[i] == r && r.local_port == port && (forall|j: int|
                0 <= j < i ==> (#[trigger] records[j]).local_port != port)) by {
            assert(0 <= 0 < records.len() && records[0] == r && r.local_port == port && (
            forall|j: int| 0 <= j < 0 ==> (#[trigger] records[j]).local_port != port));
        }
    } else {
        let rest = records.drop_first();
        lemma_find_by_port_first(port, rest);
        assert(forall|i: int| 0 <= i < rest.len() ==> rest[i] == records[i + 1]);
        match spec_find_by_port(port, records) {
            Some(r) => {
                let i = choose|i: int|
                    0 <= i < rest.len() && rest[i] == r && r.local_port == port && (forall|j: int|
                        0 <= j < i ==> (#[trigger] rest[j]).local_port != port);
                assert(records[i + 1] == r);
                assert(forall|j: int|
                    0 <= j < i + 1 ==> (#[trigger] records[j]).local_port != port) by {
                    assert(forall|j: int| 1 <= j < i + 1 ==> records[j] == rest[j - 1]);
                }
                assert(exists|k: int|
                    0 <= k < records.len() && records[k] == r && r.local_port == port && (
                forall|j: int| 0 <= j < k ==> (#[trigger] records[j]).local_port != port)) by {
                    assert(0 <= i + 1 < records.len() && records[i + 1] == r && r.local_port
                        == port && (forall|j: int|
                        0 <= j < i + 1 ==> (#[trigger] records[j]).local_port != port));
                }
            },
            None => {
                assert(forall|i: int|
                    0 <= i < records.len() ==> (#[trigger] records[i]).local_port != port) by {
                    assert(forall|i: int| 1 <= i < records.len() ==> records[i] == rest[i - 1]);
                }
            },
        }
    }
}

/// The first entry of the process snapshot whose name equals `name`
/// exactly, if any; its process identifier.
pub open spec fn spec_find_by_name(name: Seq<char>, procs: Seq<ProcessInfo>) -> Option<u64>
    decreases procs.len(),
{
    if procs.len() == 0 {
        None
    } else if procs[0].name@ == name {
        Some(procs[0].pid)
    } else {
        spec_find_by_name(name, procs.drop_first())
    }
}

/// What the name lookup returns, spelled out: either no entry of the
/// snapshot carries the name, or the result is the identifier of an entry
/// carrying it exactly that is preceded by no other.
pub proof fn lemma_find_by_name_first(name: Seq<char>, procs: Seq<ProcessInfo>)
    ensures
        (match spec_find_by_name(name, procs) {
            Some(pid) => exists|i: int|
                0 <= i < procs.len() && procs[i].pid == pid && procs[i].name@ == name && (
                forall|j: int| 0 <= j < i ==> (#[trigger] procs[j]).name@ != name),
            None => forall|i: int| 0 <= i < procs.len() ==> (#[trigger] procs[i]).name@ != name,
        }),
    decreases procs.len(),
{
    if procs.len() == 0 {
    } else if procs[0].name@ == name {
        let pid = procs[0].pid;
        assert(exists|i: int|
            0 <= i < procs.len() && procs[i].pid == pid && procs[i].name@ == name && (
        forall|j: int| 0 <= j < i ==> (#[trigger] procs[j]).name@ != name)) by {
            assert(0 <= 0 < procs.len() && procs[0].pid == pid && procs[0].name@ == name && (
            forall|j: int| 0 <= j < 0 ==> (#[trigger] procs[j]).name@ != name));
        }
    } else {
        let rest = procs.drop_first();
        lemma_find_by_name_first(name, rest);
        assert(forall|i: int| 0 <= i < rest.len() ==> rest[i] == procs[i + 1]);
        match spec_find_by_name(name, procs) {
            Some(pid) => {
                let i = choose|i: int|
                    0 <= i < rest.len() && rest[i].pid == pid && rest[i].name@ == name && (
                    forall|j: int| 0 <= j < i ==> (#[trigger] rest[j]).name@ != name);
                assert(procs[i + 1] == rest[i]);
                assert(forall|j: int| 0 <= j < i + 1 ==> (#[trigger] procs[j]).name@ != name)
                    by {
                    assert(forall|j: int| 1 <= j < i + 1 ==> procs[j] == rest[j - 1]);
                }
                assert(exists|k: int|
                    0 <= k < procs.len() && procs[k].pid == pid && procs[k].name@ == name && (
                forall|j: int| 0 <= j < k ==> (#[trigger] procs[j]).name@ != name)) by {
                    assert(0 <= i + 1 < procs.len() && procs[i + 1].pid == pid && procs[i
                        + 1].name@ == name && (forall|j: int|
                        0 <= j < i + 1 ==> (#[trigger] procs[j]).name@ != name));
                }
            },
            None => {
                assert(forall|i: int|
                    0 <= i < procs.len() ==> (#[trigger] procs[i]).name@ != name) by {
                    assert(forall|i: int| 1 <= i < procs.len() ==> procs[i] == rest[i - 1]);
                }
            },
        }
    }
}

/// Find a process by exact, case-sensitive name over a snapshot of the
/// live process list: the first entry whose name equals `name` wins.
pub fn find_by_name(name: &String, procs: &Vec<ProcessInfo>) -> (r: Option<u64>)
    ensures
        r == spec_find_by_name(name@, procs@),
{
    let n: usize = procs.len();
    let mut i: usize = 0;
    proof {
        assert(procs@.skip(0) =~= procs@);
    }
    while i < n
        invariant
            0 <= i <= n,
            n == procs@.len(),
            spec_find_by_name(name@, procs@) == spec_find_by_name(name@, procs@.skip(i as int)),
            forall|j: int| 0 <= j < i ==> (#[trigger] procs@[j]).name@ != name@,
        decreases n - i,
    {
        let p = &procs[i];
        proof {
            assert(procs@.skip(i as int)[0] == procs@[i as int]);
        }
        if p.name == *name {
            return Some(p.pid);
        }
        proof {
            assert(procs@.skip(i as int).drop_first() =~= procs@.skip(i as int + 1));
        }
        i = i + 1;
    }
    proof {
        assert(procs@.skip(n as int).len() == 0);
    }
    None
}

} // verus!
