//! The resolver: a state machine over the requested targets. A thin
//! driver repeatedly asks it for the next operating-system action
//! (enumerate sockets, look a process up, send a kill signal, snapshot
//! the process list), performs it, and hands the reply back. The machine
//! makes every decision: it classifies each token, requests the socket
//! snapshot lazily and at most once per run, dispatches pure-digit tokens
//! to a PID lookup and all other plain tokens to a name lookup, and
//! collects exactly one outcome per target, in the order given.

use vstd::prelude::*;
use vstd::string::*;
use crate::classify::{classify, spec_classify, Target};
use crate::directory::{find_by_name, find_by_port, lemma_find_by_port_first, spec_find_by_name, spec_find_by_port};
use crate::messages::{
    build_enum_fail, build_kill_fail, build_list_fail, build_name_killed, build_name_not_found,
    build_parse_fail, build_pid_killed, build_pid_not_found, build_port_killed,
    build_port_not_found, msg_enum_fail, msg_kill_fail, msg_list_fail, msg_name_killed,
    msg_name_not_found, msg_parse_fail, msg_pid_killed, msg_pid_not_found, msg_port_killed,
    msg_port_not_found,
};
use crate::model::{Outcome, ProcessInfo, Protocol, SocketRecord};

verus! {

/// What the resolver asks its driver to do next.
#[derive(Clone, Copy, Debug, PartialEq, Eq, Structural)]
pub enum Action {
    /// Enumerate the open sockets once; reply with `provide_sockets`.
    QuerySockets,
    /// Ask whether a process with this identifier exists; reply with
    /// `provide_pid_lookup`.
    LookupPid(u64),
    /// Send the kill signal to this process; reply with `provide_kill`.
    Kill(u64),
    /// Snapshot the live process list; reply with `provide_process_list`.
    QueryProcessList,
    /// Nothing is asked for this step; call `next_action` again.
    Continue,
    /// Every target has its outcome.
    Done,
}

/// The socket snapshot as the resolver knows it.
#[derive(Clone, Debug)]
pub enum SocketsState {
    /// Enumeration has not been requested in this run.
    Unqueried,
    /// Enumeration was requested once and failed.
    Unavailable,
    /// Enumeration succeeded once, with this table.
    Available(Vec<SocketRecord>),
}

/// Where the resolver stands inside the current target.
#[derive(Clone, Copy, Debug)]
pub enum Phase {
    /// The current target has not been examined yet.
    Ready,
    /// A port target (this port) waits for the socket snapshot.
    WaitSockets(u16),
    /// A PID target (this pid) waits for its existence lookup.
    WaitPid(u64),
    /// A port target waits for its kill reply: owning pid, port, protocol.
    WaitKillPort(u64, u16, Protocol),
    /// A PID target (this pid) waits for its kill reply.
    WaitKillPid(u64),
    /// A name target waits for the kill reply for this pid.
    WaitKillName(u64),
    /// A name target waits for the process-list snapshot.
    WaitList,
    /// Every target has its outcome.
    Finished,
}

/// The resolver's whole state. One value is stepped through a single run
/// and discarded; nothing is kept across runs.
pub struct Resolver {
    pub tokens: Vec<String>,
    pub idx: usize,
    pub phase: Phase,
    pub sockets: SocketsState,
    pub outcomes: Vec<Outcome>,
    /// How many times the socket snapshot has been handed in.
    pub socket_queries: Ghost<nat>,
}

impl Resolver {
    /// The token the resolver currently stands at.
    pub open spec fn current(&self) -> Seq<char>
        recommends
            self.idx < self.tokens@.len(),
    {
        self.tokens@[self.idx as int]@
    }

    /// The resolver's invariant. Among other things: one outcome stands
    /// for every target already passed, under that target's own token;
    /// the socket snapshot is requested at most once, and only in a run
    /// that holds a port-reference token; and each waiting phase agrees
    /// with the classification of the token it serves.
    pub open spec fn wf(&self) -> bool {
        &&& self.idx <= self.tokens@.len()
        &&& self.outcomes@.len() == self.idx
        &&& (forall|i: int|
            0 <= i < self.idx ==> (#[trigger] self.outcomes@[i]).target@ == self.tokens@[i]@)
        &&& (self.phase is Finished ==> self.idx == self.tokens@.len())
        &&& (!(self.phase is Ready || self.phase is Finished) ==> self.idx < self.tokens@.len())
        &&& self.socket_queries@ <= 1
        &&& ((self.sockets is Unqueried) <==> self.socket_queries@ == 0)
        &&& (self.socket_queries@ == 1 ==> exists|i: int|
            0 <= i < self.tokens@.len() && spec_classify(#[trigger] self.tokens@[i]@) is PortRef)
        &&& (self.phase matches Phase::WaitSockets(p) ==> self.sockets is Unqueried
            && spec_classify(self.current()) == Target::PortRef(p))
        &&& (self.phase matches Phase::WaitPid(d) ==> spec_classify(self.current())
            == Target::PidRef(d))
        &&& (self.phase matches Phase::WaitKillPort(pid, port, proto) ==> spec_classify(
            self.current(),
        ) == Target::PortRef(port) && (self.sockets matches SocketsState::Available(tbl)
            && spec_find_by_port(port, tbl@) == Some(
            (SocketRecord { protocol: proto, local_port: port, owning_pid: pid }),
        )))
        &&& (self.phase matches Phase::WaitKillPid(d) ==> spec_classify(self.current())
            == Target::PidRef(d))
        &&& (self.phase matches Phase::WaitKillName(pid) ==> spec_classify(self.current())
            is NameRef)
        &&& (self.phase is WaitList ==> spec_classify(self.current()) is NameRef)
    }

    /// Nothing but the phase may differ between `pre` and `post`.
    pub open spec fn same_progress(pre: Resolver, post: Resolver) -> bool {
        &&& post.tokens == pre.tokens
        &&& post.idx == pre.idx
        &&& post.sockets == pre.sockets
        &&& post.outcomes == pre.outcomes
        &&& post.socket_queries == pre.socket_queries
    }

    /// `post` reports the current target of `pre` with `success` and
    /// `message`, appended after the outcomes already collected, and
    /// stands ready at the next target; nothing else changes.
    pub open spec fn resolves_current(
        pre: Resolver,
        post: Resolver,
        success: bool,
        message: Seq<char>,
    ) -> bool {
        &&& post.tokens == pre.tokens
        &&& post.idx == pre.idx + 1
        &&& post.phase is Ready
        &&& post.sockets == pre.sockets
        &&& post.socket_queries == pre.socket_queries
        &&& post.outcomes@.len() == pre.outcomes@.len() + 1
        &&& post.outcomes@.subrange(0, pre.outcomes@.len() as int) == pre.outcomes@
        &&& post.outcomes@.last().target@ == pre.tokens@[pre.idx as int]@
        &&& post.outcomes@.last().success == success
        &&& post.outcomes@.last().message@ == message
    }

    /// A fresh run over the given targets: nothing examined, no socket
    /// snapshot requested, no outcome yet.
    pub fn new(tokens: Vec<String>) -> (r: Resolver)
        ensures
            r.wf(),
            r.tokens == tokens,
            r.idx == 0,
            r.phase is Ready,
            r.sockets is Unqueried,
            r.outcomes@.len() == 0,
            r.socket_queries@ == 0,
    {
        Resolver {
            tokens,
            idx: 0,
            phase: Phase::Ready,
            sockets: SocketsState::Unqueried,
            outcomes: Vec::new(),
            socket_queries: Ghost(0nat),
        }
    }

    /// Examine the current target as far as possible without the driver,
    /// and say what is needed next. A malformed port token is reported at
    /// once, with no lookup of any kind; a port token asks for the socket
    /// snapshot only if none was requested before, and resolves against
    /// the snapshot already at hand otherwise; a pure-digit token asks
    /// for a PID lookup, never for the process list; any other token asks
    /// for the process list. In a waiting state the pending request is
    /// repeated unchanged.
    pub fn next_action(&mut self) -> (r: Action)
        requires
            old(self).wf(),
        ensures
            final(self).wf(),
            ({
                let pre = *old(self);
                let post = *final(self);
                &&& (pre.phase is Finished ==> Self::same_progress(pre, post) && post.phase
                    is Finished && r == Action::Done)
                &&& (pre.phase is Ready && pre.idx == pre.tokens@.len() ==> Self::same_progress(
                    pre,
                    post,
                ) && post.phase is Finished && r == Action::Done)
                &&& (pre.phase is Ready && pre.idx < pre.tokens@.len() ==> (match spec_classify(
                    pre.current(),
                ) {
                    Target::PortParseError => Self::resolves_current(
                        pre,
                        post,
                        false,
                        msg_parse_fail(pre.current().subrange(1, pre.current().len() as int)),
                    ) && r == Action::Continue,
                    Target::PortRef(p) => {
                        if pre.sockets is Unqueried {
                            Self::same_progress(pre, post) && post.phase == Phase::WaitSockets(p)
                                && r == Action::QuerySockets
                        } else if pre.sockets is Unavailable {
                            Self::resolves_current(pre, post, false, msg_enum_fail()) && r
                                == Action::Continue
                        } else {
                            pre.sockets matches SocketsState::Available(tbl)
                                && (match spec_find_by_port(p, tbl@) {
                                Some(rec) => Self::same_progress(pre, post) && post.phase
                                    == Phase::WaitKillPort(rec.owning_pid, p, rec.protocol) && r
                                    == Action::Kill(rec.owning_pid),
                                None => Self::resolves_current(
                                    pre,
                                    post,
                                    false,
                                    msg_port_not_found(p),
                                ) && r == Action::Continue,
                            })
                        }
                    },
                    Target::PidRef(d) => Self::same_progress(pre, post) && post.phase
                        == Phase::WaitPid(d) && r == Action::LookupPid(d),
                    Target::NameRef => Self::same_progress(pre, post) && post.phase is WaitList
                        && r == Action::QueryProcessList,
                }))
                &&& (pre.phase matches Phase::WaitSockets(p) ==> post == pre && r
                    == Action::QuerySockets)
                &&& (pre.phase matches Phase::WaitPid(d) ==> post == pre && r == Action::LookupPid(
                    d,
                ))
                &&& (pre.phase matches Phase::WaitKillPort(pid, port, proto) ==> post == pre && r
                    == Action::Kill(pid))
                &&& (pre.phase matches Phase::WaitKillPid(d) ==> post == pre && r == Action::Kill(
                    d,
                ))
                &&& (pre.phase matches Phase::WaitKillName(pid) ==> post == pre && r
                    == Action::Kill(pid))
                &&& (pre.phase is WaitList ==> post == pre && r == Action::QueryProcessList)
            }),
    {
        match self.phase {
            Phase::Finished => Action::Done,
            Phase::WaitSockets(_) => Action::QuerySockets,
            Phase::WaitPid(d) => Action::LookupPid(d),
            Phase::WaitKillPort(pid, _, _) => Action::Kill(pid),
            Phase::WaitKillPid(d) => Action::Kill(d),
            Phase::WaitKillName(pid) => Action::Kill(pid),
            Phase::WaitList => Action::QueryProcessList,
            Phase::Ready => {
                if self.idx == self.tokens.len() {
                    self.phase = Phase::Finished;
                    return Action::Done;
                }
                let c = classify(self.tokens[self.idx].as_str());
                match c {
                    Target::PortParseError => {
                        let tok = &self.tokens[self.idx];
                        let n: usize = tok.as_str().unicode_len();
                        let msg = build_parse_fail(tok.as_str().substring_char(1, n));
                        let target = tok.clone();
                        self.outcomes.push(Outcome { target, success: false, message: msg });
                        proof {
                            assert(self.idx < self.tokens.len());
                        }
                        self.idx = self.idx + 1;
                        proof {
                            assert(self.outcomes@.subrange(0, old(self).outcomes@.len() as int)
                                =~= old(self).outcomes@);
                        }
                        Action::Continue
                    },
                    Target::PortRef(p) => {
                        match &self.sockets {
                            SocketsState::Unqueried => {
                                self.phase = Phase::WaitSockets(p);
                                Action::QuerySockets
                            },
                            SocketsState::Unavailable => {
                                let msg = build_enum_fail();
                                let target = self.tokens[self.idx].clone();
                                self.outcomes.push(
                                    Outcome { target, success: false, message: msg },
                                );
                                proof {
                                    assert(self.idx < self.tokens.len());
                                }
                                self.idx = self.idx + 1;
                                proof {
                                    assert(self.outcomes@.subrange(
                                        0,
                                        old(self).outcomes@.len() as int,
                                    ) =~= old(self).outcomes@);
                                }
                                Action::Continue
                            },
                            SocketsState::Available(tbl) => {
                                let found = find_by_port(p, tbl);
                                match found {
                                    Some(rec) => {
                                        proof {
                                            lemma_find_by_port_first(p, tbl@);
                                        }
                                        self.phase = Phase::WaitKillPort(
                                            rec.owning_pid,
                                            p,
                                            rec.protocol,
                                        );
                                        Action::Kill(rec.owning_pid)
                                    },
                                    None => {
                                        let msg = build_port_not_found(p);
                                        let target = self.tokens[self.idx].clone();
                                        self.outcomes.push(
                                            Outcome { target, success: false, message: msg },
                                        );
                                        proof {
                                            assert(self.idx < self.tokens.len());
                                        }
                                        self.idx = self.idx + 1;
                                        proof {
                                            assert(self.outcomes@.subrange(
                                                0,
                                                old(self).outcomes@.len() as int,
                                            ) =~= old(self).outcomes@);
                                        }
                                        Action::Continue
                                    },
                                }
                            },
                        }
                    },
                    Target::PidRef(d) => {
                        self.phase = Phase::WaitPid(d);
                        Action::LookupPid(d)
                    },
                    Target::NameRef => {
                        self.phase = Phase::WaitList;
                        Action::QueryProcessList
                    },
                }
            },
        }
    }

    /// Hand in the socket snapshot that was asked for, or `None` when the
    /// system could not be queried. Either way the snapshot counts as
    /// requested: it is never asked for again in this run.
    pub fn provide_sockets(&mut self, table: Option<Vec<SocketRecord>>)
        requires
            old(self).wf(),
            old(self).phase matches Phase::WaitSockets(_),
        ensures
            final(self).wf(),
            final(self).tokens == old(self).tokens,
            final(self).idx == old(self).idx,
            final(self).outcomes == old(self).outcomes,
            final(self).phase is Ready,
            final(self).socket_queries@ == old(self).socket_queries@ + 1,
            (match table {
                Some(t) => final(self).sockets == SocketsState::Available(t),
                None => final(self).sockets is Unavailable,
            }),
    {
        proof {
            let i = old(self).idx as int;
            assert(exists|k: int|
                0 <= k < old(self).tokens@.len() && spec_classify(
                    #[trigger] old(self).tokens@[k]@,
                ) is PortRef) by {
                assert(spec_classify(old(self).tokens@[i]@) is PortRef);
            }
        }
        self.socket_queries = Ghost(self.socket_queries@ + 1);
        match table {
            Some(t) => {
                self.sockets = SocketsState::Available(t);
            },
            None => {
                self.sockets = SocketsState::Unavailable;
            },
        }
        self.phase = Phase::Ready;
    }

    /// Hand in whether the process the PID target names exists. If it
    /// does, its kill is requested next; if not, the target fails at once
    /// and no name lookup is ever tried for it.
    pub fn provide_pid_lookup(&mut self, found: bool)
        requires
            old(self).wf(),
            old(self).phase matches Phase::WaitPid(_),
        ensures
            final(self).wf(),
            (old(self).phase matches Phase::WaitPid(d) ==> {
                if found {
                    Self::same_progress(*old(self), *final(self)) && final(self).phase
                        == Phase::WaitKillPid(d)
                } else {
                    Self::resolves_current(*old(self), *final(self), false, msg_pid_not_found(d))
                }
            }),
    {
        let d: u64 = match self.phase {
            Phase::WaitPid(d) => d,
            _ => vstd::pervasive::unreached(),
        };
        if found {
            self.phase = Phase::WaitKillPid(d);
        } else {
            let msg = build_pid_not_found(d);
            let target = self.tokens[self.idx].clone();
            self.outcomes.push(Outcome { target, success: false, message: msg });
            proof {
                assert(self.idx < self.tokens.len());
            }
            self.idx = self.idx + 1;
            self.phase = Phase::Ready;
            proof {
                assert(self.outcomes@.subrange(0, old(self).outcomes@.len() as int) =~= old(
                    self,
                ).outcomes@);
            }
        }
    }

    /// Hand in the process-list snapshot a name target asked for, or
    /// `None` when the list could not be collected. The first entry whose
    /// name equals the token exactly is chosen and its kill requested;
    /// with no such entry the target fails at once.
    pub fn provide_process_list(&mut self, list: Option<Vec<ProcessInfo>>)
        requires
            old(self).wf(),
            old(self).phase is WaitList,
        ensures
            final(self).wf(),
            (match list {
                None => Self::resolves_current(*old(self), *final(self), false, msg_list_fail()),
                Some(procs) => (match spec_find_by_name(old(self).current(), procs@) {
                    Some(pid) => Self::same_progress(*old(self), *final(self)) && final(self).phase
                        == Phase::WaitKillName(pid),
                    None => Self::resolves_current(
                        *old(self),
                        *final(self),
                        false,
                        msg_name_not_found(old(self).current()),
                    ),
                }),
            }),
    {
        match list {
            None => {
                let msg = build_list_fail();
                let target = self.tokens[self.idx].clone();
                self.outcomes.push(Outcome { target, success: false, message: msg });
                proof {
                    assert(self.idx < self.tokens.len());
                }
                self.idx = self.idx + 1;
                self.phase = Phase::Ready;
                proof {
                    assert(self.outcomes@.subrange(0, old(self).outcomes@.len() as int) =~= old(
                        self,
                    ).outcomes@);
                }
            },
            Some(procs) => {
                let name = self.tokens[self.idx].clone();
                match find_by_name(&name, &procs) {
                    Some(pid) => {
                        self.phase = Phase::WaitKillName(pid);
                    },
                    None => {
                        let msg = build_name_not_found(name.as_str());
                        self.outcomes.push(Outcome { target: name, success: false, message: msg });
                        proof {
                            assert(self.idx < self.tokens.len());
                        }
                        self.idx = self.idx + 1;
                        self.phase = Phase::Ready;
                        proof {
                            assert(self.outcomes@.subrange(0, old(self).outcomes@.len() as int)
                                =~= old(self).outcomes@);
                        }
                    },
                }
            },
        }
    }

    /// Hand in whether the kill signal was delivered. The current target
    /// is thereby resolved: success with the message naming what was
    /// killed, failure with the kill-failure message.
    pub fn provide_kill(&mut self, killed: bool)
        requires
            old(self).wf(),
            old(self).phase matches Phase::WaitKillPort(_, _, _) || old(self).phase
                matches Phase::WaitKillPid(_) || old(self).phase matches Phase::WaitKillName(_),
        ensures
            final(self).wf(),
            (old(self).phase matches Phase::WaitKillPort(pid, port, proto)
                ==> Self::resolves_current(
                *old(self),
                *final(self),
                killed,
                if killed {
                    msg_port_killed(port, proto)
                } else {
                    msg_kill_fail()
                },
            )),
            (old(self).phase matches Phase::WaitKillPid(d) ==> Self::resolves_current(
                *old(self),
                *final(self),
                killed,
                if killed {
                    msg_pid_killed(d)
                } else {
                    msg_kill_fail()
                },
            )),
            (old(self).phase matches Phase::WaitKillName(pid) ==> Self::resolves_current(
                *old(self),
                *final(self),
                killed,
                if killed {
                    msg_name_killed(old(self).current())
                } else {
                    msg_kill_fail()
                },
            )),
    {
        let msg: String = match self.phase {
            Phase::WaitKillPort(_, port, proto) => {
                if killed {
                    build_port_killed(port, proto)
                } else {
                    build_kill_fail()
                }
            },
            Phase::WaitKillPid(d) => {
                if killed {
                    build_pid_killed(d)
                } else {
                    build_kill_fail()
                }
            },
            Phase::WaitKillName(_) => {
                if killed {
                    build_name_killed(self.tokens[self.idx].as_str())
                } else {
                    build_kill_fail()
                }
            },
            _ => vstd::pervasive::unreached(),
        };
        let target = self.tokens[self.idx].clone();
        self.outcomes.push(Outcome { target, success: killed, message: msg });
        proof {
            assert(self.idx < self.tokens.len());
        }
        self.idx = self.idx + 1;
        self.phase = Phase::Ready;
        proof {
            assert(self.outcomes@.subrange(0, old(self).outcomes@.len() as int) =~= old(
                self,
            ).outcomes@);
        }
    }
}

/// Socket enumeration happens at most once per run, and only in a run
/// among whose targets a port reference stands; a run without one never
/// requests it.
pub proof fn lemma_enumeration_once(r: Resolver)
    requires
        r.wf(),
    ensures
        r.socket_queries@ <= 1,
        r.socket_queries@ == 1 ==> exists|i: int|
            0 <= i < r.tokens@.len() && spec_classify(#[trigger] r.tokens@[i]@) is PortRef,
        (forall|i: int|
            0 <= i < r.tokens@.len() ==> !(spec_classify(#[trigger] r.tokens@[i]@) is PortRef))
            ==> r.socket_queries@ == 0,
{
}

/// A finished run reports exactly one outcome per requested target, in
/// the order the targets were given: the i-th outcome carries the i-th
/// token.
pub proof fn lemma_outcomes_in_order(r: Resolver)
    requires
        r.wf(),
        r.phase is Finished,
    ensures
        r.outcomes@.len() == r.tokens@.len(),
        forall|i: int|
            0 <= i < r.tokens@.len() ==> (#[trigger] r.outcomes@[i]).target@ == r.tokens@[i]@,
{
}

} // verus!
