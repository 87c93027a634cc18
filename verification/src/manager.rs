//! The session registry: a concurrency-safe bidirectional index from owner
//! identifier to session and from session to process identifier. Callers get
//! value copies of sessions, never shared handles, so no lock is held during
//! network work; the unverified rim wraps one registry value in its mutex.

use vstd::prelude::*;

use crate::error::AgentError;

pub mod matrix;
pub mod wechat;

use crate::text::eq_str;
use crate::wechat::WechatInstance;

verus! {

/// Some session in `s` belongs to owner `m`.
pub open spec fn has_owner(s: Seq<WechatInstance>, m: Seq<char>) -> bool {
    exists|i: int| 0 <= i < s.len() && (#[trigger] s[i]).mxid@ == m
}

/// An index of the session owned by `m`.
pub open spec fn owner_index(s: Seq<WechatInstance>, m: Seq<char>) -> int {
    choose|i: int| 0 <= i < s.len() && (#[trigger] s[i]).mxid@ == m
}

/// The session owned by `m`.
pub open spec fn owner_at(s: Seq<WechatInstance>, m: Seq<char>) -> WechatInstance {
    s[owner_index(s, m)]
}

/// Some session in `s` runs in process `p`.
pub open spec fn has_pid(s: Seq<WechatInstance>, p: u32) -> bool {
    exists|i: int| 0 <= i < s.len() && (#[trigger] s[i]).pid == p
}

/// An index of the session running in process `p`.
pub open spec fn pid_index(s: Seq<WechatInstance>, p: u32) -> int {
    choose|i: int| 0 <= i < s.len() && (#[trigger] s[i]).pid == p
}

/// The session running in process `p`.
pub open spec fn pid_at(s: Seq<WechatInstance>, p: u32) -> WechatInstance {
    s[pid_index(s, p)]
}

/// Element `a` of `s` also occurs in the first `bound` elements of `src`.
pub open spec fn drawn_from(s: Seq<WechatInstance>, src: Seq<WechatInstance>, a: int, bound: int) -> bool {
    exists|k: int| 0 <= k < bound && s[a] == #[trigger] src[k]
}

/// No two live sessions share an owner or a process.
pub open spec fn distinct_sessions(s: Seq<WechatInstance>) -> bool {
    forall|i: int, j: int|
        0 <= i < j < s.len() ==> (#[trigger] s[i]).mxid@ != (#[trigger] s[j]).mxid@ && s[i].pid
            != s[j].pid
}

/// With distinct sessions, the element at any index is what the owner and
/// process lookups name.
proof fn lemma_session_at(s: Seq<WechatInstance>, i: int)
    requires
        distinct_sessions(s),
        0 <= i < s.len(),
    ensures
        has_owner(s, s[i].mxid@),
        owner_index(s, s[i].mxid@) == i,
        owner_at(s, s[i].mxid@) == s[i],
        has_pid(s, s[i].pid),
        pid_index(s, s[i].pid) == i,
        pid_at(s, s[i].pid) == s[i],
{
    assert(has_owner(s, s[i].mxid@));
    let j = owner_index(s, s[i].mxid@);
    if i != j {
        assert(false);
    }
    assert(has_pid(s, s[i].pid));
    let k = pid_index(s, s[i].pid);
    if i != k {
        assert(false);
    }
}

/// The listening port after `p`, wrapping at the top of the range.
pub open spec fn spec_next_listen_port(p: u32) -> u32 {
    if p == u32::MAX {
        0
    } else {
        (p + 1) as u32
    }
}

/// The session as the registry stores it for owner key `mxid`: the record's
/// ports, path and process, bound to that key.
pub open spec fn spec_keyed_session(ins: WechatInstance, mxid: String) -> WechatInstance {
    WechatInstance {
        port: ins.port,
        message_hook_port: ins.message_hook_port,
        save_path: ins.save_path,
        pid: ins.pid,
        mxid,
    }
}

/// The registry and the ports and paths every session inherits.
#[derive(Debug)]
pub struct WechatManager {
    pub message_hook_port: u32,
    pub save_path: String,
    pub wechat_listen_port: u32,
    pub instances: Vec<WechatInstance>,
}

impl WechatManager {
    /// The live sessions, in registration order.
    pub open spec fn sessions(self) -> Seq<WechatInstance> {
        self.instances@
    }

    /// The registry's invariant: owners and process identifiers are unique.
    pub open spec fn wf(self) -> bool {
        distinct_sessions(self.sessions())
    }

    /// A session is registered for this owner.
    pub open spec fn owner_has(self, m: Seq<char>) -> bool {
        has_owner(self.sessions(), m)
    }

    /// The session registered for this owner.
    pub open spec fn owner_session(self, m: Seq<char>) -> WechatInstance {
        owner_at(self.sessions(), m)
    }

    /// A session is registered for this process.
    pub open spec fn pid_has(self, p: u32) -> bool {
        has_pid(self.sessions(), p)
    }

    /// The session registered for this process.
    pub open spec fn pid_session(self, p: u32) -> WechatInstance {
        pid_at(self.sessions(), p)
    }

    /// An empty registry; listening ports are handed out above the callback
    /// port, wrapping at the top of the range as the counter they model does.
    pub fn new(msg_hook_port: u32, save_path: String) -> (r: WechatManager)
        ensures
            r.wf(),
            r.message_hook_port == msg_hook_port,
            r.save_path == save_path,
            r.wechat_listen_port == spec_next_listen_port(msg_hook_port),
            r.sessions().len() == 0,
    {
        let first_port = if msg_hook_port == u32::MAX {
            0
        } else {
            msg_hook_port + 1
        };
        WechatManager {
            message_hook_port: msg_hook_port,
            save_path,
            wechat_listen_port: first_port,
            instances: Vec::new(),
        }
    }

    /// Hands out the next unused listening port.
    pub fn alloc_listen_port(&mut self) -> (r: u32)
        ensures
            r == old(self).wechat_listen_port,
            final(self).wechat_listen_port == spec_next_listen_port(r),
            final(self).sessions() == old(self).sessions(),
            final(self).message_hook_port == old(self).message_hook_port,
            final(self).save_path == old(self).save_path,
    {
        let port = self.wechat_listen_port;
        self.wechat_listen_port = if port == u32::MAX {
            0
        } else {
            port + 1
        };
        port
    }

    /// Index of the session owned by `mxid`, if any.
    fn index_by_mxid(&self, mxid: &str) -> (r: Option<usize>)
        ensures
            r matches Some(i) ==> (i as int) < self.sessions().len()
                && self.sessions()[i as int].mxid@ == mxid@,
            r is None ==> !self.owner_has(mxid@),
    {
        let n = self.instances.len();
        let mut i: usize = 0;
        while i < n
            invariant
                n == self.instances@.len(),
                0 <= i <= n,
                forall|k: int| 0 <= k < i ==> (#[trigger] self.instances@[k]).mxid@ != mxid@,
            decreases n - i,
        {
            if eq_str(self.instances[i].mxid.as_str(), mxid) {
                return Some(i);
            }
            i += 1;
        }
        None
    }

    /// Index of the session running in `pid`, if any.
    fn index_by_pid(&self, pid: u32) -> (r: Option<usize>)
        ensures
            r matches Some(i) ==> (i as int) < self.sessions().len()
                && self.sessions()[i as int].pid == pid,
            r is None ==> !self.pid_has(pid),
    {
        let n = self.instances.len();
        let mut i: usize = 0;
        while i < n
            invariant
                n == self.instances@.len(),
                0 <= i <= n,
                forall|k: int| 0 <= k < i ==> (#[trigger] self.instances@[k]).pid != pid,
            decreases n - i,
        {
            if self.instances[i].pid == pid {
                return Some(i);
            }
            i += 1;
        }
        None
    }

    /// A value copy of the session resolved by process identifier; the
    /// event-ingestion path only knows the process.
    pub fn get_instance_by_pid(&self, pid: u32) -> (r: Result<WechatInstance, AgentError>)
        requires
            self.wf(),
        ensures
            self.pid_has(pid) ==> r == Ok::<WechatInstance, AgentError>(self.pid_session(pid)),
            !self.pid_has(pid) ==> (r matches Err(e) && e matches AgentError::NotFound(_)),
    {
        match self.index_by_pid(pid) {
            Some(i) => {
                proof {
                    lemma_session_at(self.sessions(), i as int);
                }
                Ok(self.instances[i].clone())
            },
            None => Err(AgentError::NotFound(String::from_str("no session for process"))),
        }
    }

    /// A value copy of the session resolved by owner identifier.
    pub fn get_instance_by_mxid(&self, mxid: &str) -> (r: Result<WechatInstance, AgentError>)
        requires
            self.wf(),
        ensures
            self.owner_has(mxid@) ==> r == Ok::<WechatInstance, AgentError>(
                self.owner_session(mxid@),
            ),
            !self.owner_has(mxid@) ==> (r matches Err(e) && e matches AgentError::NotFound(_)),
    {
        match self.index_by_mxid(mxid) {
            Some(i) => {
                proof {
                    lemma_session_at(self.sessions(), i as int);
                }
                Ok(self.instances[i].clone())
            },
            None => Err(AgentError::NotFound(String::from_str("no session for owner"))),
        }
    }

    /// Removes any session owned by `mxid` and any session running in process
    /// `pid`; every other session stays, in order.
    fn remove_conflicts(&mut self, mxid: &str, pid: u32)
        requires
            old(self).wf(),
        ensures
            final(self).wf(),
            final(self).message_hook_port == old(self).message_hook_port,
            final(self).save_path == old(self).save_path,
            final(self).wechat_listen_port == old(self).wechat_listen_port,
            !final(self).owner_has(mxid@),
            !final(self).pid_has(pid),
            forall|a: int|
                0 <= a < final(self).sessions().len() ==> (#[trigger] final(self).sessions()[a]).mxid@ != mxid@ && final(self).sessions()[a].pid != pid,
            forall|a: int|
                0 <= a < final(self).sessions().len() ==> #[trigger] drawn_from(
                    final(self).sessions(),
                    old(self).sessions(),
                    a,
                    old(self).sessions().len() as int,
                ),
            forall|m: Seq<char>|
                m != mxid@ ==> ((#[trigger] has_owner(final(self).sessions(), m)) <==> (has_owner(
                    old(self).sessions(),
                    m,
                ) && owner_at(old(self).sessions(), m).pid != pid)),
            forall|m: Seq<char>|
                m != mxid@ && #[trigger] has_owner(final(self).sessions(), m) ==> owner_at(
                    final(self).sessions(),
                    m,
                ) == owner_at(old(self).sessions(), m),
            forall|p: u32|
                p != pid ==> ((#[trigger] has_pid(final(self).sessions(), p)) <==> (has_pid(
                    old(self).sessions(),
                    p,
                ) && pid_at(old(self).sessions(), p).mxid@ != mxid@)),
            forall|p: u32|
                p != pid && #[trigger] has_pid(final(self).sessions(), p) ==> pid_at(
                    final(self).sessions(),
                    p,
                ) == pid_at(old(self).sessions(), p),
    {
        let ghost s0 = self.instances@;
        let n = self.instances.len();
        let ghost pred = |x: WechatInstance| x.mxid@ != mxid@ && x.pid != pid;
        let mut kept: Vec<WechatInstance> = Vec::new();
        let mut i: usize = 0;
        while i < n
            invariant
                n == s0.len(),
                self.instances@ == s0,
                distinct_sessions(s0),
                0 <= i <= n,
                kept@ == s0.take(i as int).filter(pred),
                pred == (|x: WechatInstance| x.mxid@ != mxid@ && x.pid != pid),
                forall|a: int|
                    0 <= a < kept@.len() ==> (#[trigger] kept@[a]).mxid@ != mxid@ && kept@[a].pid
                        != pid,
                forall|a: int|
                    0 <= a < kept@.len() ==> #[trigger] drawn_from(kept@, s0, a, i as int),
                distinct_sessions(kept@),
            decreases n - i,
        {
            let ghost kept0 = kept@;
            let x = self.instances[i].clone();
            let keep = !eq_str(x.mxid.as_str(), mxid) && x.pid != pid;
            proof {
                reveal(Seq::filter);
                assert(s0.take(i + 1).drop_last() =~= s0.take(i as int));
                assert(s0.take(i + 1).last() == s0[i as int]);
            }
            if keep {
                proof {
                    assert forall|a: int| 0 <= a < kept@.len() implies (#[trigger] kept@[a]).mxid@
                        != x.mxid@ && kept@[a].pid != x.pid by {
                        assert(drawn_from(kept@, s0, a, i as int));
                        let k = choose|k: int| 0 <= k < i && kept@[a] == s0[k];
                        assert(s0[k].mxid@ != s0[i as int].mxid@ && s0[k].pid != s0[i as int].pid);
                    }
                }
                kept.push(x);
            }
            proof {
                assert forall|a: int| 0 <= a < kept@.len() implies #[trigger] drawn_from(
                    kept@,
                    s0,
                    a,
                    i as int + 1,
                ) by {
                    if a < kept0.len() {
                        assert(kept@[a] == kept0[a]);
                        assert(drawn_from(kept0, s0, a, i as int));
                        let k = choose|k: int| 0 <= k < i && kept0[a] == s0[k];
                        assert(0 <= k < i as int + 1 && kept@[a] == s0[k]);
                    } else {
                        assert(kept@[a] == s0[i as int]);
                    }
                }
            }
            i += 1;
        }
        proof {
            assert(s0.take(n as int) =~= s0);
            assert(kept@ == s0.filter(pred));
            assert forall|a: int| 0 <= a < kept@.len() implies drawn_from(
                kept@,
                s0,
                a,
                s0.len() as int,
            ) by {
                assert(drawn_from(kept@, s0, a, i as int));
                let k = choose|k: int| 0 <= k < i && kept@[a] == s0[k];
                assert(0 <= k < s0.len() && kept@[a] == s0[k]);
            }
            assert forall|m: Seq<char>|
                m != mxid@ && has_owner(s0, m) && owner_at(s0, m).pid != pid implies #[trigger] has_owner(
                kept@,
                m,
            ) by {
                let k = owner_index(s0, m);
                lemma_session_at(s0, k);
                s0.lemma_filter_contains(pred, k);
                assert(kept@.contains(s0[k]));
                let a = choose|a: int| 0 <= a < kept@.len() && kept@[a] == s0[k];
                assert(kept@[a].mxid@ == m);
                assert(has_owner(kept@, m));
            }
            assert forall|m: Seq<char>|
                m != mxid@ && #[trigger] has_owner(kept@, m) implies has_owner(s0, m) && owner_at(
                kept@,
                m,
            ) == owner_at(s0, m) && owner_at(s0, m).pid != pid by {
                let a = owner_index(kept@, m);
                lemma_session_at(kept@, a);
                assert(drawn_from(kept@, s0, a, i as int));
                let k = choose|k: int| 0 <= k < i && kept@[a] == s0[k];
                lemma_session_at(s0, k);
            }
            assert forall|p: u32| p != pid && #[trigger] has_pid(kept@, p) implies pid_at(kept@, p)
                == pid_at(s0, p) && pid_at(s0, p).mxid@ != mxid@ && has_pid(s0, p) by {
                let a = pid_index(kept@, p);
                lemma_session_at(kept@, a);
                assert(drawn_from(kept@, s0, a, i as int));
                let k = choose|k: int| 0 <= k < i && kept@[a] == s0[k];
                lemma_session_at(s0, k);
            }
            assert forall|p: u32|
                p != pid && has_pid(s0, p) && pid_at(s0, p).mxid@ != mxid@ implies #[trigger] has_pid(
                kept@,
                p,
            ) by {
                let k = pid_index(s0, p);
                lemma_session_at(s0, k);
                s0.lemma_filter_contains(pred, k);
                assert(kept@.contains(s0[k]));
                let a = choose|a: int| 0 <= a < kept@.len() && kept@[a] == s0[k];
                assert(kept@[a].pid == p);
                assert(has_pid(kept@, p));
            }
        }
        self.instances = kept;
    }

    /// Registers `instance` as owner `mxid`'s session, replacing any session
    /// the owner already had; a session of another owner that ran in the same
    /// process is evicted, since live processes are unique. The stored record
    /// is the instance bound to the owner key.
    pub fn store_instance(&mut self, mxid: String, instance: WechatInstance) -> (r: Result<
        (),
        AgentError,
    >)
        requires
            old(self).wf(),
        ensures
            r is Ok,
            final(self).wf(),
            final(self).message_hook_port == old(self).message_hook_port,
            final(self).save_path == old(self).save_path,
            final(self).wechat_listen_port == old(self).wechat_listen_port,
            final(self).owner_has(mxid@),
            final(self).owner_session(mxid@) == spec_keyed_session(instance, mxid),
            final(self).pid_has(instance.pid),
            final(self).pid_session(instance.pid) == spec_keyed_session(instance, mxid),
            forall|m: Seq<char>|
                m != mxid@ ==> ((#[trigger] final(self).owner_has(m)) <==> (old(self).owner_has(m)
                    && old(self).owner_session(m).pid != instance.pid)),
            forall|m: Seq<char>|
                m != mxid@ && #[trigger] final(self).owner_has(m) ==> final(self).owner_session(m) == old(self).owner_session(m),
            forall|p: u32|
                p != instance.pid ==> ((#[trigger] final(self).pid_has(p)) <==> (old(self).pid_has(p) && old(self).pid_session(p).mxid@ != mxid@)),
            forall|p: u32|
                p != instance.pid && #[trigger] final(self).pid_has(p) ==> final(self).pid_session(p) == old(self).pid_session(p),
    {
        let ghost s0 = self.instances@;
        let ghost ginstance = instance;
        let ghost gkey = mxid;
        let ins = WechatInstance {
            port: instance.port,
            message_hook_port: instance.message_hook_port,
            save_path: instance.save_path,
            pid: instance.pid,
            mxid,
        };
        proof {
            assert(ins == spec_keyed_session(ginstance, gkey));
        }
        self.remove_conflicts(ins.mxid.as_str(), ins.pid);
        let ghost s1 = self.instances@;
        self.instances.push(ins);
        let ghost s2 = self.instances@;
        proof {
            let last = s2.len() - 1;
            assert(s2 =~= s1.push(ins));
            assert(s2[last] == ins);
            assert(distinct_sessions(s2)) by {
                assert forall|i: int, j: int| 0 <= i < j < s2.len() implies (#[trigger] s2[i]).mxid@
                    != (#[trigger] s2[j]).mxid@ && s2[i].pid != s2[j].pid by {
                    if j == last {
                        assert(s2[i] == s1[i]);
                    } else {
                        assert(s2[i] == s1[i] && s2[j] == s1[j]);
                    }
                }
            }
            lemma_session_at(s2, last);
            assert forall|m: Seq<char>| m != gkey@ implies ((#[trigger] has_owner(s2, m)) <==> (
            has_owner(s0, m) && owner_at(s0, m).pid != ginstance.pid)) by {
                if has_owner(s2, m) {
                    let a = choose|a: int| 0 <= a < s2.len() && (#[trigger] s2[a]).mxid@ == m;
                    assert(a != last);
                    assert(s1[a].mxid@ == m);
                    assert(has_owner(s1, m));
                }
                if has_owner(s1, m) {
                    let a = choose|a: int| 0 <= a < s1.len() && (#[trigger] s1[a]).mxid@ == m;
                    assert(s2[a].mxid@ == m);
                    assert(has_owner(s2, m));
                }
            }
            assert forall|m: Seq<char>|
                m != gkey@ && #[trigger] has_owner(s2, m) implies owner_at(s2, m) == owner_at(
                s0,
                m,
            ) by {
                let a = choose|a: int| 0 <= a < s2.len() && (#[trigger] s2[a]).mxid@ == m;
                assert(a != last);
                lemma_session_at(s2, a);
                assert(s2[a] == s1[a]);
                lemma_session_at(s1, a);
                assert(has_owner(s1, m));
            }
            assert forall|p: u32| p != ginstance.pid implies ((#[trigger] has_pid(s2, p)) <==> (
            has_pid(s0, p) && pid_at(s0, p).mxid@ != gkey@)) by {
                if has_pid(s2, p) {
                    let a = choose|a: int| 0 <= a < s2.len() && (#[trigger] s2[a]).pid == p;
                    assert(a != last);
                    assert(s1[a].pid == p);
                    assert(has_pid(s1, p));
                }
                if has_pid(s1, p) {
                    let a = choose|a: int| 0 <= a < s1.len() && (#[trigger] s1[a]).pid == p;
                    assert(s2[a].pid == p);
                    assert(has_pid(s2, p));
                }
            }
            assert forall|p: u32| p != ginstance.pid && #[trigger] has_pid(s2, p) implies pid_at(
                s2,
                p,
            ) == pid_at(s0, p) by {
                let a = choose|a: int| 0 <= a < s2.len() && (#[trigger] s2[a]).pid == p;
                assert(a != last);
                lemma_session_at(s2, a);
                assert(s2[a] == s1[a]);
                lemma_session_at(s1, a);
                assert(has_pid(s1, p));
            }
        }
        Ok(())
    }

    /// Unregisters the owner's session; both lookups fail afterwards. Fails
    /// with `NotFound` when the owner was never registered, leaving the
    /// registry as it was.
    pub fn drop_instance(&mut self, mxid: &str) -> (r: Result<(), AgentError>)
        requires
            old(self).wf(),
        ensures
            final(self).wf(),
            final(self).message_hook_port == old(self).message_hook_port,
            final(self).save_path == old(self).save_path,
            final(self).wechat_listen_port == old(self).wechat_listen_port,
            !old(self).owner_has(mxid@) ==> (r matches Err(e) && e matches AgentError::NotFound(_)
                && *final(self) == *old(self)),
            old(self).owner_has(mxid@) ==> {
                &&& r is Ok
                &&& !final(self).owner_has(mxid@)
                &&& !final(self).pid_has(old(self).owner_session(mxid@).pid)
            },
            forall|m: Seq<char>|
                m != mxid@ ==> ((#[trigger] final(self).owner_has(m)) <==> old(self).owner_has(m)),
            forall|m: Seq<char>|
                m != mxid@ && #[trigger] final(self).owner_has(m) ==> final(self).owner_session(m)
                    == old(self).owner_session(m),
            forall|p: u32|
                (#[trigger] final(self).pid_has(p)) <==> (old(self).pid_has(p) && old(
                    self,
                ).pid_session(p).mxid@ != mxid@),
            forall|p: u32|
                #[trigger] final(self).pid_has(p) ==> final(self).pid_session(p) == old(
                    self,
                ).pid_session(p),
    {
        match self.index_by_mxid(mxid) {
            None => {
                proof {
                    assert forall|p: u32| old(self).pid_has(p) implies old(self).pid_session(
                        p,
                    ).mxid@ != mxid@ by {
                        let k = pid_index(old(self).sessions(), p);
                        lemma_session_at(old(self).sessions(), k);
                    }
                }
                Err(AgentError::NotFound(String::from_str("owner not registered")))
            },
            Some(i) => {
                proof {
                    lemma_session_at(self.sessions(), i as int);
                }
                let ghost s0 = self.instances@;
                let dropped_pid = self.instances[i].pid;
                self.remove_conflicts(mxid, dropped_pid);
                proof {
                    assert forall|m: Seq<char>|
                        m != mxid@ && has_owner(s0, m) implies owner_at(s0, m).pid
                        != dropped_pid by {
                        let k = owner_index(s0, m);
                        lemma_session_at(s0, k);
                        lemma_session_at(s0, i as int);
                        assert(k != i as int);
                    }
                }
                Ok(())
            },
        }
    }
}

/// After a successful registration of session `ins` for owner `m`, the owner
/// lookup names `ins` and its process resolves to the same session; after the
/// owner is then dropped, both lookups fail. The two transitions are given by
/// the contracts of `store_instance` and `drop_instance`.
pub proof fn lemma_registry_connect_then_disconnect(
    mid: WechatManager,
    post: WechatManager,
    m: Seq<char>,
    ins: WechatInstance,
)
    requires
        ins.mxid@ == m,
        // what store_instance establishes
        mid.wf(),
        mid.owner_has(m),
        mid.owner_session(m) == ins,
        mid.pid_has(ins.pid),
        mid.pid_session(ins.pid) == ins,
        // what drop_instance of m establishes afterwards
        !post.owner_has(m),
        !post.pid_has(mid.owner_session(m).pid),
    ensures
        mid.owner_session(m).pid == ins.pid,
        mid.pid_session(mid.owner_session(m).pid) == mid.owner_session(m),
        !post.owner_has(m),
        !post.pid_has(ins.pid),
{
}

} // verus!
