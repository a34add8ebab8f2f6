//! The outbound event emitter.
//!
//! Host-originated events reach a webview session by evaluating a script in
//! that session's JS engine: the script calls the well-known global dispatcher
//! with the session's display name, the event id and the JSON payload as a
//! literal.  The emitter turns one `emit` into the exact list of script
//! evaluations the host must perform: one per live session for a broadcast,
//! one for a live addressed session, none for a dead one.

use vstd::prelude::*;
use vstd::string::*;

verus! {

/// A serialized event payload: JSON text, embedded into the script verbatim.
pub struct EventPayload {
    json: String,
}

impl View for EventPayload {
    type V = Seq<char>;

    closed spec fn view(&self) -> Seq<char> {
        self.json@
    }
}

impl EventPayload {
    /// Wraps already-serialized JSON text.
    pub fn new(json: String) -> (r: Self)
        ensures
            r@ == json@,
    {
        EventPayload { json }
    }

    /// The payload text.
    pub fn as_str(&self) -> (r: &str)
        ensures
            r@ == self@,
    {
        self.json.as_str()
    }
}

/// A host-originated event to deliver to the webview side.
pub struct EmitEventToWebview {
    /// The event id the webview-side dispatcher receives.
    pub id: String,
    /// The data to be sent to the webview.
    pub payload: EventPayload,
}

/// One live webview session: its handle and its display name.
pub struct Session {
    /// The session handle.
    pub id: u64,
    /// The display name embedded into emitted scripts.
    pub name: String,
}

/// A script evaluation the host must perform in one session.
pub struct ScriptCall {
    /// The session whose JS engine must evaluate the script.
    pub session: u64,
    /// The script text.
    pub script: String,
}

/// The script that delivers an event to one session.
pub open spec fn spec_emit_script(
    name: Seq<char>,
    event_id: Seq<char>,
    payload: Seq<char>,
) -> Seq<char> {
    "window.__FLURX__.__emitEvent('"@ + name + "', '"@ + event_id + "', "@ + payload + ");"@
}

/// Builds the delivery script for one session.
pub fn build_emit_script(name: &str, event_id: &str, payload: &str) -> (s: String)
    ensures
        s@ == spec_emit_script(name@, event_id@, payload@),
{
    let mut s: String = "window.__FLURX__.__emitEvent('".to_owned();
    s.append(name);
    s.append("', '");
    s.append(event_id);
    s.append("', ");
    s.append(payload);
    s.append(");");
    proof {
        assert(s@ =~= spec_emit_script(name@, event_id@, payload@));
    }
    s
}

/// The delivery script embeds the session's own display name: it appears
/// verbatim right after the dispatcher call's opening quote.
pub proof fn lemma_emit_script_names_session(
    name: Seq<char>,
    event_id: Seq<char>,
    payload: Seq<char>,
)
    ensures
        spec_emit_script(name, event_id, payload).subrange(30, 30 + name.len() as int) == name,
{
    reveal_strlit("window.__FLURX__.__emitEvent('");
    assert(spec_emit_script(name, event_id, payload).subrange(30, 30 + name.len() as int)
        =~= name);
}

/// Whether a session list holds a session with an id.
pub open spec fn spec_has_session(list: Seq<Session>, id: u64) -> bool {
    exists|i: int| 0 <= i < list.len() && list[i].id == id
}

/// The index of the session with an id, or `-1`.
pub open spec fn spec_find_session(list: Seq<Session>, id: u64) -> int {
    if spec_has_session(list, id) {
        choose|i: int| 0 <= i < list.len() && list[i].id == id
    } else {
        -1
    }
}

/// The registry of live sessions, in creation order.
pub struct Sessions {
    list: Vec<Session>,
}

impl Sessions {
    /// The live sessions, in creation order.
    pub closed spec fn spec_sessions(self) -> Seq<Session> {
        self.list@
    }

    /// Well-formedness: session handles are unique.
    pub open spec fn wf(self) -> bool {
        forall|i: int, j: int|
            #![trigger self.spec_sessions()[i].id, self.spec_sessions()[j].id]
            0 <= i < j < self.spec_sessions().len() ==> self.spec_sessions()[i].id
                != self.spec_sessions()[j].id
    }

    /// Creates an empty registry.
    pub fn new() -> (r: Self)
        ensures
            r.wf(),
            r.spec_sessions().len() == 0,
    {
        Sessions { list: Vec::new() }
    }

    /// The number of live sessions.
    pub fn len(&self) -> (n: usize)
        ensures
            n == self.spec_sessions().len(),
    {
        self.list.len()
    }

    /// Whether a session with this handle is live.
    pub fn contains(&self, id: u64) -> (r: bool)
        ensures
            r == spec_has_session(self.spec_sessions(), id),
    {
        let mut i: usize = 0;
        while i < self.list.len()
            invariant
                i <= self.list.len(),
                forall|k: int| 0 <= k < i ==> (#[trigger] self.list@[k]).id != id,
            decreases self.list.len() - i,
        {
            if self.list[i].id == id {
                proof {
                    assert(spec_has_session(self.spec_sessions(), id));
                }
                return true;
            }
            i += 1;
        }
        proof {
            if spec_has_session(self.spec_sessions(), id) {
                let w = choose|k: int| 0 <= k < self.list@.len() && self.list@[k].id == id;
                assert(self.list@[w].id != id);
                assert(false);
            }
        }
        false
    }

    /// Registers a live session.  A handle already registered is rejected, so
    /// handles stay unique.
    pub fn add_session(&mut self, id: u64, name: String) -> (added: bool)
        requires
            old(self).wf(),
        ensures
            final(self).wf(),
            added == !spec_has_session(old(self).spec_sessions(), id),
            added ==> final(self).spec_sessions().len() == old(self).spec_sessions().len() + 1
                && final(self).spec_sessions().drop_last() == old(self).spec_sessions()
                && final(self).spec_sessions().last().id == id
                && final(self).spec_sessions().last().name@ == name@,
            !added ==> final(self).spec_sessions() == old(self).spec_sessions(),
    {
        let mut i: usize = 0;
        while i < self.list.len()
            invariant
                self == old(self),
                old(self).wf(),
                i <= self.list.len(),
                forall|k: int| 0 <= k < i ==> (#[trigger] self.list@[k]).id != id,
            decreases self.list.len() - i,
        {
            if self.list[i].id == id {
                proof {
                    assert(spec_has_session(self.spec_sessions(), id));
                }
                return false;
            }
            i += 1;
        }
        proof {
            if spec_has_session(self.spec_sessions(), id) {
                let w = choose|k: int| 0 <= k < self.list@.len() && self.list@[k].id == id;
                assert(self.list@[w].id != id);
                assert(false);
            }
        }
        let ghost list0 = self.list@;
        self.list.push(Session { id, name });
        proof {
            assert(self.spec_sessions().drop_last() =~= list0);
            assert forall|a: int, b: int|
                #![trigger self.spec_sessions()[a].id, self.spec_sessions()[b].id]
                0 <= a < b < self.spec_sessions().len() implies self.spec_sessions()[a].id
                != self.spec_sessions()[b].id by {
                assert(self.spec_sessions()[a] == list0[a]);
                if b < list0.len() {
                    assert(self.spec_sessions()[b] == list0[b]);
                }
            };
        }
        true
    }

    /// Tears a session down: it no longer receives emissions.
    pub fn remove_session(&mut self, id: u64)
        requires
            old(self).wf(),
        ensures
            final(self).wf(),
            !spec_has_session(final(self).spec_sessions(), id),
            final(self).spec_sessions() == old(self).spec_sessions().filter(
                keeps_session(id),
            ),
    {
        let ghost list0 = self.list@;
        let mut kept: Vec<Session> = Vec::new();
        let mut i: usize = 0;
        while i < self.list.len()
            invariant
                self == old(self),
                self.list@ == list0,
                i <= self.list.len(),
                kept@ == list0.subrange(0, i as int).filter(keeps_session(id)),
            decreases self.list.len() - i,
        {
            proof {
                lemma_session_filter_one_more(list0, i as int, id);
            }
            let s = &self.list[i];
            if s.id != id {
                let copy = Session { id: s.id, name: s.name.clone() };
                proof {
                    assert(copy == list0[i as int]);
                    assert(kept@.push(copy) =~= list0.subrange(0, i + 1).filter(
                        keeps_session(id),
                    ));
                }
                kept.push(copy);
            } else {
                proof {
                    assert(kept@ =~= list0.subrange(0, i + 1).filter(keeps_session(id)));
                }
            }
            i += 1;
        }
        proof {
            assert(list0.subrange(0, list0.len() as int) =~= list0);
        }
        self.list = kept;
        proof {
            assert(list0 == old(self).spec_sessions());
            lemma_session_filter_wf(list0, id);
            if spec_has_session(self.spec_sessions(), id) {
                let w = choose|k: int|
                    0 <= k < self.spec_sessions().len() && self.spec_sessions()[k].id == id;
                assert(!keeps_session(id)(self.spec_sessions()[w]));
                assert(false);
            }
        }
    }

    /// Emits an event: broadcast (`target = None`) yields exactly one script
    /// call per live session, in registry order, each carrying that session's
    /// own display name; a live addressed session yields exactly one call; a
    /// dead one yields none (a silent no-op, not an error).
    pub fn emit(&self, target: Option<u64>, event_id: &str, payload: &EventPayload) -> (calls:
        Vec<ScriptCall>)
        requires
            self.wf(),
        ensures
            match target {
                Option::None => {
                    &&& calls@.len() == self.spec_sessions().len()
                    &&& forall|i: int|
                        0 <= i < calls@.len() ==> (#[trigger] calls@[i]).session
                            == self.spec_sessions()[i].id
                    &&& forall|i: int|
                        0 <= i < calls@.len() ==> (#[trigger] calls@[i]).script@
                            == spec_emit_script(
                            self.spec_sessions()[i].name@,
                            event_id@,
                            payload@,
                        )
                },
                Option::Some(t) => {
                    &&& calls@.len() == if spec_has_session(self.spec_sessions(), t) {
                        1int
                    } else {
                        0int
                    }
                    &&& spec_has_session(self.spec_sessions(), t) ==> ({
                        let i = spec_find_session(self.spec_sessions(), t);
                        &&& calls@[0].session == t
                        &&& calls@[0].script@ == spec_emit_script(
                            self.spec_sessions()[i].name@,
                            event_id@,
                            payload@,
                        )
                    })
                },
            },
    {
        let mut calls: Vec<ScriptCall> = Vec::new();
        match target {
            None => {
                let mut i: usize = 0;
                while i < self.list.len()
                    invariant
                        i <= self.list.len(),
                        calls@.len() == i,
                        forall|k: int|
                            0 <= k < i ==> (#[trigger] calls@[k]).session == self.list@[k].id,
                        forall|k: int|
                            0 <= k < i ==> (#[trigger] calls@[k]).script@ == spec_emit_script(
                                self.list@[k].name@,
                                event_id@,
                                payload@,
                            ),
                    decreases self.list.len() - i,
                {
                    let s = &self.list[i];
                    let script = build_emit_script(s.name.as_str(), event_id, payload.as_str());
                    calls.push(ScriptCall { session: s.id, script });
                    i += 1;
                }
                calls
            },
            Some(t) => {
                let mut i: usize = 0;
                while i < self.list.len()
                    invariant
                        self.wf(),
                        target == Some(t),
                        i <= self.list.len(),
                        calls@.len() == 0,
                        forall|k: int| 0 <= k < i ==> (#[trigger] self.list@[k]).id != t,
                    decreases self.list.len() - i,
                {
                    if self.list[i].id == t {
                        proof {
                            lemma_find_session_unique(self.spec_sessions(), t, i as int);
                        }
                        let s = &self.list[i];
                        let script = build_emit_script(
                            s.name.as_str(),
                            event_id,
                            payload.as_str(),
                        );
                        calls.push(ScriptCall { session: s.id, script });
                        return calls;
                    }
                    i += 1;
                }
                proof {
                    if spec_has_session(self.spec_sessions(), t) {
                        let w = choose|k: int|
                            0 <= k < self.list@.len() && self.list@[k].id == t;
                        assert(self.list@[w].id != t);
                        assert(false);
                    }
                }
                calls
            },
        }
    }
}

impl Sessions {
    /// Emits a host-originated event: the broadcast sentinel `None` reaches
    /// every live session, a handle reaches that session alone, and a dead
    /// handle reaches nobody.
    pub fn emit_event(&self, target: Option<u64>, event: &EmitEventToWebview) -> (calls: Vec<
        ScriptCall,
    >)
        requires
            self.wf(),
        ensures
            match target {
                Option::None => {
                    &&& calls@.len() == self.spec_sessions().len()
                    &&& forall|i: int|
                        0 <= i < calls@.len() ==> (#[trigger] calls@[i]).session
                            == self.spec_sessions()[i].id
                    &&& forall|i: int|
                        0 <= i < calls@.len() ==> (#[trigger] calls@[i]).script@
                            == spec_emit_script(
                            self.spec_sessions()[i].name@,
                            event.id@,
                            event.payload@,
                        )
                },
                Option::Some(t) => {
                    &&& calls@.len() == if spec_has_session(self.spec_sessions(), t) {
                        1int
                    } else {
                        0int
                    }
                    &&& spec_has_session(self.spec_sessions(), t) ==> ({
                        let i = spec_find_session(self.spec_sessions(), t);
                        &&& calls@[0].session == t
                        &&& calls@[0].script@ == spec_emit_script(
                            self.spec_sessions()[i].name@,
                            event.id@,
                            event.payload@,
                        )
                    })
                },
            },
    {
        self.emit(target, event.id.as_str(), &event.payload)
    }
}

/// The predicate that keeps the sessions other than one being torn down.
pub open spec fn keeps_session(id: u64) -> spec_fn(Session) -> bool {
    |s: Session| s.id != id
}

/// In a registry with unique handles, a session with a handle is the one
/// `spec_find_session` names.
proof fn lemma_find_session_unique(list: Seq<Session>, id: u64, i: int)
    requires
        forall|a: int, b: int|
            #![trigger list[a].id, list[b].id]
            0 <= a < b < list.len() ==> list[a].id != list[b].id,
        0 <= i < list.len(),
        list[i].id == id,
    ensures
        spec_find_session(list, id) == i,
{
    assert(spec_has_session(list, id));
    let w = choose|k: int| 0 <= k < list.len() && list[k].id == id;
    if w != i {
        assert(list[w].id == list[i].id);
        assert(false);
    }
}

proof fn lemma_session_filter_one_more(s: Seq<Session>, i: int, id: u64)
    requires
        0 <= i < s.len(),
    ensures
        s.subrange(0, i + 1).filter(keeps_session(id)) == if s[i].id != id {
            s.subrange(0, i).filter(keeps_session(id)).push(s[i])
        } else {
            s.subrange(0, i).filter(keeps_session(id))
        },
{
    reveal(Seq::filter);
    let longer = s.subrange(0, i + 1);
    assert(longer.drop_last() =~= s.subrange(0, i));
    assert(longer.last() == s[i]);
}

/// Dropping one session keeps the other sessions' handles unique, and every
/// kept session's handle differs from the dropped one.
proof fn lemma_session_filter_wf(s: Seq<Session>, id: u64)
    requires
        forall|a: int, b: int|
            #![trigger s[a].id, s[b].id]
            0 <= a < b < s.len() ==> s[a].id != s[b].id,
    ensures
        forall|a: int, b: int|
            #![trigger s.filter(keeps_session(id))[a].id, s.filter(keeps_session(id))[b].id]
            0 <= a < b < s.filter(keeps_session(id)).len() ==> s.filter(
                keeps_session(id),
            )[a].id != s.filter(keeps_session(id))[b].id,
        forall|a: int|
            0 <= a < s.filter(keeps_session(id)).len() ==> (#[trigger] s.filter(
                keeps_session(id),
            )[a]).id != id,
    decreases s.len(),
{
    reveal(Seq::filter);
    if s.len() > 0 {
        let ds = s.drop_last();
        assert forall|a: int, b: int|
            #![trigger ds[a].id, ds[b].id]
            0 <= a < b < ds.len() implies ds[a].id != ds[b].id by {
            assert(ds[a] == s[a]);
            assert(ds[b] == s[b]);
        };
        lemma_session_filter_wf(ds, id);
        lemma_session_filter_subset(ds, id);
        let f = s.filter(keeps_session(id));
        let fd = ds.filter(keeps_session(id));
        if keeps_session(id)(s.last()) {
            assert(f == fd.push(s.last()));
            assert forall|a: int| 0 <= a < fd.len() implies (#[trigger] fd[a]).id != s.last().id
                by {
                assert(ds.contains(fd[a]));
                let k = choose|k: int| 0 <= k < ds.len() && ds[k] == fd[a];
                assert(s[k].id != s[s.len() - 1].id);
            };
            assert forall|a: int, b: int|
                #![trigger f[a].id, f[b].id]
                0 <= a < b < f.len() implies f[a].id != f[b].id by {
                assert(f[a] == fd[a]);
                if b < fd.len() {
                    assert(f[b] == fd[b]);
                } else {
                    assert(f[b] == s.last());
                }
            };
            assert forall|a: int| 0 <= a < f.len() implies (#[trigger] f[a]).id != id by {
                if a < fd.len() {
                    assert(f[a] == fd[a]);
                } else {
                    assert(f[a] == s.last());
                }
            };
        } else {
            assert(f == fd);
        }
    }
}

proof fn lemma_session_filter_subset(s: Seq<Session>, id: u64)
    ensures
        forall|i: int|
            0 <= i < s.filter(keeps_session(id)).len() ==> s.contains(
                #[trigger] s.filter(keeps_session(id))[i],
            ),
    decreases s.len(),
{
    reveal(Seq::filter);
    if s.len() > 0 {
        let ds = s.drop_last();
        lemma_session_filter_subset(ds, id);
        let f = s.filter(keeps_session(id));
        let fd = ds.filter(keeps_session(id));
        assert forall|i: int| 0 <= i < f.len() implies s.contains(#[trigger] f[i]) by {
            if i < fd.len() {
                assert(f[i] == fd[i]);
                assert(ds.contains(fd[i]));
                let k = choose|k: int| 0 <= k < ds.len() && ds[k] == fd[i];
                assert(s[k] == f[i]);
            } else {
                assert(f[i] == s.last());
                assert(s[s.len() - 1] == s.last());
            }
        };
    }
}

} // verus!
