//! The command-dispatch registry.
//!
//! Command identifiers are registered once at startup; each frame, the
//! registry dispatches the drained command messages.  Every message is
//! handled on its own: an unknown identifier or malformed envelope or
//! arguments drops that one message with a diagnostic and never stops the
//! rest of the batch.
//!
//! A handler may be a suspendable computation that spans several frames, so a
//! dispatched invocation is tracked in a call table until the host reports
//! its result; the registry then composes the script call that resolves the
//! caller-side promise named by the correlation token.  A result whose
//! originating session is gone is discarded.

use vstd::prelude::*;
use vstd::string::*;

use crate::emitter::{spec_find_session, spec_has_session, ScriptCall, Sessions};
use crate::envelope::{
    parse_command_envelope, spec_parsed_envelope, CommandMessage, EnvelopeData,
};
use crate::ops::{decode_op, op_matches, spec_decode_op, spec_encode_output, HostOp, HostOpData,
    OpKind, OpOutput};

verus! {

/// One registered command: its identifier and the kind of handler behind it.
pub struct RegisteredCommand {
    /// The exact identifier incoming command envelopes are matched against.
    pub id: String,
    /// How the command's arguments are decoded and executed.
    pub kind: OpKind,
}

/// Whether a command list holds an identifier.
pub open spec fn spec_has_command(cmds: Seq<RegisteredCommand>, id: Seq<char>) -> bool {
    exists|i: int| 0 <= i < cmds.len() && cmds[i].id@ == id
}

/// The index of a registered identifier, or `-1`.
pub open spec fn spec_find_command(cmds: Seq<RegisteredCommand>, id: Seq<char>) -> int {
    if spec_has_command(cmds, id) {
        choose|i: int| 0 <= i < cmds.len() && cmds[i].id@ == id
    } else {
        -1
    }
}

/// The handler kind behind a registered identifier.
pub open spec fn spec_kind_of(cmds: Seq<RegisteredCommand>, id: Seq<char>) -> Option<OpKind> {
    if spec_has_command(cmds, id) {
        Some(cmds[spec_find_command(cmds, id)].kind)
    } else {
        None
    }
}

/// What dispatching one command message yields.
pub ghost enum DispatchItemData {
    /// The message was well-formed: run this operation, then resolve the
    /// caller's promise.
    Invoke { session: u64, correlation: Seq<char>, op: HostOpData },
    /// No handler is registered under the envelope's identifier; the message
    /// is dropped with a diagnostic.
    Unknown { session: u64, command_id: Seq<char> },
    /// The message is not a well-formed command envelope, or its arguments do
    /// not decode for the registered handler; it is dropped with a
    /// diagnostic.
    Malformed { session: u64 },
}

/// What dispatching one command message yields, as executable data.
pub enum DispatchItem {
    /// The message was well-formed: run this operation, then resolve the
    /// caller's promise.
    Invoke { session: u64, correlation: String, op: HostOp },
    /// No handler is registered under the envelope's identifier.
    Unknown { session: u64, command_id: String },
    /// The message is not a well-formed command envelope, or its arguments do
    /// not decode for the registered handler.
    Malformed { session: u64 },
}

/// Whether a dispatch item agrees with its model.
pub open spec fn item_matches(item: DispatchItem, m: DispatchItemData) -> bool {
    match (item, m) {
        (
            DispatchItem::Invoke { session, correlation, op },
            DispatchItemData::Invoke { session: ms, correlation: mc, op: mo },
        ) => session == ms && correlation@ == mc && op_matches(op, mo),
        (
            DispatchItem::Unknown { session, command_id },
            DispatchItemData::Unknown { session: ms, command_id: mid },
        ) => session == ms && command_id@ == mid,
        (
            DispatchItem::Malformed { session },
            DispatchItemData::Malformed { session: ms },
        ) => session == ms,
        _ => false,
    }
}

/// What dispatching one command message yields: an invocation exactly when
/// the payload parses as a command envelope, its identifier is registered,
/// and its arguments decode for the registered handler kind.
pub open spec fn spec_dispatch_one(
    cmds: Seq<RegisteredCommand>,
    m: CommandMessage,
) -> DispatchItemData {
    match spec_parsed_envelope(m.payload@) {
        Some(EnvelopeData::Command { command_id, args, correlation }) => {
            match spec_kind_of(cmds, command_id) {
                Some(kind) => match spec_decode_op(kind, args) {
                    Some(op) => DispatchItemData::Invoke { session: m.session, correlation, op },
                    None => DispatchItemData::Malformed { session: m.session },
                },
                None => DispatchItemData::Unknown { session: m.session, command_id },
            }
        },
        _ => DispatchItemData::Malformed { session: m.session },
    }
}

/// Whether a command message is well-formed with respect to a registry.
pub open spec fn spec_well_formed_command(cmds: Seq<RegisteredCommand>, m: CommandMessage) -> bool {
    match spec_parsed_envelope(m.payload@) {
        Some(EnvelopeData::Command { command_id, args, correlation }) => {
            match spec_kind_of(cmds, command_id) {
                Some(kind) => spec_decode_op(kind, args).is_some(),
                None => false,
            }
        },
        _ => false,
    }
}

/// In every batch, each message is dispatched on its own: the outcome at a
/// position depends on that message alone, a well-formed message always
/// becomes an invocation, and a message that is not well-formed is dropped —
/// as unknown or malformed — without becoming one.  One bad message never
/// affects the others.
pub proof fn lemma_dispatch_isolated(
    cmds: Seq<RegisteredCommand>,
    b1: Seq<CommandMessage>,
    b2: Seq<CommandMessage>,
    i: int,
)
    requires
        0 <= i < b1.len(),
        0 <= i < b2.len(),
        b1[i] == b2[i],
    ensures
        spec_dispatch_one(cmds, b1[i]) == spec_dispatch_one(cmds, b2[i]),
        spec_well_formed_command(cmds, b1[i]) <==> spec_dispatch_one(cmds, b1[i]) is Invoke,
{
}

/// The command-dispatch registry: the commands registered at startup, and
/// the in-flight calls whose results are still owed.
pub struct CommandRegistry {
    commands: Vec<RegisteredCommand>,
    calls: Vec<PendingCall>,
    next_call: u64,
}

/// One in-flight command call: dispatched, not yet resolved.  A suspendable
/// handler may hold its call open across many frames; other calls proceed
/// independently.
pub struct PendingCall {
    /// The handle under which the host reports the result.
    pub call: u64,
    /// The session whose promise the result resolves.
    pub session: u64,
    /// The caller-supplied correlation token.
    pub correlation: String,
}

/// Pairwise distinctness of registered identifiers.
pub open spec fn distinct_ids(cmds: Seq<RegisteredCommand>) -> bool {
    forall|i: int, j: int|
        #![trigger cmds[i].id, cmds[j].id]
        0 <= i < j < cmds.len() ==> cmds[i].id@ != cmds[j].id@
}

impl CommandRegistry {
    /// The registered commands, in registration order.
    pub closed spec fn spec_commands(self) -> Seq<RegisteredCommand> {
        self.commands@
    }

    /// The in-flight calls, oldest first.
    pub closed spec fn spec_calls(self) -> Seq<PendingCall> {
        self.calls@
    }

    /// The next fresh call handle.
    pub closed spec fn spec_next_call(self) -> u64 {
        self.next_call
    }

    /// Well-formedness: identifiers and call handles are unique.
    pub open spec fn wf(self) -> bool {
        &&& distinct_ids(self.spec_commands())
        &&& forall|i: int|
            0 <= i < self.spec_calls().len() ==> (#[trigger] self.spec_calls()[i]).call
                < self.spec_next_call()
        &&& forall|i: int, j: int|
            #![trigger self.spec_calls()[i].call, self.spec_calls()[j].call]
            0 <= i < j < self.spec_calls().len() ==> self.spec_calls()[i].call
                != self.spec_calls()[j].call
    }

    /// Creates an empty registry.
    pub fn new() -> (r: Self)
        ensures
            r.wf(),
            r.spec_commands().len() == 0,
            r.spec_calls().len() == 0,
            r.spec_next_call() == 0,
    {
        CommandRegistry { commands: Vec::new(), calls: Vec::new(), next_call: 0 }
    }

    /// Registers a command handler at startup.  A duplicate identifier is
    /// rejected, never shadowed: the first registration stays.
    pub fn register(&mut self, id: String, kind: OpKind) -> (added: bool)
        requires
            old(self).wf(),
        ensures
            final(self).wf(),
            added == !spec_has_command(old(self).spec_commands(), id@),
            added ==> final(self).spec_commands().len() == old(self).spec_commands().len() + 1
                && final(self).spec_commands().drop_last() == old(self).spec_commands()
                && final(self).spec_commands().last().id@ == id@
                && final(self).spec_commands().last().kind == kind,
            !added ==> final(self).spec_commands() == old(self).spec_commands(),
            final(self).spec_calls() == old(self).spec_calls(),
            final(self).spec_next_call() == old(self).spec_next_call(),
    {
        let mut i: usize = 0;
        while i < self.commands.len()
            invariant
                self == old(self),
                old(self).wf(),
                i <= self.commands.len(),
                forall|k: int| 0 <= k < i ==> (#[trigger] self.commands@[k]).id@ != id@,
            decreases self.commands.len() - i,
        {
            if crate::strutil::str_eq(self.commands[i].id.as_str(), id.as_str()) {
                proof {
                    assert(spec_has_command(self.spec_commands(), id@));
                }
                return false;
            }
            i += 1;
        }
        proof {
            if spec_has_command(self.spec_commands(), id@) {
                let w = choose|k: int|
                    0 <= k < self.commands@.len() && self.commands@[k].id@ == id@;
                assert(self.commands@[w].id@ != id@);
                assert(false);
            }
        }
        let ghost cmds0 = self.commands@;
        self.commands.push(RegisteredCommand { id, kind });
        proof {
            assert(cmds0 == old(self).spec_commands());
            assert(self.spec_calls() == old(self).spec_calls());
            assert(self.spec_next_call() == old(self).spec_next_call());
            assert(self.spec_commands().drop_last() =~= cmds0);
            assert forall|a: int, b: int|
                #![trigger self.commands@[a].id, self.commands@[b].id]
                0 <= a < b < self.commands@.len() implies self.commands@[a].id@
                != self.commands@[b].id@ by {
                assert(self.commands@[a] == cmds0[a]);
                if b < cmds0.len() {
                    assert(self.commands@[b] == cmds0[b]);
                }
            };
        }
        true
    }

    /// Registers a batch of command handlers at startup, in order.
    pub fn register_all(&mut self, entries: Vec<RegisteredCommand>) -> (added: bool)
        requires
            old(self).wf(),
            forall|a: int, b: int|
                #![trigger entries@[a].id, entries@[b].id]
                0 <= a < b < entries@.len() ==> entries@[a].id@ != entries@[b].id@,
            forall|a: int|
                0 <= a < entries@.len() ==> !spec_has_command(
                    old(self).spec_commands(),
                    (#[trigger] entries@[a]).id@,
                ),
        ensures
            final(self).wf(),
            added,
            final(self).spec_calls() == old(self).spec_calls(),
            final(self).spec_next_call() == old(self).spec_next_call(),
            final(self).spec_commands().len() == old(self).spec_commands().len()
                + entries@.len(),
            forall|k: int|
                0 <= k < old(self).spec_commands().len()
                    ==> #[trigger] final(self).spec_commands()[k]
                    == old(self).spec_commands()[k],
            forall|k: int|
                0 <= k < entries@.len()
                    ==> final(self).spec_commands()[old(self).spec_commands().len() + k].id@
                    == (#[trigger] entries@[k]).id@
                    && final(self).spec_commands()[old(self).spec_commands().len() + k].kind
                    == entries@[k].kind,
    {
        let ghost c0 = old(self).spec_commands();
        let n = entries.len();
        let mut i: usize = 0;
        while i < n
            invariant
                n == entries@.len(),
                i <= n,
                self.wf(),
                forall|a: int, b: int|
                    #![trigger entries@[a].id, entries@[b].id]
                    0 <= a < b < entries@.len() ==> entries@[a].id@ != entries@[b].id@,
                forall|a: int|
                    0 <= a < entries@.len() ==> !spec_has_command(
                        c0,
                        (#[trigger] entries@[a]).id@,
                    ),
                self.spec_calls() == old(self).spec_calls(),
                self.spec_next_call() == old(self).spec_next_call(),
                self.spec_commands().len() == c0.len() + i,
                forall|k: int| 0 <= k < c0.len() ==> #[trigger] self.spec_commands()[k] == c0[k],
                forall|k: int|
                    0 <= k < i ==> (#[trigger] self.spec_commands()[c0.len() + k]).id@
                        == entries@[k].id@ && self.spec_commands()[c0.len() + k].kind
                        == entries@[k].kind,
            decreases n - i,
        {
            let ghost cur = self.spec_commands();
            proof {
                if spec_has_command(cur, entries@[i as int].id@) {
                    let w = choose|k: int|
                        0 <= k < cur.len() && cur[k].id@ == entries@[i as int].id@;
                    if w < c0.len() {
                        assert(cur[w] == c0[w]);
                        assert(spec_has_command(c0, entries@[i as int].id@));
                    } else {
                        let k = w - c0.len();
                        assert(0 <= k < i as int);
                        assert(cur[c0.len() + k].id@ == entries@[k].id@);
                        assert(entries@[k].id@ != entries@[i as int].id@);
                    }
                    assert(false);
                }
            }
            let e = &entries[i];
            let added_one = self.register(e.id.clone(), e.kind);
            proof {
                assert(added_one);
                assert forall|k: int|
                    0 <= k < c0.len() implies #[trigger] self.spec_commands()[k] == c0[k] by {
                    assert(self.spec_commands().drop_last()[k] == cur[k]);
                };
                assert forall|k: int|
                    0 <= k < i + 1 implies (#[trigger] self.spec_commands()[c0.len() + k]).id@
                    == entries@[k].id@ && self.spec_commands()[c0.len() + k].kind
                    == entries@[k].kind by {
                    if k < i as int {
                        assert(self.spec_commands().drop_last()[c0.len() + k] == cur[c0.len()
                            + k]);
                    } else {
                        assert(self.spec_commands()[c0.len() + k]
                            == self.spec_commands().last());
                    }
                };
            }
            i += 1;
        }
        true
    }

    /// Looks a command identifier up by exact string match.
    pub fn lookup(&self, id: &str) -> (r: Option<OpKind>)
        requires
            self.wf(),
        ensures
            r == spec_kind_of(self.spec_commands(), id@),
    {
        let mut i: usize = 0;
        while i < self.commands.len()
            invariant
                self.wf(),
                i <= self.commands.len(),
                forall|k: int| 0 <= k < i ==> (#[trigger] self.commands@[k]).id@ != id@,
            decreases self.commands.len() - i,
        {
            if crate::strutil::str_eq(self.commands[i].id.as_str(), id) {
                proof {
                    lemma_find_command_unique(self.spec_commands(), id@, i as int);
                }
                return Some(self.commands[i].kind);
            }
            i += 1;
        }
        proof {
            if spec_has_command(self.spec_commands(), id@) {
                let w = choose|k: int|
                    0 <= k < self.commands@.len() && self.commands@[k].id@ == id@;
                assert(self.commands@[w].id@ != id@);
                assert(false);
            }
        }
        None
    }

    /// Dispatches one frame's drained command messages.  Every message gets
    /// exactly one outcome, in batch order; a dropped message never affects
    /// the others.
    pub fn dispatch(&self, batch: &Vec<CommandMessage>) -> (out: Vec<DispatchItem>)
        requires
            self.wf(),
        ensures
            out@.len() == batch@.len(),
            forall|i: int|
                0 <= i < out@.len() ==> item_matches(
                    #[trigger] out@[i],
                    spec_dispatch_one(self.spec_commands(), batch@[i]),
                ),
    {
        let mut out: Vec<DispatchItem> = Vec::new();
        let mut i: usize = 0;
        while i < batch.len()
            invariant
                self.wf(),
                i <= batch.len(),
                out@.len() == i,
                forall|k: int|
                    0 <= k < i ==> item_matches(
                        #[trigger] out@[k],
                        spec_dispatch_one(self.spec_commands(), batch@[k]),
                    ),
            decreases batch.len() - i,
        {
            let m = &batch[i];
            let item = self.dispatch_one(m);
            out.push(item);
            i += 1;
        }
        out
    }

    /// Dispatches one command message.
    fn dispatch_one(&self, m: &CommandMessage) -> (item: DispatchItem)
        requires
            self.wf(),
        ensures
            item_matches(item, spec_dispatch_one(self.spec_commands(), *m)),
    {
        match parse_command_envelope(m.payload.as_str()) {
            None => DispatchItem::Malformed { session: m.session },
            Some(env) => {
                match self.lookup(env.command_id.as_str()) {
                    None => DispatchItem::Unknown {
                        session: m.session,
                        command_id: env.command_id,
                    },
                    Some(kind) => {
                        match decode_op(kind, &env.args) {
                            Some(op) => DispatchItem::Invoke {
                                session: m.session,
                                correlation: env.correlation,
                                op,
                            },
                            None => DispatchItem::Malformed { session: m.session },
                        }
                    },
                }
            },
        }
    }

    /// Opens an in-flight call for a dispatched invocation.  The host
    /// performs the operation — across as many frames as it needs — and
    /// reports back under the returned handle.
    pub fn begin_call(&mut self, session: u64, correlation: String) -> (call: u64)
        requires
            old(self).wf(),
            old(self).spec_next_call() < u64::MAX,
        ensures
            final(self).wf(),
            call == old(self).spec_next_call(),
            final(self).spec_commands() == old(self).spec_commands(),
            final(self).spec_next_call() == old(self).spec_next_call() + 1,
            final(self).spec_calls().len() == old(self).spec_calls().len() + 1,
            final(self).spec_calls().drop_last() == old(self).spec_calls(),
            final(self).spec_calls().last().call == call,
            final(self).spec_calls().last().session == session,
            final(self).spec_calls().last().correlation@ == correlation@,
    {
        let call = self.next_call;
        let ghost calls0 = self.calls@;
        self.calls.push(PendingCall { call, session, correlation });
        self.next_call = call + 1;
        proof {
            assert(calls0 == old(self).spec_calls());
            assert(self.spec_commands() == old(self).spec_commands());
            assert(self.spec_next_call() == old(self).spec_next_call() + 1);
            assert(self.spec_calls().drop_last() =~= calls0);
            assert forall|a: int| 0 <= a < self.calls@.len() implies (#[trigger] self.calls@[a]).call
                < self.spec_next_call() by {
                if a < calls0.len() {
                    assert(self.calls@[a] == calls0[a]);
                }
            };
            assert forall|a: int, b: int|
                #![trigger self.calls@[a].call, self.calls@[b].call]
                0 <= a < b < self.calls@.len() implies self.calls@[a].call
                != self.calls@[b].call by {
                assert(self.calls@[a] == calls0[a]);
                if b < calls0.len() {
                    assert(self.calls@[b] == calls0[b]);
                }
            };
        }
        call
    }

    /// Takes the in-flight call a finished handler belongs to and composes
    /// the script that resolves the caller-side promise with the serialized
    /// result.  An unknown handle yields `None`; so does a call whose
    /// originating session has been torn down — the result is then
    /// discarded, silently.
    pub fn complete_call(&mut self, call: u64, output: &OpOutput, sessions: &Sessions) -> (r:
        Option<ScriptCall>)
        requires
            old(self).wf(),
            sessions.wf(),
        ensures
            final(self).wf(),
            final(self).spec_commands() == old(self).spec_commands(),
            final(self).spec_next_call() == old(self).spec_next_call(),
            r.is_some() == (spec_has_call(old(self).spec_calls(), call) && spec_has_session(
                sessions.spec_sessions(),
                old(self).spec_calls()[spec_find_call(old(self).spec_calls(), call)].session,
            )),
            spec_has_call(old(self).spec_calls(), call) ==> final(self).spec_calls() == old(
                self,
            ).spec_calls().remove(spec_find_call(old(self).spec_calls(), call)),
            !spec_has_call(old(self).spec_calls(), call) ==> final(self).spec_calls() == old(
                self,
            ).spec_calls(),
            r matches Some(sc) ==> ({
                let e = old(self).spec_calls()[spec_find_call(old(self).spec_calls(), call)];
                &&& sc.session == e.session
                &&& sc.script@ == spec_resolve_script(
                    e.correlation@,
                    spec_encode_output(*output),
                )
            }),
    {
        let mut i: usize = 0;
        while i < self.calls.len()
            invariant
                self == old(self),
                old(self).wf(),
                sessions.wf(),
                i <= self.calls.len(),
                forall|k: int| 0 <= k < i ==> (#[trigger] self.calls@[k]).call != call,
            decreases self.calls.len() - i,
        {
            if self.calls[i].call == call {
                proof {
                    lemma_find_call_unique(self.spec_calls(), call, i as int);
                }
                let ghost calls0 = self.calls@;
                let entry = self.calls.remove(i);
                proof {
                    assert(self.spec_calls() == calls0.remove(i as int));
                    calls0.remove_ensures(i as int);
                    assert(self.spec_commands() == old(self).spec_commands());
                    assert(self.spec_next_call() == old(self).spec_next_call());
                    assert forall|a: int| 0 <= a < self.calls@.len() implies (#[trigger] self
                        .calls@[a]).call < self.spec_next_call() by {
                        if a < i as int {
                            assert(self.calls@[a] == calls0[a]);
                        } else {
                            assert(self.calls@[a] == calls0[a + 1]);
                        }
                    };
                    assert forall|a: int, b: int|
                        #![trigger self.calls@[a].call, self.calls@[b].call]
                        0 <= a < b < self.calls@.len() implies self.calls@[a].call
                        != self.calls@[b].call by {
                        if a < i as int {
                            assert(self.calls@[a] == calls0[a]);
                        } else {
                            assert(self.calls@[a] == calls0[a + 1]);
                        }
                        if b < i as int {
                            assert(self.calls@[b] == calls0[b]);
                        } else {
                            assert(self.calls@[b] == calls0[b + 1]);
                        }
                    };
                }
                if sessions.contains(entry.session) {
                    let payload = crate::ops::encode_output(output);
                    let script = build_resolve_script(
                        entry.correlation.as_str(),
                        payload.as_str(),
                    );
                    return Some(ScriptCall { session: entry.session, script });
                } else {
                    return None;
                }
            }
            i += 1;
        }
        proof {
            if spec_has_call(self.spec_calls(), call) {
                let w = choose|k: int|
                    0 <= k < self.calls@.len() && self.calls@[k].call == call;
                assert(self.calls@[w].call != call);
                assert(false);
            }
        }
        None
    }
}

/// Whether a call list holds a call handle.
pub open spec fn spec_has_call(calls: Seq<PendingCall>, call: u64) -> bool {
    exists|i: int| 0 <= i < calls.len() && calls[i].call == call
}

/// The index of an in-flight call, or `-1`.
pub open spec fn spec_find_call(calls: Seq<PendingCall>, call: u64) -> int {
    if spec_has_call(calls, call) {
        choose|i: int| 0 <= i < calls.len() && calls[i].call == call
    } else {
        -1
    }
}

proof fn lemma_find_call_unique(calls: Seq<PendingCall>, call: u64, i: int)
    requires
        forall|a: int, b: int|
            #![trigger calls[a].call, calls[b].call]
            0 <= a < b < calls.len() ==> calls[a].call != calls[b].call,
        0 <= i < calls.len(),
        calls[i].call == call,
    ensures
        spec_find_call(calls, call) == i,
{
    assert(spec_has_call(calls, call));
    let w = choose|k: int| 0 <= k < calls.len() && calls[k].call == call;
    if w != i {
        assert(calls[w].call == calls[i].call);
        assert(false);
    }
}

proof fn lemma_find_command_unique(cmds: Seq<RegisteredCommand>, id: Seq<char>, i: int)
    requires
        distinct_ids(cmds),
        0 <= i < cmds.len(),
        cmds[i].id@ == id,
    ensures
        spec_find_command(cmds, id) == i,
{
    assert(spec_has_command(cmds, id));
    let w = choose|k: int| 0 <= k < cmds.len() && cmds[k].id@ == id;
    if w != i {
        assert(cmds[w].id@ == cmds[i].id@);
        assert(false);
    }
}

/// The script that resolves the caller-side promise named by a correlation
/// token with a serialized result.
pub open spec fn spec_resolve_script(correlation: Seq<char>, payload: Seq<char>) -> Seq<char> {
    "window.__FLURX__.__resolveIpc('"@ + correlation + "', "@ + payload + ");"@
}

/// Builds the promise-resolving script for a finished call.
pub fn build_resolve_script(correlation: &str, payload: &str) -> (s: String)
    ensures
        s@ == spec_resolve_script(correlation@, payload@),
{
    let mut s: String = "window.__FLURX__.__resolveIpc('".to_owned();
    s.append(correlation);
    s.append("', ");
    s.append(payload);
    s.append(");");
    proof {
        assert(s@ =~= spec_resolve_script(correlation@, payload@));
    }
    s
}

} // verus!
