//! The typed event-trigger bus.
//!
//! Event identifiers are registered once at startup.  Each frame, the bus
//! scans the drained event messages once per registered delivery path: a
//! buffered, queryable event stream that downstream logic polls across
//! frames, and a point-addressed push scoped to the target session (or
//! global when the target is none).  The two paths must not share one
//! decoded value — that would force every payload type to support
//! duplication — so the same raw JSON text is parsed twice, once per path, a
//! deliberate CPU-for-simplicity trade.  A payload that fails to parse is
//! dropped for that path, per message, without affecting other messages;
//! both parses read identical input and agree.

use vstd::prelude::*;
use vstd::string::*;

use crate::envelope::EventMessage;
use crate::json::{json_data, json_of_text, json_parse, JsonData};
use crate::strutil::str_eq;

verus! {

/// One delivery on the buffered stream path.
pub struct StreamEvent {
    /// The registered identifier the message matched.
    pub event_id: String,
    /// The decoded payload.
    pub value: serde_json::Value,
}

/// One delivery on the point-addressed path.
pub struct PointDelivery {
    /// The session scope: `None` is global.
    pub target: Option<u64>,
    /// The registered identifier the message matched.
    pub event_id: String,
    /// The decoded payload, parsed independently of the stream path's copy.
    pub value: serde_json::Value,
}

/// Everything one frame's drain delivers.
pub struct TickDeliveries {
    /// The buffered stream path's deliveries, in batch order.
    pub stream: Vec<StreamEvent>,
    /// The point-addressed path's deliveries, in batch order.
    pub point: Vec<PointDelivery>,
}

/// The model of a stream delivery.
pub ghost struct StreamData {
    pub event_id: Seq<char>,
    pub value: JsonData,
}

/// The model of a point-addressed delivery.
pub ghost struct PointData {
    pub target: Option<u64>,
    pub event_id: Seq<char>,
    pub value: JsonData,
}

/// Whether an identifier is registered.
pub open spec fn spec_registered(ids: Seq<Seq<char>>, id: Seq<char>) -> bool {
    exists|i: int| 0 <= i < ids.len() && ids[i] == id
}

/// Whether one event message is delivered: its identifier is registered and
/// its payload parses as JSON.
pub open spec fn spec_delivers(ids: Seq<Seq<char>>, m: EventMessage) -> bool {
    spec_registered(ids, m.event_id@) && json_of_text(m.payload@).is_some()
}

/// The stream path's deliveries for a batch, in order.
pub open spec fn spec_stream_of(ids: Seq<Seq<char>>, batch: Seq<EventMessage>) -> Seq<StreamData>
    decreases batch.len(),
{
    if batch.len() == 0 {
        Seq::empty()
    } else {
        let rest = spec_stream_of(ids, batch.drop_last());
        let m = batch.last();
        if spec_delivers(ids, m) {
            rest.push(
                StreamData { event_id: m.event_id@, value: json_of_text(m.payload@).unwrap() },
            )
        } else {
            rest
        }
    }
}

/// The point path's deliveries for a batch, in order.
pub open spec fn spec_point_of(ids: Seq<Seq<char>>, batch: Seq<EventMessage>) -> Seq<PointData>
    decreases batch.len(),
{
    if batch.len() == 0 {
        Seq::empty()
    } else {
        let rest = spec_point_of(ids, batch.drop_last());
        let m = batch.last();
        if spec_delivers(ids, m) {
            rest.push(
                PointData {
                    target: m.target,
                    event_id: m.event_id@,
                    value: json_of_text(m.payload@).unwrap(),
                },
            )
        } else {
            rest
        }
    }
}

/// Whether the stream deliveries agree with their model.
pub open spec fn stream_matches(s: Seq<StreamEvent>, m: Seq<StreamData>) -> bool {
    &&& s.len() == m.len()
    &&& forall|k: int|
        0 <= k < s.len() ==> (#[trigger] s[k]).event_id@ == m[k].event_id && json_data(s[k].value)
            == m[k].value
}

/// Whether the point deliveries agree with their model.
pub open spec fn point_matches(s: Seq<PointDelivery>, m: Seq<PointData>) -> bool {
    &&& s.len() == m.len()
    &&& forall|k: int|
        0 <= k < s.len() ==> (#[trigger] s[k]).target == m[k].target && s[k].event_id@
            == m[k].event_id && json_data(s[k].value) == m[k].value
}

/// The two delivery paths agree: although each parses the raw text on its
/// own, the same messages are delivered in the same order with the same
/// decoded body on both paths; the point path only adds the target scope.
pub proof fn lemma_paths_agree(ids: Seq<Seq<char>>, batch: Seq<EventMessage>)
    ensures
        spec_stream_of(ids, batch).len() == spec_point_of(ids, batch).len(),
        forall|k: int|
            0 <= k < spec_stream_of(ids, batch).len()
                ==> (#[trigger] spec_stream_of(ids, batch)[k]).event_id == spec_point_of(
                ids,
                batch,
            )[k].event_id && spec_stream_of(ids, batch)[k].value == spec_point_of(
                ids,
                batch,
            )[k].value,
    decreases batch.len(),
{
    if batch.len() > 0 {
        lemma_paths_agree(ids, batch.drop_last());
        let s = spec_stream_of(ids, batch);
        let p = spec_point_of(ids, batch);
        let sd = spec_stream_of(ids, batch.drop_last());
        let pd = spec_point_of(ids, batch.drop_last());
        assert forall|k: int| 0 <= k < s.len() implies (#[trigger] s[k]).event_id == p[k].event_id
            && s[k].value == p[k].value by {
            if spec_delivers(ids, batch.last()) {
                if k < sd.len() {
                    assert(s[k] == sd[k]);
                    assert(p[k] == pd[k]);
                } else {
                    assert(s[k] == s.last());
                    assert(p[k] == p.last());
                }
            } else {
                assert(s[k] == sd[k]);
                assert(p[k] == pd[k]);
            }
        };
    }
}

/// The typed event-trigger bus: the event identifiers registered at startup.
pub struct EventRegistry {
    ids: Vec<String>,
}

impl View for EventRegistry {
    type V = Seq<Seq<char>>;

    closed spec fn view(&self) -> Seq<Seq<char>> {
        self.ids.deep_view()
    }
}

impl EventRegistry {
    /// Creates an empty bus.
    pub fn new() -> (r: Self)
        ensures
            r@ == Seq::<Seq<char>>::empty(),
    {
        let r = EventRegistry { ids: Vec::new() };
        proof {
            assert(r@ =~= Seq::<Seq<char>>::empty());
        }
        r
    }

    /// Registers an event identifier, installing both delivery paths for it.
    /// A duplicate identifier is rejected.
    pub fn register(&mut self, event_id: String) -> (added: bool)
        ensures
            added == !spec_registered(old(self)@, event_id@),
            added ==> final(self)@ == old(self)@.push(event_id@),
            !added ==> final(self)@ == old(self)@,
    {
        let mut i: usize = 0;
        while i < self.ids.len()
            invariant
                self == old(self),
                i <= self.ids.len(),
                self@.len() == self.ids@.len(),
                forall|k: int| 0 <= k < self@.len() ==> self@[k] == self.ids@[k]@,
                forall|k: int| 0 <= k < i ==> #[trigger] self@[k] != event_id@,
            decreases self.ids.len() - i,
        {
            if str_eq(self.ids[i].as_str(), event_id.as_str()) {
                proof {
                    assert(self@[i as int] == event_id@);
                    assert(spec_registered(self@, event_id@));
                }
                return false;
            }
            i += 1;
        }
        proof {
            if spec_registered(self@, event_id@) {
                let w = choose|k: int| 0 <= k < self@.len() && self@[k] == event_id@;
                assert(self@[w] != event_id@);
                assert(false);
            }
        }
        self.ids.push(event_id);
        proof {
            assert(final(self)@ =~= old(self)@.push(event_id@));
        }
        true
    }

    /// Whether an identifier is registered.
    pub fn is_registered(&self, id: &str) -> (r: bool)
        ensures
            r == spec_registered(self@, id@),
    {
        let mut i: usize = 0;
        while i < self.ids.len()
            invariant
                i <= self.ids.len(),
                self@.len() == self.ids@.len(),
                forall|k: int| 0 <= k < self@.len() ==> self@[k] == self.ids@[k]@,
                forall|k: int| 0 <= k < i ==> #[trigger] self@[k] != id@,
            decreases self.ids.len() - i,
        {
            if str_eq(self.ids[i].as_str(), id) {
                proof {
                    assert(self@[i as int] == id@);
                    assert(spec_registered(self@, id@));
                }
                return true;
            }
            i += 1;
        }
        proof {
            if spec_registered(self@, id@) {
                let w = choose|k: int| 0 <= k < self@.len() && self@[k] == id@;
                assert(self@[w] != id@);
                assert(false);
            }
        }
        false
    }

    /// Scans one frame's drained event messages and produces both paths'
    /// deliveries, in batch order.  A message whose identifier is not
    /// registered is dropped; a payload that fails to parse is dropped for
    /// that path; neither affects any other message.
    pub fn drain(&self, batch: &Vec<EventMessage>) -> (out: TickDeliveries)
        ensures
            stream_matches(out.stream@, spec_stream_of(self@, batch@)),
            point_matches(out.point@, spec_point_of(self@, batch@)),
    {
        let mut stream: Vec<StreamEvent> = Vec::new();
        let mut point: Vec<PointDelivery> = Vec::new();
        let mut i: usize = 0;
        while i < batch.len()
            invariant
                i <= batch.len(),
                stream_matches(stream@, spec_stream_of(self@, batch@.subrange(0, i as int))),
                point_matches(point@, spec_point_of(self@, batch@.subrange(0, i as int))),
            decreases batch.len() - i,
        {
            proof {
                let pre = batch@.subrange(0, i as int);
                let cur = batch@.subrange(0, i + 1);
                assert(cur.drop_last() =~= pre);
                assert(cur.last() == batch@[i as int]);
            }
            let m = &batch[i];
            if self.is_registered(m.event_id.as_str()) {
                match json_parse(m.payload.as_str()) {
                    Some(v1) => {
                        stream.push(StreamEvent { event_id: m.event_id.clone(), value: v1 });
                    },
                    None => {},
                }
                match json_parse(m.payload.as_str()) {
                    Some(v2) => {
                        point.push(
                            PointDelivery {
                                target: m.target,
                                event_id: m.event_id.clone(),
                                value: v2,
                            },
                        );
                    },
                    None => {},
                }
            }
            i += 1;
        }
        proof {
            assert(batch@.subrange(0, batch@.len() as int) =~= batch@);
        }
        TickDeliveries { stream, point }
    }
}

} // verus!
