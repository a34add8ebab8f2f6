//! The asynchronous local-resource resolver.
//!
//! The webview engine answers virtual-protocol requests through the host: a
//! callback hands over a requested path and a single-use responder, the host
//! loads the path's bytes asynchronously, and when the load completes the
//! original responder is resolved with a composed response.  The resolver
//! keeps the pending-request side table and a reverse index used for
//! hot-reload, and decides what response each completed load produces.
//!
//! Responder objects live with the embedding host; the resolver tracks them by
//! an opaque handle.  Each request is tracked independently under a fresh load
//! handle, so two requests never resolve each other's responder, and each
//! pending record is removed exactly once, when its own load completes.

use vstd::prelude::*;
use vstd::string::*;
use vstd::utf8::encode_utf8;

use crate::mime::{get_mime_type, spec_mime_for_path};
use crate::strutil::clone_opt_string;

verus! {

/// A composed virtual-protocol response.
pub struct HttpResponse {
    /// 200 when the path's type is known, 500 otherwise.
    pub status: u16,
    /// The value for the `Content-Type` header.
    pub content_type: String,
    /// The value for the `Content-Security-Policy` header, when configured.
    pub csp: Option<String>,
    /// The response body.
    pub body: Vec<u8>,
}

/// One entry of the pending-request side table.
pub struct PendingRequest {
    /// The session the request came from.
    pub session: u64,
    /// The resolved filesystem path under the configured root.
    pub path: String,
    /// The security policy captured when the request arrived.
    pub csp: Option<String>,
    /// The content-load handle this request waits on.
    pub load: u64,
    /// The host's handle for the single-use responder.
    pub responder: u64,
}

/// What the host must start loading for a new request.
pub struct LoadDirective {
    /// The fresh content-load handle.
    pub load: u64,
    /// The filesystem path to load.
    pub path: String,
}

/// A resolved request: the host must invoke this responder, exactly once,
/// with this response.
pub struct Resolution {
    /// The responder handle given when the request arrived.
    pub responder: u64,
    /// The composed response.
    pub response: HttpResponse,
}

/// The body of the error response for a path with no MIME mapping.
pub open spec fn spec_unknown_type_body(path: Seq<char>) -> Seq<char> {
    "not implemented content type \""@ + path + "\""@
}

/// What a composed response must look like for a path, a captured policy and
/// the loaded content: status 200 with the path's MIME type, the policy and
/// the content when the extension is mapped; otherwise status 500 with a
/// plain-text body naming the path.
pub open spec fn spec_response_for(
    r: HttpResponse,
    path: Seq<char>,
    csp: Option<String>,
    content: Seq<u8>,
) -> bool {
    match spec_mime_for_path(path) {
        Some(m) => {
            &&& r.status == 200
            &&& r.content_type@ == m
            &&& r.csp == csp
            &&& r.body@ == content
        },
        None => {
            &&& r.status == 500
            &&& r.content_type@ == "text/plain"@
            &&& r.csp is None
            &&& r.body@ == encode_utf8(spec_unknown_type_body(path))
        },
    }
}

/// Composes the response for a completed load.
pub fn compose_response(path: &str, csp: &Option<String>, content: Vec<u8>) -> (r: HttpResponse)
    ensures
        spec_response_for(r, path@, *csp, content@),
{
    match get_mime_type(path) {
        Some(mime) => {
            let policy = clone_opt_string(csp);
            HttpResponse { status: 200, content_type: mime, csp: policy, body: content }
        },
        None => {
            let mut msg: String = "not implemented content type \"".to_owned();
            msg.append(path);
            msg.append("\"");
            proof {
                assert(msg@ =~= spec_unknown_type_body(path@));
            }
            let body = msg.as_str().as_bytes_vec();
            HttpResponse {
                status: 500,
                content_type: "text/plain".to_owned(),
                csp: None,
                body,
            }
        },
    }
}

/// The filesystem path a requested URI path resolves to: `/` (or an empty
/// path) maps to the default document, any other path is taken relative to
/// the configured root, dropping one leading slash.
pub open spec fn spec_resolve_path(root: Seq<char>, uri_path: Seq<char>) -> Seq<char> {
    let rel = if uri_path == "/"@ || uri_path.len() == 0 {
        "index.html"@
    } else if uri_path[0] == '/' {
        uri_path.skip(1)
    } else {
        uri_path
    };
    root + "/"@ + rel
}

/// Whether some pending entry waits on a load.
pub open spec fn spec_has_load(pending: Seq<PendingRequest>, load: u64) -> bool {
    exists|i: int| 0 <= i < pending.len() && pending[i].load == load
}

/// The index of the pending entry waiting on a load, or `-1`.
pub open spec fn spec_find_load(pending: Seq<PendingRequest>, load: u64) -> int {
    if spec_has_load(pending, load) {
        choose|i: int| 0 <= i < pending.len() && pending[i].load == load
    } else {
        -1
    }
}

/// Pairwise distinctness of the load handles of a pending table.
pub open spec fn distinct_loads(pending: Seq<PendingRequest>) -> bool {
    forall|i: int, j: int|
        #![trigger pending[i].load, pending[j].load]
        0 <= i < j < pending.len() ==> pending[i].load != pending[j].load
}

/// The predicate that keeps the pending entries of other sessions.
pub open spec fn keeps_pending(session: u64) -> spec_fn(PendingRequest) -> bool {
    |e: PendingRequest| e.session != session
}

/// The predicate that keeps the watch entries of other sessions.
pub open spec fn keeps_watch(session: u64) -> spec_fn((u64, u64)) -> bool {
    |w: (u64, u64)| w.1 != session
}

/// In a table with distinct loads, an entry waiting on a load is the one
/// `spec_find_load` names.
proof fn lemma_find_load_unique(pending: Seq<PendingRequest>, load: u64, i: int)
    requires
        distinct_loads(pending),
        0 <= i < pending.len(),
        pending[i].load == load,
    ensures
        spec_find_load(pending, load) == i,
{
    assert(spec_has_load(pending, load));
    let w = choose|k: int| 0 <= k < pending.len() && pending[k].load == load;
    if w != i {
        assert(pending[w].load == pending[i].load);
        assert(false);
    }
}

/// The asynchronous local-resource resolver's state: configuration, the
/// pending-request side table and the hot-reload reverse index.
pub struct ResourceResolver {
    root: String,
    csp: Option<String>,
    pending: Vec<PendingRequest>,
    watch: Vec<(u64, u64)>,
    next_load: u64,
}

impl ResourceResolver {
    /// The configured local root.
    pub closed spec fn spec_root(self) -> Seq<char> {
        self.root@
    }

    /// The configured security policy.
    pub closed spec fn spec_csp(self) -> Option<String> {
        self.csp
    }

    /// The pending-request side table, in arrival order.
    pub closed spec fn spec_pending(self) -> Seq<PendingRequest> {
        self.pending@
    }

    /// The reverse index from content loads to owning sessions.
    pub closed spec fn spec_watch(self) -> Seq<(u64, u64)> {
        self.watch@
    }

    /// The next fresh load handle.
    pub closed spec fn spec_next_load(self) -> u64 {
        self.next_load
    }

    /// Well-formedness: load handles are fresh, so no two pending entries and
    /// no two watch entries share one.
    pub open spec fn wf(self) -> bool {
        &&& forall|i: int|
            0 <= i < self.spec_pending().len() ==> (#[trigger] self.spec_pending()[i]).load
                < self.spec_next_load()
        &&& distinct_loads(self.spec_pending())
        &&& forall|i: int|
            0 <= i < self.spec_watch().len() ==> (#[trigger] self.spec_watch()[i]).0
                < self.spec_next_load()
        &&& forall|i: int, j: int|
            #![trigger self.spec_watch()[i], self.spec_watch()[j]]
            0 <= i < j < self.spec_watch().len() ==> self.spec_watch()[i].0
                != self.spec_watch()[j].0
    }

    /// Creates a resolver for a local root and an optional security policy.
    pub fn new(root: String, csp: Option<String>) -> (r: Self)
        ensures
            r.wf(),
            r.spec_root() == root@,
            r.spec_csp() == csp,
            r.spec_pending().len() == 0,
            r.spec_watch().len() == 0,
            r.spec_next_load() == 0,
    {
        ResourceResolver { root, csp, pending: Vec::new(), watch: Vec::new(), next_load: 0 }
    }

    /// Registers a virtual-protocol request: computes the filesystem path,
    /// stores a pending entry under a fresh load handle, records the
    /// hot-reload association, and directs the host to start the load.
    ///
    /// Requests are never coalesced: a second request for the same path gets
    /// its own load and its own pending entry.
    pub fn request(&mut self, session: u64, uri_path: &str, responder: u64) -> (d: LoadDirective)
        requires
            old(self).wf(),
            old(self).spec_next_load() < u64::MAX,
        ensures
            final(self).wf(),
            d.load == old(self).spec_next_load(),
            d.path@ == spec_resolve_path(old(self).spec_root(), uri_path@),
            final(self).spec_root() == old(self).spec_root(),
            final(self).spec_csp() == old(self).spec_csp(),
            final(self).spec_next_load() == old(self).spec_next_load() + 1,
            final(self).spec_pending().len() == old(self).spec_pending().len() + 1,
            final(self).spec_pending().drop_last() == old(self).spec_pending(),
            ({
                let e = final(self).spec_pending().last();
                &&& e.session == session
                &&& e.path@ == spec_resolve_path(old(self).spec_root(), uri_path@)
                &&& e.csp == old(self).spec_csp()
                &&& e.load == d.load
                &&& e.responder == responder
            }),
            final(self).spec_watch() == old(self).spec_watch().push((d.load, session)),
    {
        let path = self.resolve_path(uri_path);
        let load = self.next_load;
        let csp = clone_opt_string(&self.csp);
        let entry_path = path.clone();
        self.pending.push(
            PendingRequest { session, path: entry_path, csp, load, responder },
        );
        self.watch.push((load, session));
        self.next_load = load + 1;
        proof {
            let p0 = old(self).spec_pending();
            let p1 = self.spec_pending();
            assert(p1.drop_last() =~= p0);
            assert forall|i: int| 0 <= i < p1.len() implies (#[trigger] p1[i]).load
                < self.spec_next_load() by {
                if i < p0.len() {
                    assert(p1[i] == p0[i]);
                }
            };
            assert forall|i: int, j: int|
                #![trigger p1[i].load, p1[j].load]
                0 <= i < j < p1.len() implies p1[i].load != p1[j].load by {
                assert(p1[i] == p0[i]);
                if j < p0.len() {
                    assert(p1[j] == p0[j]);
                }
            };
            let w0 = old(self).spec_watch();
            let w1 = self.spec_watch();
            assert forall|i: int| 0 <= i < w1.len() implies (#[trigger] w1[i]).0
                < self.spec_next_load() by {
                if i < w0.len() {
                    assert(w1[i] == w0[i]);
                }
            };
            assert forall|i: int, j: int|
                #![trigger w1[i], w1[j]]
                0 <= i < j < w1.len() implies w1[i].0 != w1[j].0 by {
                assert(w1[i] == w0[i]);
                if j < w0.len() {
                    assert(w1[j] == w0[j]);
                }
            };
        }
        LoadDirective { load, path }
    }

    /// Resolves the requested URI path against the configured root.
    fn resolve_path(&self, uri_path: &str) -> (p: String)
        ensures
            p@ == spec_resolve_path(self.spec_root(), uri_path@),
    {
        let n = uri_path.unicode_len();
        let mut p = self.root.clone();
        p.append("/");
        if n == 0 {
            p.append("index.html");
            proof {
                assert(p@ =~= spec_resolve_path(self.spec_root(), uri_path@));
            }
            return p;
        }
        let is_slash = uri_path.get_char(0) == '/';
        if is_slash && n == 1 {
            proof {
                reveal_strlit("/");
                assert(uri_path@ =~= "/"@);
            }
            p.append("index.html");
            proof {
                assert(p@ =~= spec_resolve_path(self.spec_root(), uri_path@));
            }
            p
        } else if is_slash {
            proof {
                reveal_strlit("/");
                assert(uri_path@ != "/"@);
            }
            let rel = uri_path.substring_char(1, n);
            p.append(rel);
            proof {
                assert(uri_path@.subrange(1, n as int) =~= uri_path@.skip(1));
                assert(p@ =~= spec_resolve_path(self.spec_root(), uri_path@));
            }
            p
        } else {
            proof {
                reveal_strlit("/");
                assert(uri_path@ != "/"@);
            }
            p.append(uri_path);
            proof {
                assert(p@ =~= spec_resolve_path(self.spec_root(), uri_path@));
            }
            p
        }
    }

    /// Takes the pending entry waiting on a completed load, if any, and
    /// composes the response its responder must be invoked with, exactly
    /// once.  A completion nobody waits on yields `None` and changes nothing;
    /// every other pending entry is kept untouched either way.
    pub fn on_content_loaded(&mut self, load: u64, content: Vec<u8>) -> (r: Option<Resolution>)
        requires
            old(self).wf(),
        ensures
            final(self).wf(),
            final(self).spec_root() == old(self).spec_root(),
            final(self).spec_csp() == old(self).spec_csp(),
            final(self).spec_next_load() == old(self).spec_next_load(),
            final(self).spec_watch() == old(self).spec_watch(),
            r.is_some() == spec_has_load(old(self).spec_pending(), load),
            r.is_none() ==> final(self).spec_pending() == old(self).spec_pending(),
            r.is_some() ==> ({
                let i = spec_find_load(old(self).spec_pending(), load);
                let e = old(self).spec_pending()[i];
                &&& final(self).spec_pending() == old(self).spec_pending().remove(i)
                &&& r.unwrap().responder == e.responder
                &&& spec_response_for(r.unwrap().response, e.path@, e.csp, content@)
            }),
    {
        let mut i: usize = 0;
        while i < self.pending.len()
            invariant
                self == old(self),
                old(self).wf(),
                i <= self.pending.len(),
                forall|k: int|
                    0 <= k < i ==> (#[trigger] self.pending@[k]).load != load,
            decreases self.pending.len() - i,
        {
            if self.pending[i].load == load {
                proof {
                    lemma_find_load_unique(self.spec_pending(), load, i as int);
                }
                let ghost pending0 = self.pending@;
                let entry = self.pending.remove(i);
                let response = compose_response(entry.path.as_str(), &entry.csp, content);
                proof {
                    assert(self.spec_watch() == old(self).spec_watch());
                    assert(self.spec_next_load() == old(self).spec_next_load());
                    let p1 = self.spec_pending();
                    assert(p1 == pending0.remove(i as int));
                    pending0.remove_ensures(i as int);
                    assert forall|a: int| 0 <= a < p1.len() implies (#[trigger] p1[a]).load
                        < self.spec_next_load() by {
                        if a < i as int {
                            assert(p1[a] == pending0[a]);
                        } else {
                            assert(p1[a] == pending0[a + 1]);
                        }
                    };
                    assert forall|a: int, b: int|
                        #![trigger p1[a].load, p1[b].load]
                        0 <= a < b < p1.len() implies p1[a].load != p1[b].load by {
                        if a < i as int {
                            assert(p1[a] == pending0[a]);
                        } else {
                            assert(p1[a] == pending0[a + 1]);
                        }
                        if b < i as int {
                            assert(p1[b] == pending0[b]);
                        } else {
                            assert(p1[b] == pending0[b + 1]);
                        }
                    };
                }
                return Some(Resolution { responder: entry.responder, response });
            }
            i += 1;
        }
        proof {
            if spec_has_load(self.spec_pending(), load) {
                let w = choose|k: int|
                    0 <= k < self.pending@.len() && self.pending@[k].load == load;
                assert(self.pending@[w].load != load);
                assert(false);
            }
        }
        None
    }

    /// The session whose content a modified load belongs to, for hot reload.
    /// The association outlives the pending request: a load can fire many
    /// reloads after its request was resolved.
    pub fn on_content_modified(&self, load: u64) -> (r: Option<u64>)
        ensures
            r.is_some() == (exists|i: int|
                0 <= i < self.spec_watch().len() && (#[trigger] self.spec_watch()[i]).0 == load),
            r.is_some() ==> (exists|i: int|
                0 <= i < self.spec_watch().len() && (#[trigger] self.spec_watch()[i]).0 == load
                    && self.spec_watch()[i].1 == r.unwrap()),
    {
        let mut i: usize = 0;
        while i < self.watch.len()
            invariant
                i <= self.watch.len(),
                forall|k: int| 0 <= k < i ==> (#[trigger] self.watch@[k]).0 != load,
            decreases self.watch.len() - i,
        {
            if self.watch[i].0 == load {
                proof {
                    assert((self.spec_watch()[i as int]).0 == load);
                }
                return Some(self.watch[i].1);
            }
            i += 1;
        }
        proof {
            if exists|k: int|
                0 <= k < self.spec_watch().len() && (#[trigger] self.spec_watch()[k]).0 == load {
                let w = choose|k: int|
                    0 <= k < self.spec_watch().len() && (#[trigger] self.spec_watch()[k]).0
                        == load;
                assert(self.watch@[w].0 != load);
                assert(false);
            }
        }
        None
    }

    /// Tears a session down: its pending requests and hot-reload
    /// associations are dropped, so an orphaned responder is never resolved
    /// later.
    pub fn remove_session(&mut self, session: u64)
        requires
            old(self).wf(),
        ensures
            final(self).wf(),
            final(self).spec_root() == old(self).spec_root(),
            final(self).spec_csp() == old(self).spec_csp(),
            final(self).spec_next_load() == old(self).spec_next_load(),
            final(self).spec_pending() == old(self).spec_pending().filter(
                keeps_pending(session),
            ),
            final(self).spec_watch() == old(self).spec_watch().filter(keeps_watch(session)),
    {
        let ghost pending0 = self.pending@;
        let ghost watch0 = self.watch@;
        let mut kept: Vec<PendingRequest> = Vec::new();
        let mut i: usize = 0;
        while i < self.pending.len()
            invariant
                self == old(self),
                self.pending@ == pending0,
                i <= self.pending.len(),
                kept@ == pending0.subrange(0, i as int).filter(keeps_pending(session)),
            decreases self.pending.len() - i,
        {
            proof {
                lemma_filter_one_more(pending0, i as int, keeps_pending(session));
            }
            let e = &self.pending[i];
            if e.session != session {
                let copy = PendingRequest {
                    session: e.session,
                    path: e.path.clone(),
                    csp: clone_opt_string(&e.csp),
                    load: e.load,
                    responder: e.responder,
                };
                proof {
                    assert(copy == pending0[i as int]);
                    assert(kept@.push(copy) =~= pending0.subrange(0, i + 1).filter(
                        keeps_pending(session),
                    ));
                }
                kept.push(copy);
            } else {
                proof {
                    assert(kept@ =~= pending0.subrange(0, i + 1).filter(keeps_pending(session)));
                }
            }
            i += 1;
        }
        proof {
            assert(pending0.subrange(0, pending0.len() as int) =~= pending0);
        }
        self.pending = kept;
        let mut kept_watch: Vec<(u64, u64)> = Vec::new();
        let mut j: usize = 0;
        while j < self.watch.len()
            invariant
                self.watch@ == watch0,
                j <= self.watch.len(),
                kept_watch@ == watch0.subrange(0, j as int).filter(keeps_watch(session)),
            decreases self.watch.len() - j,
        {
            proof {
                lemma_filter_one_more(watch0, j as int, keeps_watch(session));
            }
            let w = self.watch[j];
            if w.1 != session {
                proof {
                    assert(kept_watch@.push(w) =~= watch0.subrange(0, j + 1).filter(
                        keeps_watch(session),
                    ));
                }
                kept_watch.push(w);
            } else {
                proof {
                    assert(kept_watch@ =~= watch0.subrange(0, j + 1).filter(keeps_watch(session)));
                }
            }
            j += 1;
        }
        proof {
            assert(watch0.subrange(0, watch0.len() as int) =~= watch0);
        }
        self.watch = kept_watch;
        proof {
            assert(pending0 == old(self).spec_pending());
            assert(watch0 == old(self).spec_watch());
            assert(self.spec_next_load() == old(self).spec_next_load());
            lemma_filter_pending_wf(pending0, session, old(self).spec_next_load());
            lemma_filter_watch_wf(watch0, session, old(self).spec_next_load());
        }
    }
}

/// One filtering step: filtering a prefix one element longer appends the
/// element exactly when the predicate keeps it.
proof fn lemma_filter_one_more<A>(s: Seq<A>, i: int, pred: spec_fn(A) -> bool)
    requires
        0 <= i < s.len(),
    ensures
        s.subrange(0, i + 1).filter(pred) == if pred(s[i]) {
            s.subrange(0, i).filter(pred).push(s[i])
        } else {
            s.subrange(0, i).filter(pred)
        },
{
    reveal(Seq::filter);
    let longer = s.subrange(0, i + 1);
    assert(longer.drop_last() =~= s.subrange(0, i));
    assert(longer.last() == s[i]);
}

/// Dropping a session's pending entries keeps the rest, and with them the
/// bound and pairwise distinctness of their load handles.
proof fn lemma_filter_pending_wf(s: Seq<PendingRequest>, session: u64, bound: u64)
    requires
        forall|i: int| 0 <= i < s.len() ==> (#[trigger] s[i]).load < bound,
        distinct_loads(s),
    ensures
        forall|i: int|
            0 <= i < s.filter(keeps_pending(session)).len() ==> (#[trigger] s.filter(
                keeps_pending(session),
            )[i]).load < bound,
        distinct_loads(s.filter(keeps_pending(session))),
    decreases s.len(),
{
    reveal(Seq::filter);
    if s.len() > 0 {
        let ds = s.drop_last();
        assert forall|i: int| 0 <= i < ds.len() implies (#[trigger] ds[i]).load < bound by {
            assert(ds[i] == s[i]);
        };
        assert forall|i: int, j: int|
            #![trigger ds[i].load, ds[j].load]
            0 <= i < j < ds.len() implies ds[i].load != ds[j].load by {
            assert(ds[i] == s[i]);
            assert(ds[j] == s[j]);
        };
        lemma_filter_pending_wf(ds, session, bound);
        lemma_filter_subset(ds, keeps_pending(session));
        let f = s.filter(keeps_pending(session));
        let fd = ds.filter(keeps_pending(session));
        if keeps_pending(session)(s.last()) {
            assert(f == fd.push(s.last()));
            assert forall|i: int| 0 <= i < fd.len() implies (#[trigger] fd[i]).load != s.last().load
                by {
                assert(ds.contains(fd[i]));
                let k = choose|k: int| 0 <= k < ds.len() && ds[k] == fd[i];
                assert(s[k].load != s[s.len() - 1].load);
            };
            assert((s[s.len() - 1]).load < bound);
            assert forall|i: int| 0 <= i < f.len() implies (#[trigger] f[i]).load < bound by {
                if i < fd.len() {
                    assert(f[i] == fd[i]);
                } else {
                    assert(f[i] == s.last());
                }
            };
            assert forall|i: int, j: int|
                #![trigger f[i].load, f[j].load]
                0 <= i < j < f.len() implies f[i].load != f[j].load by {
                assert(f[i] == fd[i]);
                if j < fd.len() {
                    assert(f[j] == fd[j]);
                } else {
                    assert(f[j] == s.last());
                }
            };
        } else {
            assert(f == fd);
        }
    }
}

/// Dropping a session's watch entries keeps the rest, and with them the
/// bound and pairwise distinctness of their load handles.
proof fn lemma_filter_watch_wf(s: Seq<(u64, u64)>, session: u64, bound: u64)
    requires
        forall|i: int| 0 <= i < s.len() ==> (#[trigger] s[i]).0 < bound,
        forall|i: int, j: int|
            #![trigger s[i], s[j]]
            0 <= i < j < s.len() ==> s[i].0 != s[j].0,
    ensures
        forall|i: int|
            0 <= i < s.filter(keeps_watch(session)).len() ==> (#[trigger] s.filter(
                keeps_watch(session),
            )[i]).0 < bound,
        forall|i: int, j: int|
            #![trigger s.filter(keeps_watch(session))[i], s.filter(keeps_watch(session))[j]]
            0 <= i < j < s.filter(keeps_watch(session)).len() ==> s.filter(
                keeps_watch(session),
            )[i].0 != s.filter(keeps_watch(session))[j].0,
    decreases s.len(),
{
    reveal(Seq::filter);
    if s.len() > 0 {
        let ds = s.drop_last();
        assert forall|i: int| 0 <= i < ds.len() implies (#[trigger] ds[i]).0 < bound by {
            assert(ds[i] == s[i]);
        };
        assert forall|i: int, j: int|
            #![trigger ds[i], ds[j]]
            0 <= i < j < ds.len() implies ds[i].0 != ds[j].0 by {
            assert(ds[i] == s[i]);
            assert(ds[j] == s[j]);
        };
        lemma_filter_watch_wf(ds, session, bound);
        lemma_filter_subset(ds, keeps_watch(session));
        let f = s.filter(keeps_watch(session));
        let fd = ds.filter(keeps_watch(session));
        if keeps_watch(session)(s.last()) {
            assert(f == fd.push(s.last()));
            assert forall|i: int| 0 <= i < fd.len() implies (#[trigger] fd[i]).0 != s.last().0 by {
                assert(ds.contains(fd[i]));
                let k = choose|k: int| 0 <= k < ds.len() && ds[k] == fd[i];
                assert(s[k].0 != s[s.len() - 1].0);
            };
            assert((s[s.len() - 1]).0 < bound);
            assert forall|i: int| 0 <= i < f.len() implies (#[trigger] f[i]).0 < bound by {
                if i < fd.len() {
                    assert(f[i] == fd[i]);
                } else {
                    assert(f[i] == s.last());
                }
            };
            assert forall|i: int, j: int|
                #![trigger f[i], f[j]]
                0 <= i < j < f.len() implies f[i].0 != f[j].0 by {
                assert(f[i] == fd[i]);
                if j < fd.len() {
                    assert(f[j] == fd[j]);
                } else {
                    assert(f[j] == s.last());
                }
            };
        } else {
            assert(f == fd);
        }
    }
}

/// Every element of a filtered sequence is an element of the sequence.
proof fn lemma_filter_subset<A>(s: Seq<A>, pred: spec_fn(A) -> bool)
    ensures
        forall|i: int| 0 <= i < s.filter(pred).len() ==> s.contains(#[trigger] s.filter(pred)[i]),
    decreases s.len(),
{
    reveal(Seq::filter);
    if s.len() > 0 {
        let ds = s.drop_last();
        lemma_filter_subset(ds, pred);
        let f = s.filter(pred);
        let fd = ds.filter(pred);
        assert forall|i: int| 0 <= i < f.len() implies s.contains(#[trigger] f[i]) by {
            if i < fd.len() {
                assert(f[i] == fd[i]);
                assert(ds.contains(fd[i]));
                let k = choose|k: int| 0 <= k < ds.len() && ds[k] == fd[i];
                assert(s[k] == f[i]);
            } else {
                assert(f[i] == s.last());
                assert(s[s.len() - 1] == s.last());
            }
        };
    }
}

/// Completing one request's load never resolves another pending request's
/// responder: in a well-formed resolver, resolving the load of pending entry
/// `i` returns entry `i`'s own responder, and every other entry — in
/// particular any concurrent request, whatever its path — stays pending.
pub proof fn lemma_distinct_requests_isolated(r: ResourceResolver, i: int, j: int)
    requires
        r.wf(),
        0 <= i < r.spec_pending().len(),
        0 <= j < r.spec_pending().len(),
        i != j,
    ensures
        spec_find_load(r.spec_pending(), r.spec_pending()[i].load) == i,
        r.spec_pending()[spec_find_load(
            r.spec_pending(),
            r.spec_pending()[i].load,
        )].responder == r.spec_pending()[i].responder,
        r.spec_pending().remove(i).contains(r.spec_pending()[j]),
{
    let pending = r.spec_pending();
    let load = pending[i].load;
    lemma_find_load_unique(pending, load, i);
    if j < i {
        assert(pending.remove(i)[j] == pending[j]);
    } else {
        assert(pending.remove(i)[j - 1] == pending[j]);
    }
}

} // verus!
