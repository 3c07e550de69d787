//! The registry of pending requests and the operations that resolve them.
//!
//! Every resolution goes through one removal: a request leaves the registry
//! at the moment it is resolved, so whichever of response, cancellation and
//! timeout reaches it first wins, and every later attempt finds nothing.
//! Resolved requests are not kept: a late or repeated response sees
//! `NotFound`.
use vstd::prelude::*;

use crate::approvals::{
    outcome_fits, ApprovalError, ApprovalKind, ApprovalOutcome, ApprovalRequest,
    ApprovalResponse, CreateApprovalRequest,
};

verus! {

broadcast use vstd::seq_lib::group_filter_ensures;

/// What the registry keeps of a pending request.
pub struct PendingEntry {
    pub id: u128,
    pub kind: ApprovalKind,
    pub tool_name: String,
    pub execution_process_id: u128,
    pub timeout_at: i64,
}

/// What a successful response hands back beside the outcome.
pub struct ApprovalContext {
    pub tool_name: String,
    pub execution_process_id: u128,
}

/// The pending entries of `s` with identifier `id`.
pub open spec fn with_id(s: Seq<PendingEntry>, id: u128) -> Seq<PendingEntry> {
    s.filter(|e: PendingEntry| e.id == id)
}

/// The pending entries of `s` whose identifier is not `id`.
pub open spec fn without_id(s: Seq<PendingEntry>, id: u128) -> Seq<PendingEntry> {
    s.filter(|e: PendingEntry| e.id != id)
}

/// The entries of `s` whose deadline has passed at `now`.
pub open spec fn expired(s: Seq<PendingEntry>, now: i64) -> Seq<PendingEntry> {
    s.filter(|e: PendingEntry| e.timeout_at <= now)
}

/// The entries of `s` whose deadline lies after `now`.
pub open spec fn unexpired(s: Seq<PendingEntry>, now: i64) -> Seq<PendingEntry> {
    s.filter(|e: PendingEntry| e.timeout_at > now)
}

/// Whether a request with identifier `id` is pending in `s`.
pub open spec fn has_pending(s: Seq<PendingEntry>, id: u128) -> bool {
    with_id(s, id).len() > 0
}

/// The pending entry with identifier `id`, where there is one.
pub open spec fn pending_entry(s: Seq<PendingEntry>, id: u128) -> PendingEntry {
    with_id(s, id)[0]
}

/// No two entries share an identifier.
pub open spec fn ids_unique(s: Seq<PendingEntry>) -> bool {
    forall|i: int, j: int|
        0 <= i < s.len() && 0 <= j < s.len() && #[trigger] s[i].id == #[trigger] s[j].id ==> i
            == j
}

/// What the registry keeps of `r`, a request of kind `kind`.
pub open spec fn entry_of(r: ApprovalRequest, kind: ApprovalKind) -> PendingEntry {
    PendingEntry {
        id: r.id,
        kind,
        tool_name: r.tool_name,
        execution_process_id: r.execution_process_id,
        timeout_at: r.timeout_at,
    }
}

/// Which entries a removal takes out.
#[derive(Clone, Copy)]
enum Selector {
    Id(u128),
    DueBy(i64),
}

spec fn kept(s: Seq<PendingEntry>, sel: Selector) -> Seq<PendingEntry> {
    match sel {
        Selector::Id(id) => without_id(s, id),
        Selector::DueBy(now) => unexpired(s, now),
    }
}

spec fn taken(s: Seq<PendingEntry>, sel: Selector) -> Seq<PendingEntry> {
    match sel {
        Selector::Id(id) => with_id(s, id),
        Selector::DueBy(now) => expired(s, now),
    }
}

spec fn selects(sel: Selector, e: PendingEntry) -> bool {
    match sel {
        Selector::Id(id) => e.id == id,
        Selector::DueBy(now) => e.timeout_at <= now,
    }
}

fn is_selected(sel: Selector, e: &PendingEntry) -> (r: bool)
    ensures
        r == selects(sel, *e),
{
    match sel {
        Selector::Id(id) => e.id == id,
        Selector::DueBy(now) => e.timeout_at <= now,
    }
}

proof fn lemma_selection_push(s: Seq<PendingEntry>, x: PendingEntry, sel: Selector)
    ensures
        kept(s.push(x), sel) == if selects(sel, x) {
            kept(s, sel)
        } else {
            kept(s, sel).push(x)
        },
        taken(s.push(x), sel) == if selects(sel, x) {
            taken(s, sel).push(x)
        } else {
            taken(s, sel)
        },
{
    match sel {
        Selector::Id(id) => {
            s.lemma_filter_push(x, |e: PendingEntry| e.id != id);
            s.lemma_filter_push(x, |e: PendingEntry| e.id == id);
        },
        Selector::DueBy(now) => {
            s.lemma_filter_push(x, |e: PendingEntry| e.timeout_at > now);
            s.lemma_filter_push(x, |e: PendingEntry| e.timeout_at <= now);
        },
    }
}

proof fn lemma_filter_unique(s: Seq<PendingEntry>, pred: spec_fn(PendingEntry) -> bool)
    requires
        ids_unique(s),
    ensures
        ids_unique(s.filter(pred)),
    decreases s.len(),
{
    reveal(Seq::filter);
    if s.len() > 0 {
        let t = s.drop_last();
        assert(ids_unique(t)) by {
            assert forall|i: int, j: int|
                0 <= i < t.len() && 0 <= j < t.len() && #[trigger] t[i].id == #[trigger] t[j].id
                implies i == j by {
                assert(s[i] == t[i] && s[j] == t[j]);
            }
        }
        lemma_filter_unique(t, pred);
        let f = t.filter(pred);
        if pred(s.last()) {
            assert forall|k: int| 0 <= k < f.len() implies #[trigger] f[k].id != s.last().id by {
                assert(f.contains(f[k]));
                t.lemma_filter_contains_rev(pred, f[k]);
                let m = choose|m: int| 0 <= m < t.len() && t[m] == f[k];
                assert(s[m] == t[m]);
                assert(s[s.len() - 1] == s.last());
            }
            let g = f.push(s.last());
            assert forall|i: int, j: int|
                0 <= i < g.len() && 0 <= j < g.len() && #[trigger] g[i].id == #[trigger] g[j].id
                implies i == j by {
                if i < f.len() && j < f.len() {
                    assert(g[i] == f[i] && g[j] == f[j]);
                } else if i < f.len() {
                    assert(g[i] == f[i]);
                } else if j < f.len() {
                    assert(g[j] == f[j]);
                }
            }
        }
    }
}

proof fn lemma_not_pending_all(s: Seq<PendingEntry>, id: u128)
    requires
        !has_pending(s, id),
    ensures
        forall|i: int| 0 <= i < s.len() ==> #[trigger] s[i].id != id,
{
    assert forall|i: int| 0 <= i < s.len() implies #[trigger] s[i].id != id by {
        if s[i].id == id {
            s.lemma_filter_contains(|e: PendingEntry| e.id == id, i);
        }
    }
}

/// A request that is resolved leaves the registry: afterwards no request
/// with its identifier is pending, so a second response is `NotFound` and a
/// second cancellation or sweep finds nothing to resolve.
pub proof fn lemma_resolved_not_pending(s: Seq<PendingEntry>, id: u128)
    ensures
        !has_pending(without_id(s, id), id),
{
    let w = without_id(s, id);
    if has_pending(w, id) {
        let x = with_id(w, id)[0];
        assert(with_id(w, id).contains(x));
        w.lemma_filter_contains_rev(|e: PendingEntry| e.id == id, x);
        let k = choose|k: int| 0 <= k < w.len() && w[k] == x;
        assert(x.id == id);
        assert(w[k].id != id);
    }
}

/// A request that is not pending is never resolved again: a sweep at any
/// time takes nothing with its identifier.
pub proof fn lemma_absent_never_swept(s: Seq<PendingEntry>, id: u128, now: i64)
    requires
        !has_pending(s, id),
    ensures
        !has_pending(expired(s, now), id),
{
    lemma_not_pending_all(s, id);
    let x = expired(s, now);
    assert forall|i: int| 0 <= i < x.len() implies #[trigger] x[i].id != id by {
        assert(x.contains(x[i]));
        s.lemma_filter_contains_rev(|e: PendingEntry| e.timeout_at <= now, x[i]);
    }
    if has_pending(x, id) {
        let y = with_id(x, id)[0];
        assert(with_id(x, id).contains(y));
        x.lemma_filter_contains_rev(|e: PendingEntry| e.id == id, y);
    }
}

/// A request whose deadline has passed is no longer pending after a sweep,
/// so a response that arrives afterwards is `NotFound`.
pub proof fn lemma_swept_not_pending(s: Seq<PendingEntry>, id: u128, now: i64)
    requires
        ids_unique(s),
        has_pending(s, id),
        pending_entry(s, id).timeout_at <= now,
    ensures
        !has_pending(unexpired(s, now), id),
{
    let u = unexpired(s, now);
    let p = pending_entry(s, id);
    assert(with_id(s, id).contains(p));
    s.lemma_filter_contains_rev(|e: PendingEntry| e.id == id, p);
    let a = choose|a: int| 0 <= a < s.len() && s[a] == p;
    if has_pending(u, id) {
        let y = with_id(u, id)[0];
        assert(with_id(u, id).contains(y));
        u.lemma_filter_contains_rev(|e: PendingEntry| e.id == id, y);
        assert(u.contains(y));
        s.lemma_filter_contains_rev(|e: PendingEntry| e.timeout_at > now, y);
        let b = choose|b: int| 0 <= b < s.len() && s[b] == y;
        assert(s[a].id == s[b].id);
    }
}

/// The pending requests, each with its kind, deadline and context.
pub struct Approvals {
    entries: Vec<PendingEntry>,
}

impl View for Approvals {
    type V = Seq<PendingEntry>;

    closed spec fn view(&self) -> Seq<PendingEntry> {
        self.entries@
    }
}

impl Approvals {
    /// The registry is well formed: identifiers are unique.
    pub open spec fn wf(&self) -> bool {
        ids_unique(self@)
    }

    /// An empty registry.
    pub fn new() -> (r: Approvals)
        ensures
            r@ == Seq::<PendingEntry>::empty(),
            r.wf(),
    {
        Approvals { entries: Vec::new() }
    }

    /// The number of pending requests.
    pub fn len(&self) -> (r: usize)
        ensures
            r == self@.len(),
    {
        self.entries.len()
    }

    /// The position of the pending request with identifier `id`, if any.
    fn find(&self, id: u128) -> (r: Option<usize>)
        ensures
            r is None <==> !has_pending(self@, id),
            r matches Some(i) ==> i < self@.len() && self@[i as int] == pending_entry(
                self@,
                id,
            ),
    {
        let ghost s = self@;
        let mut i: usize = 0;
        while i < self.entries.len()
            invariant
                s == self@,
                i <= s.len(),
                with_id(s.subrange(0, i as int), id).len() == 0,
            decreases s.len() - i,
        {
            proof {
                s.subrange(0, i as int).lemma_filter_push(s[i as int], |e: PendingEntry| e.id == id);
                assert(s.subrange(0, i + 1) =~= s.subrange(0, i as int).push(s[i as int]));
            }
            if self.entries[i].id == id {
                proof {
                    let pre = s.subrange(0, i + 1);
                    let post = s.subrange(i + 1, s.len() as int);
                    assert(s =~= pre + post);
                    Seq::filter_distributes_over_add(
                        pre,
                        post,
                        |e: PendingEntry| e.id == id,
                    );
                    assert(with_id(pre, id) =~= seq![s[i as int]]);
                    assert(with_id(s, id)[0] == s[i as int]);
                }
                return Some(i);
            }
            i = i + 1;
        }
        proof {
            assert(s.subrange(0, i as int) =~= s);
        }
        None
    }

    /// Whether a request with identifier `id` is pending.
    pub fn is_pending(&self, id: u128) -> (r: bool)
        ensures
            r == has_pending(self@, id),
    {
        self.find(id).is_some()
    }

    /// Takes out every entry that `sel` selects, in order, keeping the rest
    /// in order.
    fn take_selected(&mut self, sel: Selector) -> (r: Vec<PendingEntry>)
        ensures
            final(self)@ == kept(old(self)@, sel),
            r@ == taken(old(self)@, sel),
    {
        let ghost s0 = self@;
        let mut out: Vec<PendingEntry> = Vec::new();
        let mut i: usize = 0;
        let ghost mut k: int = 0;
        proof {
            reveal(Seq::filter);
            assert(s0.subrange(0, 0) =~= Seq::<PendingEntry>::empty());
            assert(self.entries@ =~= kept(s0.subrange(0, 0), sel) + s0.subrange(0, s0.len() as int));
        }
        while i < self.entries.len()
            invariant
                0 <= k <= s0.len(),
                i == kept(s0.subrange(0, k), sel).len(),
                self.entries@ == kept(s0.subrange(0, k), sel) + s0.subrange(k, s0.len() as int),
                out@ == taken(s0.subrange(0, k), sel),
            decreases self.entries.len() - i,
        {
            let ghost prefix = kept(s0.subrange(0, k), sel);
            proof {
                assert(self.entries@[i as int] == s0[k]);
                lemma_selection_push(s0.subrange(0, k), s0[k], sel);
                assert(s0.subrange(0, k + 1) =~= s0.subrange(0, k).push(s0[k]));
            }
            if is_selected(sel, &self.entries[i]) {
                let e = self.entries.remove(i);
                out.push(e);
                proof {
                    assert(self.entries@ =~= prefix + s0.subrange(k + 1, s0.len() as int));
                }
            } else {
                proof {
                    assert(self.entries@ =~= prefix.push(s0[k]) + s0.subrange(
                        k + 1,
                        s0.len() as int,
                    ));
                }
                i = i + 1;
            }
            proof {
                k = k + 1;
            }
        }
        proof {
            assert(s0.subrange(0, k) =~= s0);
        }
        out
    }

    /// Registers `request` as a pending request of kind `kind`; fails with
    /// `DuplicateId` when a request with its identifier is pending already.
    pub fn register(&mut self, request: &ApprovalRequest, kind: ApprovalKind) -> (r: Result<
        (),
        ApprovalError,
    >)
        requires
            old(self).wf(),
        ensures
            final(self).wf(),
            r is Err <==> has_pending(old(self)@, request.id),
            r matches Err(e) ==> e == ApprovalError::DuplicateId,
            r is Err ==> final(self)@ == old(self)@,
            r is Ok ==> final(self)@ == old(self)@.push(entry_of(*request, kind)),
    {
        if self.find(request.id).is_some() {
            return Err(ApprovalError::DuplicateId);
        }
        let entry = PendingEntry {
            id: request.id,
            kind,
            tool_name: request.tool_name.clone(),
            execution_process_id: request.execution_process_id,
            timeout_at: request.timeout_at,
        };
        proof {
            lemma_not_pending_all(self@, request.id);
        }
        self.entries.push(entry);
        proof {
            let s = self@;
            assert forall|i: int, j: int|
                0 <= i < s.len() && 0 <= j < s.len() && #[trigger] s[i].id == #[trigger] s[j].id
                implies i == j by {
                if i < s.len() - 1 && j < s.len() - 1 {
                    assert(s[i] == old(self)@[i] && s[j] == old(self)@[j]);
                } else if i < s.len() - 1 {
                    assert(s[i] == old(self)@[i]);
                } else if j < s.len() - 1 {
                    assert(s[j] == old(self)@[j]);
                }
            }
        }
        Ok(())
    }

    /// Creates a request from `draft` for the given execution process, with
    /// a fresh identifier and deadline, and registers it as pending. The
    /// caller attaches its waiters to the returned request's identifier.
    /// Creation fails only if that identifier happens to be pending already,
    /// so it always succeeds on an empty registry.
    pub fn create_with_waiter(
        &mut self,
        draft: CreateApprovalRequest,
        execution_process_id: u128,
        is_question: bool,
    ) -> (r: Result<ApprovalRequest, ApprovalError>)
        requires
            old(self).wf(),
        ensures
            final(self).wf(),
            r matches Ok(req) ==> {
                &&& req.tool_name == draft.tool_name
                &&& req.tool_input == draft.tool_input
                &&& req.tool_call_id == draft.tool_call_id
                &&& req.execution_process_id == execution_process_id
                &&& req.timeout_at == req.created_at + crate::approvals::APPROVAL_TIMEOUT_MILLIS
                &&& final(self)@ == old(self)@.push(
                    entry_of(req, if is_question { ApprovalKind::Question } else { ApprovalKind::Permission }),
                )
            },
            r matches Err(e) ==> e == ApprovalError::DuplicateId && final(self)@ == old(self)@,
            r is Err ==> old(self)@.len() > 0,
    {
        let request = ApprovalRequest::from_create(draft, execution_process_id);
        let kind = ApprovalKind::from_is_question(is_question);
        match self.register(&request, kind) {
            Ok(()) => Ok(request),
            Err(e) => Err(e),
        }
    }

    /// Resolves the pending request `id` with the response's outcome.
    ///
    /// Fails with `NotFound` when no such request is pending (it never
    /// existed or is resolved already), and with `KindMismatch`, leaving the
    /// request pending, when the outcome does not fit the request's kind.
    /// Otherwise the request leaves the registry, and its outcome comes back
    /// with the request's tool name and execution process.
    pub fn respond(&mut self, id: u128, response: ApprovalResponse) -> (r: Result<
        (ApprovalOutcome, ApprovalContext),
        ApprovalError,
    >)
        requires
            old(self).wf(),
        ensures
            final(self).wf(),
            !has_pending(old(self)@, id) ==> (r matches Err(e) && e == ApprovalError::NotFound),
            has_pending(old(self)@, id) && !outcome_fits(
                pending_entry(old(self)@, id).kind,
                response.status,
            ) ==> (r matches Err(e) && e == ApprovalError::KindMismatch),
            r is Err ==> final(self)@ == old(self)@,
            has_pending(old(self)@, id) && outcome_fits(
                pending_entry(old(self)@, id).kind,
                response.status,
            ) ==> r is Ok,
            r matches Ok((o, ctx)) ==> {
                &&& o == response.status
                &&& outcome_fits(pending_entry(old(self)@, id).kind, o)
                &&& ctx.tool_name == pending_entry(old(self)@, id).tool_name
                &&& ctx.execution_process_id == pending_entry(
                    old(self)@,
                    id,
                ).execution_process_id
                &&& final(self)@ == without_id(old(self)@, id)
            },
    {
        let i = match self.find(id) {
            None => return Err(ApprovalError::NotFound),
            Some(i) => i,
        };
        let kind = self.entries[i].kind;
        if !kind.accepts(&response.status) {
            return Err(ApprovalError::KindMismatch);
        }
        let ghost s = self@;
        let mut out = self.take_selected(Selector::Id(id));
        proof {
            lemma_filter_unique(s, |e: PendingEntry| e.id != id);
        }
        let e = out.remove(0);
        Ok((
            response.status,
            ApprovalContext {
                tool_name: e.tool_name,
                execution_process_id: e.execution_process_id,
            },
        ))
    }

    /// Cancels the pending request `id`, resolving it as timed out. Returns
    /// whether a request was resolved; an unknown or already resolved
    /// identifier leaves the registry as it is and is no error.
    pub fn cancel(&mut self, id: u128) -> (r: bool)
        requires
            old(self).wf(),
        ensures
            final(self).wf(),
            r == has_pending(old(self)@, id),
            !r ==> final(self)@ == old(self)@,
            r ==> final(self)@ == without_id(old(self)@, id),
    {
        if self.find(id).is_none() {
            return false;
        }
        let ghost s = self@;
        let _ = self.take_selected(Selector::Id(id));
        proof {
            lemma_filter_unique(s, |e: PendingEntry| e.id != id);
        }
        true
    }

    /// Resolves as timed out every pending request whose deadline is at or
    /// before `now`, and returns them in the order they were registered.
    pub fn sweep(&mut self, now: i64) -> (r: Vec<PendingEntry>)
        requires
            old(self).wf(),
        ensures
            final(self).wf(),
            r@ == expired(old(self)@, now),
            final(self)@ == unexpired(old(self)@, now),
    {
        let ghost s = self@;
        let r = self.take_selected(Selector::DueBy(now));
        proof {
            lemma_filter_unique(s, |e: PendingEntry| e.timeout_at > now);
        }
        r
    }
}

} // verus!
