//! Graceful shutdown: hierarchical cancellation composed with
//! completion tracking.
//!
//! A server holds one [`GracefulService`]; every task it spawns holds
//! a [`Token`]. An external signal cancels the root of a cancellation
//! tree, which every token's shutdown-wait observes; independently,
//! each live token keeps a completion channel open, and the service's
//! shutdown only completes once the signal fired and every token has
//! been retired. Cancellation is a request, never an abort: a task
//! observes its token and chooses to stop.
//!
//! This module is the coordination state itself. The surrounding
//! runtime drives it: it delivers the signal, parks on the waits, and
//! retires tokens as tasks drop them.

use vstd::prelude::*;

verus! {

/// One node of the cancellation tree.
#[derive(Debug, Clone, Copy, PartialEq, Eq, Structural)]
pub struct CancelNode {
    /// The index of the parent node; the root alone has none.
    pub parent: Option<usize>,
    /// Whether this node itself was cancelled.
    pub cancelled: bool,
}

/// The error shutdown-with-deadline reports when the deadline passes
/// with tokens still live. Callers branch on it, so it is a
/// strongly-typed value, not an opaque one.
#[derive(Debug, Clone, Copy, PartialEq, Eq, Structural)]
pub struct TimeoutError;

impl TimeoutError {
    /// A human-readable account of the error.
    pub fn message(&self) -> (r: &'static str) {
        "graceful shutdown timed out"
    }
}

/// The coordination state of a graceful server: a cancellation tree
/// whose root the external signal cancels, and a count of live
/// completion-channel handles, one per outstanding token.
#[derive(Debug)]
pub struct GracefulService {
    /// The cancellation tree, node 0 its root. Nodes are only ever
    /// added; a parent always precedes its children.
    pub nodes: Vec<CancelNode>,
    /// How many issued tokens have not been retired yet.
    pub live_tokens: u64,
}

/// Whether the tree shape is sound: there is a root, the root has no
/// parent, and every other node's parent precedes it.
pub open spec fn tree_wf(nodes: Seq<CancelNode>) -> bool {
    &&& nodes.len() >= 1
    &&& nodes[0].parent is None
    &&& forall|i: int|
        1 <= i < nodes.len() ==> ((#[trigger] nodes[i].parent) matches Some(p) && p < i)
}

/// Whether the node at `i` is cancelled: its own flag, or any
/// ancestor's — a child's cancellation state is the logical OR of its
/// own and all its ancestors'.
pub open spec fn node_cancelled(nodes: Seq<CancelNode>, i: int) -> bool
    decreases i,
{
    nodes[i].cancelled || (nodes[i].parent matches Some(p) && 0 <= (p as int) < i
        && node_cancelled(nodes, p as int))
}

/// Once the root is cancelled, so is every node of a sound tree:
/// cancellation broadcasts to the whole subtree at once.
pub proof fn lemma_root_cancels_all(nodes: Seq<CancelNode>, i: int)
    requires
        tree_wf(nodes),
        node_cancelled(nodes, 0),
        0 <= i < nodes.len(),
    ensures
        node_cancelled(nodes, i),
    decreases i,
{
    if i > 0 {
        let p: usize = nodes[i].parent->0;
        lemma_root_cancels_all(nodes, p as int);
    }
}

/// Whether the node at `a` is the node at `d`, or an ancestor of it.
pub open spec fn is_ancestor(nodes: Seq<CancelNode>, a: int, d: int) -> bool
    decreases d,
{
    a == d || (nodes[d].parent matches Some(p) && 0 <= (p as int) < d && is_ancestor(
        nodes,
        a,
        p as int,
    ))
}

/// Cancelling a node cancels its whole subtree: every descendant of a
/// cancelled node is cancelled.
pub proof fn lemma_cancel_reaches_descendants(nodes: Seq<CancelNode>, a: int, d: int)
    requires
        0 <= d < nodes.len(),
        is_ancestor(nodes, a, d),
        node_cancelled(nodes, a),
    ensures
        node_cancelled(nodes, d),
    decreases d,
{
    if a != d {
        let p: usize = nodes[d].parent->0;
        lemma_cancel_reaches_descendants(nodes, a, p as int);
    }
}

/// Cancellation is monotonic: a tree that only gained nodes or flags
/// keeps every node cancelled that was cancelled before.
pub proof fn lemma_cancel_monotonic(before: Seq<CancelNode>, after: Seq<CancelNode>, i: int)
    requires
        0 <= i < before.len(),
        before.len() <= after.len(),
        forall|j: int| 0 <= j < before.len() ==> (#[trigger] after[j]).parent == before[j].parent,
        forall|j: int|
            0 <= j < before.len() ==> (before[j].cancelled ==> (#[trigger] after[j]).cancelled),
        node_cancelled(before, i),
    ensures
        node_cancelled(after, i),
    decreases i,
{
    if !before[i].cancelled {
        let p: usize = before[i].parent->0;
        lemma_cancel_monotonic(before, after, p as int);
    }
}

/// Whether the service's root was cancelled: the signal fired.
pub open spec fn root_cancelled(s: GracefulService) -> bool {
    node_cancelled(s.nodes@, 0)
}

/// Whether a graceful shutdown can complete: the signal fired and no
/// token is outstanding.
pub open spec fn shutdown_ready(s: GracefulService) -> bool {
    root_cancelled(s) && s.live_tokens == 0
}

/// With no token issued (or all retired), the signal alone makes
/// shutdown ready: it completes immediately once the signal fires.
pub proof fn lemma_shutdown_immediate_without_tokens(s: GracefulService)
    requires
        root_cancelled(s),
        s.live_tokens == 0,
    ensures
        shutdown_ready(s),
{
}

/// With any token still live, shutdown is not ready, signal or not:
/// it can only complete after the last retirement.
pub proof fn lemma_no_shutdown_while_tokens_live(s: GracefulService)
    requires
        s.live_tokens > 0,
    ensures
        !shutdown_ready(s),
{
}

/// The state a retirement leaves behind.
pub open spec fn after_retire(s: GracefulService) -> GracefulService {
    GracefulService { nodes: s.nodes, live_tokens: (s.live_tokens - 1) as u64 }
}

/// Retirement only counts: which token goes, and in which order, does
/// not matter. After the signal, once `k` of `n` issued tokens have
/// been retired, shutdown is ready exactly when `k == n` — at the last
/// drop, never earlier.
pub proof fn lemma_shutdown_after_last_retirement(s: GracefulService, n: u64, k: u64)
    requires
        root_cancelled(s),
        k <= n,
        s.live_tokens == n - k,
    ensures
        shutdown_ready(s) <==> k == n,
{
}

/// The private wiring of an armed token: which tree node it observes.
/// Every armed token also accounts for one live completion handle.
#[derive(Debug, Clone, Copy, PartialEq, Eq, Structural)]
pub struct TokenState {
    pub node: usize,
}

/// A per-task shutdown handle. An armed token observes a node of the
/// service's cancellation tree and keeps the completion channel open
/// until retired; a pending token observes nothing and never resolves.
#[derive(Debug, Clone, Copy, PartialEq, Eq, Structural)]
pub struct Token {
    pub state: Option<TokenState>,
}

/// Whether a token belongs to a service's tree.
pub open spec fn token_wf(t: Token, s: GracefulService) -> bool {
    t.state matches Some(st) ==> st.node < s.nodes@.len()
}

/// Whether a token's shutdown-wait would resolve against the given
/// service state: only an armed token whose node is cancelled.
pub open spec fn token_shutdown_resolved(t: Token, s: GracefulService) -> bool {
    t.state matches Some(st) && node_cancelled(s.nodes@, st.node as int)
}

impl Token {
    /// An armed token observing the given tree node.
    pub fn new(node: usize) -> (r: Token)
        ensures
            r.state == Some(TokenState { node }),
    {
        Token { state: Some(TokenState { node }) }
    }

    /// A token that never shuts down, for a service that is not
    /// graceful: its wait future never resolves.
    pub fn pending() -> (r: Token)
        ensures
            r.state is None,
    {
        Token { state: None }
    }

    /// The wait future of this token: armed tokens wait on their
    /// node, pending tokens wait forever.
    pub fn shutdown(&self) -> (r: ShutdownFuture)
        ensures
            self.state matches Some(st) ==> r.target == Some(st.node),
            self.state is None ==> r.target is None,
    {
        match &self.state {
            Some(st) => ShutdownFuture::new(st.node),
            None => ShutdownFuture::pending(),
        }
    }
}

/// A pending token never resolves, against any service state and any
/// bounded window.
pub proof fn lemma_pending_never_resolves(s: GracefulService)
    ensures
        !token_shutdown_resolved(Token { state: None }, s),
{
}

/// A token's wait, as the coordination state sees it: ready exactly
/// when its target node is cancelled; a future without a target is
/// never ready.
#[derive(Debug, Clone, Copy, PartialEq, Eq, Structural)]
pub struct ShutdownFuture {
    pub target: Option<usize>,
}

impl ShutdownFuture {
    /// A wait on the given tree node.
    pub fn new(node: usize) -> (r: Self)
        ensures
            r.target == Some(node),
    {
        ShutdownFuture { target: Some(node) }
    }

    /// A wait that never completes.
    pub fn pending() -> (r: Self)
        ensures
            r.target is None,
    {
        ShutdownFuture { target: None }
    }

    /// Whether the wait has completed under the given service state.
    pub fn is_ready(&self, s: &GracefulService) -> (r: bool)
        requires
            self.target matches Some(n) ==> n < s.nodes@.len(),
        ensures
            r == token_shutdown_resolved(Token { state: match self.target {
                Some(n) => Some(TokenState { node: n }),
                None => None,
            } }, *s),
    {
        match &self.target {
            Some(n) => s.is_node_cancelled(*n),
            None => false,
        }
    }
}

impl GracefulService {
    /// A fresh service: a one-node tree, nothing cancelled, no token
    /// issued.
    pub fn new() -> (r: Self)
        ensures
            r.nodes@.len() == 1,
            r.nodes@[0] == (CancelNode { parent: None::<usize>, cancelled: false }),
            r.live_tokens == 0,
            tree_wf(r.nodes@),
            !root_cancelled(r),
    {
        let mut nodes: Vec<CancelNode> = Vec::new();
        nodes.push(CancelNode { parent: None, cancelled: false });
        GracefulService { nodes, live_tokens: 0 }
    }

    /// Whether the node at `i` is cancelled, own flag or ancestor's.
    pub fn is_node_cancelled(&self, i: usize) -> (r: bool)
        requires
            i < self.nodes@.len(),
        ensures
            r == node_cancelled(self.nodes@, i as int),
        decreases i,
    {
        if self.nodes[i].cancelled {
            true
        } else {
            match self.nodes[i].parent {
                Some(p) => {
                    if p < i {
                        self.is_node_cancelled(p)
                    } else {
                        false
                    }
                },
                None => false,
            }
        }
    }

    /// Deliver the external signal: cancel the root. Every node of the
    /// tree — hence every armed token — observes the cancellation at
    /// once; the count of live tokens is untouched, cancellation does
    /// not retire anybody.
    pub fn signal(&mut self)
        requires
            tree_wf(old(self).nodes@),
        ensures
            final(self).nodes@.len() == old(self).nodes@.len(),
            final(self).live_tokens == old(self).live_tokens,
            tree_wf(final(self).nodes@),
            root_cancelled(*final(self)),
            forall|i: int|
                0 <= i < final(self).nodes@.len() ==> node_cancelled(final(self).nodes@, i),
            forall|i: int|
                0 <= i < old(self).nodes@.len() ==> (node_cancelled(old(self).nodes@, i)
                    ==> node_cancelled(final(self).nodes@, i)),
    {
        let root = CancelNode { parent: self.nodes[0].parent, cancelled: true };
        self.nodes.set(0, root);
        proof {
            assert forall|i: int| 0 <= i < self.nodes@.len() implies node_cancelled(
                self.nodes@,
                i,
            ) by {
                lemma_root_cancels_all(self.nodes@, i);
            }
            assert forall|i: int|
                0 <= i < old(self).nodes@.len() && node_cancelled(
                    old(self).nodes@,
                    i,
                ) implies node_cancelled(self.nodes@, i) by {
                lemma_cancel_monotonic(old(self).nodes@, self.nodes@, i);
            }
        }
    }

    /// Issue a token: grow the tree with a child of the root, and
    /// count one more live completion handle.
    pub fn token(&mut self) -> (r: Token)
        requires
            tree_wf(old(self).nodes@),
            old(self).live_tokens < u64::MAX,
        ensures
            r.state == Some(TokenState { node: (final(self).nodes@.len() - 1) as usize }),
            token_wf(r, *final(self)),
            final(self).nodes@ == old(self).nodes@.push(
                CancelNode { parent: Some(0usize), cancelled: false },
            ),
            final(self).live_tokens == old(self).live_tokens + 1,
            tree_wf(final(self).nodes@),
            token_shutdown_resolved(r, *final(self)) == root_cancelled(*final(self)),
    {
        let node = self.make_child(0);
        self.live_tokens = self.live_tokens + 1;
        proof {
            let nodes = self.nodes@;
            let n = nodes.len() - 1;
            if node_cancelled(nodes, n) {
                assert(node_cancelled(nodes, 0));
            }
            if node_cancelled(nodes, 0) {
                assert(node_cancelled(nodes, n));
            }
        }
        Token::new(node)
    }

    /// Derive a child token from an armed token: a grandchild node in
    /// the tree, sharing the same retirement accounting, so sub-task
    /// hierarchies drain like their parents. Of a pending token the
    /// child is again pending, and nothing is counted.
    pub fn child_token(&mut self, t: &Token) -> (r: Token)
        requires
            tree_wf(old(self).nodes@),
            token_wf(*t, *old(self)),
            old(self).live_tokens < u64::MAX,
        ensures
            t.state matches Some(st) ==> r.state == Some(
                TokenState { node: (final(self).nodes@.len() - 1) as usize },
            ) && final(self).nodes@ == old(self).nodes@.push(
                CancelNode { parent: Some(st.node), cancelled: false },
            ) && final(self).live_tokens == old(self).live_tokens + 1,
            t.state is None ==> r == *t && *final(self) == *old(self),
            token_wf(r, *final(self)),
            tree_wf(final(self).nodes@),
            t.state matches Some(st) ==> token_shutdown_resolved(r, *final(self))
                == node_cancelled(final(self).nodes@, st.node as int),
    {
        match &t.state {
            Some(st) => {
                let node = self.make_child(st.node);
                self.live_tokens = self.live_tokens + 1;
                Token::new(node)
            },
            None => Token { state: None },
        }
    }

    /// Retire a token, as dropping it does: one fewer live handle.
    /// Retiring a pending token changes nothing.
    pub fn retire(&mut self, t: Token)
        requires
            t.state is Some ==> old(self).live_tokens >= 1,
        ensures
            t.state is Some ==> *final(self) == after_retire(*old(self)),
            t.state is None ==> *final(self) == *old(self),
    {
        match t.state {
            Some(_) => {
                self.live_tokens = self.live_tokens - 1;
            },
            None => {},
        }
    }

    /// Whether a wait for the bare signal would have returned: the
    /// root was cancelled, outstanding tokens notwithstanding.
    pub fn shutdown_req_resolved(&self) -> (r: bool)
        requires
            tree_wf(self.nodes@),
        ensures
            r == root_cancelled(*self),
    {
        self.is_node_cancelled(0)
    }

    /// Whether a graceful shutdown would have completed: the signal
    /// fired and every issued token was retired — in whatever order;
    /// nothing else resolves it.
    pub fn shutdown_resolved(&self) -> (r: bool)
        requires
            tree_wf(self.nodes@),
        ensures
            r == shutdown_ready(*self),
    {
        self.is_node_cancelled(0) && self.live_tokens == 0
    }

    /// The outcome of a shutdown bounded by a deadline, judged at that
    /// deadline (the signal has fired by then): success exactly when
    /// every token was retired in time, the distinguished timeout
    /// error otherwise. A timeout cancels or terminates nothing; a
    /// straggling task keeps running.
    pub fn shutdown_until_outcome(&self) -> (r: Result<(), TimeoutError>)
        requires
            tree_wf(self.nodes@),
            root_cancelled(*self),
        ensures
            self.live_tokens == 0 ==> r == Ok::<(), TimeoutError>(()),
            self.live_tokens != 0 ==> r == Err::<(), TimeoutError>(TimeoutError),
    {
        if self.live_tokens == 0 {
            Ok(())
        } else {
            Err(TimeoutError)
        }
    }

    /// Push a child of `parent` onto the tree, uncancelled, and hand
    /// back its index.
    fn make_child(&mut self, parent: usize) -> (r: usize)
        requires
            tree_wf(old(self).nodes@),
            parent < old(self).nodes@.len(),
        ensures
            r == old(self).nodes@.len(),
            final(self).nodes@ == old(self).nodes@.push(
                CancelNode { parent: Some(parent), cancelled: false },
            ),
            final(self).live_tokens == old(self).live_tokens,
            tree_wf(final(self).nodes@),
            node_cancelled(final(self).nodes@, r as int) == node_cancelled(
                final(self).nodes@,
                parent as int,
            ),
            forall|i: int|
                0 <= i < old(self).nodes@.len() ==> node_cancelled(final(self).nodes@, i)
                    == node_cancelled(old(self).nodes@, i),
    {
        let idx = self.nodes.len();
        self.nodes.push(CancelNode { parent: Some(parent), cancelled: false });
        proof {
            let before = old(self).nodes@;
            let after = self.nodes@;
            assert forall|i: int|
                0 <= i < before.len() implies node_cancelled(after, i) == node_cancelled(
                before,
                i,
            ) by {
                lemma_prefix_cancelled_unchanged(before, after, i);
            }
        }
        idx
    }
}

/// Appending nodes to a tree does not change what is cancelled among
/// the nodes that were already there.
proof fn lemma_prefix_cancelled_unchanged(before: Seq<CancelNode>, after: Seq<CancelNode>, i: int)
    requires
        0 <= i < before.len(),
        before.len() <= after.len(),
        forall|j: int| 0 <= j < before.len() ==> after[j] == before[j],
    ensures
        node_cancelled(after, i) == node_cancelled(before, i),
    decreases i,
{
    if after[i].parent is Some {
        let p: usize = after[i].parent->0;
        if (p as int) < i {
            lemma_prefix_cancelled_unchanged(before, after, p as int);
        }
    }
}

} // verus!
