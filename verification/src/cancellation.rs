//! A cooperative, hierarchical cancellation primitive.
//!
//! Tokens form a tree: a linked token is cancelled whenever it or any of its
//! ancestors is cancelled. Cancellation is monotonic: no operation ever
//! un-cancels a token. The asynchronous wait for cancellation is the
//! caller's concern; this tree is the authoritative flag state that such a
//! wait polls.

use vstd::prelude::*;

use crate::orders::CoreError;

verus! {

/// One node of the token tree: its parent, if any, and its own flag.
#[derive(Clone, Copy, Debug, PartialEq, Eq, Structural)]
pub struct TokenNode {
    pub parent: Option<usize>,
    pub cancelled: bool,
}

/// Whether the node at `i` has a parent that stands before it.
pub open spec fn parent_before(nodes: Seq<TokenNode>, i: int) -> bool {
    match nodes[i].parent {
        Some(p) => p < i,
        None => true,
    }
}

/// Whether the token at `i` is cancelled: its own flag is set, or an
/// ancestor's is.
pub open spec fn node_cancelled(nodes: Seq<TokenNode>, i: int) -> bool
    decreases i,
{
    if 0 <= i < nodes.len() {
        nodes[i].cancelled || match nodes[i].parent {
            Some(p) => p < i && node_cancelled(nodes, p as int),
            None => false,
        }
    } else {
        false
    }
}

/// Whether `a` stands on the ancestor chain of `i` (or is `i` itself).
pub open spec fn has_ancestor(nodes: Seq<TokenNode>, i: int, a: int) -> bool
    decreases i,
{
    if 0 <= i < nodes.len() {
        i == a || match nodes[i].parent {
            Some(p) => p < i && has_ancestor(nodes, p as int, a),
            None => false,
        }
    } else {
        false
    }
}

/// The tree of cancellation tokens. A fresh tree holds one root token.
pub struct TokenTree {
    pub nodes: Vec<TokenNode>,
}

impl TokenTree {
    /// Every node's parent stands before it in the tree.
    pub open spec fn wf(self) -> bool {
        forall|i: int| 0 <= i < self.nodes@.len() ==> #[trigger] parent_before(self.nodes@, i)
    }

    /// A fresh tree with a single uncancelled root token, number zero.
    pub fn new() -> (r: TokenTree)
        ensures
            r.wf(),
            r.nodes@.len() == 1,
            !node_cancelled(r.nodes@, 0),
    {
        let nodes = vec![TokenNode { parent: None, cancelled: false }];
        TokenTree { nodes }
    }

    /// Creates a token linked under `parent`: the new token is cancelled
    /// whenever `parent` (and so any ancestor of it) is cancelled.
    pub fn create_linked_token(&mut self, parent: usize) -> (r: usize)
        requires
            old(self).wf(),
            parent < old(self).nodes@.len(),
        ensures
            final(self).wf(),
            r == old(self).nodes@.len(),
            final(self).nodes@ == old(self).nodes@.push(
                TokenNode { parent: Some(parent), cancelled: false },
            ),
            node_cancelled(final(self).nodes@, r as int) == node_cancelled(
                final(self).nodes@,
                parent as int,
            ),
    {
        let id = self.nodes.len();
        self.nodes.push(TokenNode { parent: Some(parent), cancelled: false });
        proof {
            assert forall|i: int| 0 <= i < self.nodes@.len() implies #[trigger] parent_before(
                self.nodes@,
                i,
            ) by {
                if i < old(self).nodes@.len() {
                    assert(parent_before(old(self).nodes@, i));
                }
            }
        }
        id
    }

    /// Cancels one token. Only that node's flag changes; the tree's shape
    /// and every other flag are untouched, so cancellation is monotonic.
    pub fn cancel(&mut self, token: usize)
        requires
            old(self).wf(),
            token < old(self).nodes@.len(),
        ensures
            final(self).wf(),
            final(self).nodes@ == old(self).nodes@.update(
                token as int,
                TokenNode { parent: old(self).nodes@[token as int].parent, cancelled: true },
            ),
            node_cancelled(final(self).nodes@, token as int),
    {
        let parent = self.nodes[token].parent;
        self.nodes[token] = TokenNode { parent, cancelled: true };
        proof {
            assert forall|i: int| 0 <= i < self.nodes@.len() implies #[trigger] parent_before(
                self.nodes@,
                i,
            ) by {
                assert(parent_before(old(self).nodes@, i));
            }
        }
    }

    /// Polls the token: true exactly when it or an ancestor was cancelled.
    pub fn is_cancelled(&self, token: usize) -> (r: bool)
        requires
            self.wf(),
            token < self.nodes@.len(),
        ensures
            r == node_cancelled(self.nodes@, token as int),
    {
        let mut cur = token;
        loop
            invariant
                self.wf(),
                cur < self.nodes@.len(),
                node_cancelled(self.nodes@, token as int) == node_cancelled(
                    self.nodes@,
                    cur as int,
                ),
            decreases cur,
        {
            if self.nodes[cur].cancelled {
                return true;
            }
            match self.nodes[cur].parent {
                Some(p) => {
                    proof {
                        assert(parent_before(self.nodes@, cur as int));
                    }
                    cur = p;
                },
                None => {
                    return false;
                },
            }
        }
    }

    /// Fails with `Cancelled` exactly when the token is cancelled.
    pub fn error_if_cancellation_requested(&self, token: usize) -> (r: Result<(), CoreError>)
        requires
            self.wf(),
            token < self.nodes@.len(),
        ensures
            r is Err <==> node_cancelled(self.nodes@, token as int),
            r is Err ==> r == Err::<(), CoreError>(CoreError::Cancelled),
    {
        if self.is_cancelled(token) {
            Err(CoreError::Cancelled)
        } else {
            Ok(())
        }
    }
}

/// Cancellation is monotonic: a token cancelled before `cancel` ran is still
/// cancelled afterwards.
pub proof fn lemma_cancel_monotonic(pre: Seq<TokenNode>, post: Seq<TokenNode>, t: int, i: int)
    requires
        0 <= t < pre.len(),
        post == pre.update(t, TokenNode { parent: pre[t].parent, cancelled: true }),
        node_cancelled(pre, i),
    ensures
        node_cancelled(post, i),
    decreases i,
{
    if 0 <= i < pre.len() {
        if pre[i].cancelled {
        } else {
            match pre[i].parent {
                Some(p) => {
                    lemma_cancel_monotonic(pre, post, t, p as int);
                },
                None => {},
            }
        }
    }
}

/// Cancelling a token cancels every token whose ancestor chain holds it.
pub proof fn lemma_cancel_propagates(pre: Seq<TokenNode>, post: Seq<TokenNode>, t: int, i: int)
    requires
        0 <= t < pre.len(),
        post == pre.update(t, TokenNode { parent: pre[t].parent, cancelled: true }),
        has_ancestor(pre, i, t),
    ensures
        node_cancelled(post, i),
    decreases i,
{
    if 0 <= i < pre.len() {
        if i == t {
        } else {
            match pre[i].parent {
                Some(p) => {
                    lemma_cancel_propagates(pre, post, t, p as int);
                },
                None => {},
            }
        }
    }
}

} // verus!
