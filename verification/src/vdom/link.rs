//! The navigation-link builder.
//!
//! A link wraps a route value (held by the host glue, outside this crate)
//! and a list of child nodes, and finalizes into a component-reference node
//! that delegates navigation to the host's router.  This builder records
//! the child nodes in append order.

use vstd::prelude::*;

use crate::node::{CompNode, Node};

verus! {

/// A builder for one navigation-link node.
pub struct Link {
    children: Vec<Node>,
}

impl View for Link {
    type V = Seq<Node>;

    closed spec fn view(&self) -> Seq<Node> {
        self.children@
    }
}

impl Link {
    /// Starts a link builder with no children.
    pub fn new() -> (r: Self)
        ensures
            r@ == Seq::<Node>::empty(),
    {
        Link { children: Vec::new() }
    }

    /// Appends all given nodes, in order, after the existing children.
    #[must_use]
    pub fn append_all(self, nodes: Vec<Node>) -> (r: Self)
        ensures
            r@ == self@ + nodes@,
    {
        let mut s = self;
        let mut rest = nodes;
        s.children.append(&mut rest);
        s
    }

    /// Finalizes the builder into a component-reference node carrying the
    /// children, consuming it.
    #[must_use]
    pub fn to_vnode(self) -> (r: Node)
        ensures
            r is Comp,
            r->Comp_0.key is None,
            r->Comp_0.children@ == self@,
    {
        Node::Comp(CompNode { key: None, children: self.children })
    }
}

} // verus!
