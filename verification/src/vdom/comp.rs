//! The component-reference builder.
//!
//! A component reference embeds a host-managed widget instance in the tree.
//! The component's identity and its properties value are handed to the host
//! glue outside this crate; the tree itself records the optional
//! reconciliation key (and, for wrapper components, child nodes).

use vstd::prelude::*;

use crate::node::{CompNode, Node};

verus! {

/// A builder for one component-reference node.
pub struct Comp {
    node: CompNode,
}

impl View for Comp {
    type V = CompNode;

    closed spec fn view(&self) -> CompNode {
        self.node
    }
}

impl Comp {
    /// Starts a component-reference builder with no key and no children.
    pub fn new() -> (r: Self)
        ensures
            r@.key is None,
            r@.children@ == Seq::<Node>::empty(),
    {
        Comp { node: CompNode { key: None, children: Vec::new() } }
    }

    /// Sets the reconciliation key.
    #[must_use]
    pub fn key(self, key: &str) -> (r: Self)
        ensures
            r@.children == self@.children,
            r@.key is Some,
            r@.key->0@ == key@,
    {
        let mut s = self;
        s.node.key = Some(key.to_owned());
        s
    }

    /// Finalizes the builder into an immutable component-reference node,
    /// consuming it.
    #[must_use]
    pub fn to_vnode(self) -> (r: Node)
        ensures
            r == Node::Comp(self@),
    {
        Node::Comp(self.node)
    }
}

} // verus!
