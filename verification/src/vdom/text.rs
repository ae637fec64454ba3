//! The text-node builder.

use vstd::prelude::*;

use crate::node::Node;

verus! {

/// A builder for one text node.
pub struct Text {
    text: String,
}

impl View for Text {
    type V = Seq<char>;

    closed spec fn view(&self) -> Seq<char> {
        self.text@
    }
}

impl Text {
    /// Starts a builder holding the given text.
    pub(crate) fn new(text: &str) -> (r: Self)
        ensures
            r@ == text@,
    {
        Text { text: text.to_owned() }
    }

    /// Finalizes the builder into an immutable text node, consuming it.
    #[must_use]
    pub fn to_vnode(self) -> (r: Node)
        ensures
            r.is_text(self@),
    {
        Node::Text(self.text)
    }
}

} // verus!
