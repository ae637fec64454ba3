//! The element builder.
//!
//! A [`Tag`] wraps one in-progress element node.  Every configuration call
//! consumes the builder and returns it, so a stale intermediate value cannot
//! be reused; [`Tag::to_vnode`] consumes the builder for good and yields the
//! finalized, immutable [`Node`].
//!
//! Attribute writes and listener registrations are last-write-wins per
//! name: an existing entry keeps its position and takes the new value; a
//! new name is appended.  Children are kept exactly in append order.  The
//! listener list grows dynamically; registering any number of callbacks is
//! supported and none is ever dropped.

use core::marker::PhantomData;
use vstd::prelude::*;

use crate::node::{
    find_key_index, has_entry, lemma_entry_index_unique, lemma_upsert, lookup, upsert, ElementNode,
    Node,
};

verus! {

/// Marker for the ordinary element builder.
pub struct TagTypeDefault;

/// Marker for the `<input>` element builder, which offers extra setters.
pub struct TagTypeInput;

/// The builder-kind marker trait.
pub trait TagType {

}

impl TagType for TagTypeDefault {

}

impl TagType for TagTypeInput {

}

/// A fluent builder for one element node.
pub struct Tag<T: TagType = TagTypeDefault> {
    elem: ElementNode,
    marker: PhantomData<T>,
}

impl<T: TagType> View for Tag<T> {
    type V = ElementNode;

    closed spec fn view(&self) -> ElementNode {
        self.elem
    }
}

/// A freshly created element: the given tag name and nothing else.
pub open spec fn fresh_elem(e: ElementNode, name: Seq<char>) -> bool {
    &&& e.tag@ == name
    &&& e.attrs@ == Seq::<(String, String)>::empty()
    &&& e.children@ == Seq::<Node>::empty()
    &&& e.key is None
    &&& e.listeners@ == Seq::<(String, u64)>::empty()
}

/// `b` differs from `a` at most in its attribute list.
pub open spec fn same_except_attrs(a: ElementNode, b: ElementNode) -> bool {
    &&& b.tag == a.tag
    &&& b.children == a.children
    &&& b.key == a.key
    &&& b.listeners == a.listeners
}

/// `b` differs from `a` at most in its child list.
pub open spec fn same_except_children(a: ElementNode, b: ElementNode) -> bool {
    &&& b.tag == a.tag
    &&& b.attrs == a.attrs
    &&& b.key == a.key
    &&& b.listeners == a.listeners
}

/// `b` differs from `a` at most in its key.
pub open spec fn same_except_key(a: ElementNode, b: ElementNode) -> bool {
    &&& b.tag == a.tag
    &&& b.attrs == a.attrs
    &&& b.children == a.children
    &&& b.listeners == a.listeners
}

/// `b` differs from `a` at most in its listener list.
pub open spec fn same_except_listeners(a: ElementNode, b: ElementNode) -> bool {
    &&& b.tag == a.tag
    &&& b.attrs == a.attrs
    &&& b.children == a.children
    &&& b.key == a.key
}

impl<T: TagType> Tag<T> {
    /// Starts a builder for an element with the given tag name.
    pub(crate) fn new(tag: &str) -> (r: Self)
        ensures
            fresh_elem(r@, tag@),
            r@.wf(),
    {
        Tag {
            elem: ElementNode {
                tag: tag.to_owned(),
                attrs: Vec::new(),
                children: Vec::new(),
                key: None,
                listeners: Vec::new(),
            },
            marker: PhantomData,
        }
    }

    /// Finalizes the builder into an immutable element node.  The builder
    /// is consumed; it cannot be used again afterwards.
    #[must_use]
    pub fn to_vnode(self) -> (r: Node)
        ensures
            r == Node::Element(self@),
    {
        Node::Element(self.elem)
    }

    /// Adds the attribute `key = value`; if `key` is already set, its value
    /// is overwritten in place (last write wins).
    #[must_use]
    pub fn attr(self, key: &str, value: &str) -> (r: Self)
        requires
            self@.wf(),
        ensures
            r@.wf(),
            same_except_attrs(self@, r@),
            r@.attrs_v() == upsert(self@.attrs_v(), key@, value@),
            lookup(r@.attrs_v(), key@) == Some(value@),
            forall|k2: Seq<char>|
                k2 != key@ ==> lookup(r@.attrs_v(), k2) == lookup(self@.attrs_v(), k2),
    {
        let mut s = self;
        let k = key.to_owned();
        let v = value.to_owned();
        let ghost entries = s.elem.attrs@;
        let ghost before = s.elem.attrs_v();
        match find_key_index(&s.elem.attrs, &k) {
            Some(i) => {
                s.elem.attrs[i].1 = v;
                proof {
                    assert(before[i as int] == (entries[i as int].0@, entries[i as int].1@));
                    assert(has_entry(before, key@));
                    lemma_entry_index_unique(before, key@);
                    assert(crate::node::entry_index(before, key@) == i as int);
                    assert(s.elem.attrs_v() =~= upsert(before, key@, value@));
                }
            },
            None => {
                s.elem.attrs.push((k, v));
                proof {
                    assert forall|j: int| 0 <= j < before.len() implies before[j].0 != key@ by {
                        assert(before[j] == (entries[j].0@, entries[j].1@));
                    }
                    assert(!has_entry(before, key@));
                    assert(s.elem.attrs_v() =~= upsert(before, key@, value@));
                }
            },
        }
        proof {
            lemma_upsert(before, key@, value@);
        }
        s
    }

    /// Sets the `class` attribute (last write wins).
    #[must_use]
    pub fn class(self, class: &str) -> (r: Self)
        requires
            self@.wf(),
        ensures
            r@.wf(),
            same_except_attrs(self@, r@),
            r@.attrs_v() == upsert(self@.attrs_v(), "class"@, class@),
            lookup(r@.attrs_v(), "class"@) == Some(class@),
            forall|k2: Seq<char>|
                k2 != "class"@ ==> lookup(r@.attrs_v(), k2) == lookup(self@.attrs_v(), k2),
    {
        self.attr("class", class)
    }

    /// Sets the `id` attribute (last write wins).
    #[must_use]
    pub fn id(self, id: &str) -> (r: Self)
        requires
            self@.wf(),
        ensures
            r@.wf(),
            same_except_attrs(self@, r@),
            r@.attrs_v() == upsert(self@.attrs_v(), "id"@, id@),
            lookup(r@.attrs_v(), "id"@) == Some(id@),
            forall|k2: Seq<char>|
                k2 != "id"@ ==> lookup(r@.attrs_v(), k2) == lookup(self@.attrs_v(), k2),
    {
        self.attr("id", id)
    }

    /// Sets the `style` attribute (last write wins).
    #[must_use]
    pub fn style(self, style: &str) -> (r: Self)
        requires
            self@.wf(),
        ensures
            r@.wf(),
            same_except_attrs(self@, r@),
            r@.attrs_v() == upsert(self@.attrs_v(), "style"@, style@),
            lookup(r@.attrs_v(), "style"@) == Some(style@),
            forall|k2: Seq<char>|
                k2 != "style"@ ==> lookup(r@.attrs_v(), k2) == lookup(self@.attrs_v(), k2),
    {
        self.attr("style", style)
    }

    /// Sets the reconciliation key the host renderer uses to match this
    /// node across re-renders.
    #[must_use]
    pub fn key(self, key: &str) -> (r: Self)
        ensures
            same_except_key(self@, r@),
            r@.key is Some,
            r@.key->0@ == key@,
    {
        let mut s = self;
        s.elem.key = Some(key.to_owned());
        s
    }

    /// Appends one child node; children stay in append order.
    #[must_use]
    pub fn append(self, node: Node) -> (r: Self)
        ensures
            same_except_children(self@, r@),
            r@.children@ == self@.children@.push(node),
    {
        let mut s = self;
        s.elem.children.push(node);
        s
    }

    /// Appends all given nodes, in order, after the existing children.
    #[must_use]
    pub fn append_all(self, nodes: Vec<Node>) -> (r: Self)
        ensures
            same_except_children(self@, r@),
            r@.children@ == self@.children@ + nodes@,
    {
        let mut s = self;
        let mut rest = nodes;
        s.elem.children.append(&mut rest);
        s
    }

    /// Appends a text child holding `text`.
    #[must_use]
    pub fn text(self, text: &str) -> (r: Self)
        ensures
            same_except_children(self@, r@),
            r@.children@.len() == self@.children@.len() + 1,
            r@.children@.take(self@.children@.len() as int) == self@.children@,
            r@.children@.last().is_text(text@),
    {
        let mut s = self;
        s.elem.children.push(Node::Text(text.to_owned()));
        proof {
            assert(s.elem.children@.take(self@.children@.len() as int) =~= self@.children@);
        }
        s
    }

    /// Registers the callback handle for `event`; re-registering an event
    /// name overwrites its handle in place (last registration wins).  The
    /// listener list is dynamically sized: any number of registrations is
    /// accepted.
    #[must_use]
    pub fn listener(self, event: &str, handle: u64) -> (r: Self)
        requires
            self@.wf(),
        ensures
            r@.wf(),
            same_except_listeners(self@, r@),
            r@.listeners_v() == upsert(self@.listeners_v(), event@, handle),
            lookup(r@.listeners_v(), event@) == Some(handle),
            forall|k2: Seq<char>|
                k2 != event@ ==> lookup(r@.listeners_v(), k2) == lookup(self@.listeners_v(), k2),
    {
        let mut s = self;
        let k = event.to_owned();
        let ghost entries = s.elem.listeners@;
        let ghost before = s.elem.listeners_v();
        match find_key_index(&s.elem.listeners, &k) {
            Some(i) => {
                s.elem.listeners[i].1 = handle;
                proof {
                    assert(before[i as int] == (entries[i as int].0@, entries[i as int].1));
                    assert(has_entry(before, event@));
                    lemma_entry_index_unique(before, event@);
                    assert(crate::node::entry_index(before, event@) == i as int);
                    assert(s.elem.listeners_v() =~= upsert(before, event@, handle));
                }
            },
            None => {
                s.elem.listeners.push((k, handle));
                proof {
                    assert forall|j: int| 0 <= j < before.len() implies before[j].0 != event@ by {
                        assert(before[j] == (entries[j].0@, entries[j].1));
                    }
                    assert(!has_entry(before, event@));
                    assert(s.elem.listeners_v() =~= upsert(before, event@, handle));
                }
            },
        }
        proof {
            lemma_upsert(before, event@, handle);
        }
        s
    }

    /// Registers the callback handle for the `onclick` event.
    #[must_use]
    pub fn onclick(self, handle: u64) -> (r: Self)
        requires
            self@.wf(),
        ensures
            r@.wf(),
            same_except_listeners(self@, r@),
            r@.listeners_v() == upsert(self@.listeners_v(), "onclick"@, handle),
    {
        self.listener("onclick", handle)
    }

    /// Registers the callback handle for the `onchange` event.
    #[must_use]
    pub fn onchange(self, handle: u64) -> (r: Self)
        requires
            self@.wf(),
        ensures
            r@.wf(),
            same_except_listeners(self@, r@),
            r@.listeners_v() == upsert(self@.listeners_v(), "onchange"@, handle),
    {
        self.listener("onchange", handle)
    }

    /// Registers the callback handle for the `oninput` event.
    #[must_use]
    pub fn oninput(self, handle: u64) -> (r: Self)
        requires
            self@.wf(),
        ensures
            r@.wf(),
            same_except_listeners(self@, r@),
            r@.listeners_v() == upsert(self@.listeners_v(), "oninput"@, handle),
    {
        self.listener("oninput", handle)
    }

    /// Registers the callback handle for the `onblur` event.
    #[must_use]
    pub fn onblur(self, handle: u64) -> (r: Self)
        requires
            self@.wf(),
        ensures
            r@.wf(),
            same_except_listeners(self@, r@),
            r@.listeners_v() == upsert(self@.listeners_v(), "onblur"@, handle),
    {
        self.listener("onblur", handle)
    }

    /// Registers the callback handle for the `onfocus` event.
    #[must_use]
    pub fn onfocus(self, handle: u64) -> (r: Self)
        requires
            self@.wf(),
        ensures
            r@.wf(),
            same_except_listeners(self@, r@),
            r@.listeners_v() == upsert(self@.listeners_v(), "onfocus"@, handle),
    {
        self.listener("onfocus", handle)
    }

    /// Registers the callback handle for the `onkeydown` event.
    #[must_use]
    pub fn onkeydown(self, handle: u64) -> (r: Self)
        requires
            self@.wf(),
        ensures
            r@.wf(),
            same_except_listeners(self@, r@),
            r@.listeners_v() == upsert(self@.listeners_v(), "onkeydown"@, handle),
    {
        self.listener("onkeydown", handle)
    }

    /// Registers the callback handle for the `onkeyup` event.
    #[must_use]
    pub fn onkeyup(self, handle: u64) -> (r: Self)
        requires
            self@.wf(),
        ensures
            r@.wf(),
            same_except_listeners(self@, r@),
            r@.listeners_v() == upsert(self@.listeners_v(), "onkeyup"@, handle),
    {
        self.listener("onkeyup", handle)
    }

    /// Registers the callback handle for the `onsubmit` event.
    #[must_use]
    pub fn onsubmit(self, handle: u64) -> (r: Self)
        requires
            self@.wf(),
        ensures
            r@.wf(),
            same_except_listeners(self@, r@),
            r@.listeners_v() == upsert(self@.listeners_v(), "onsubmit"@, handle),
    {
        self.listener("onsubmit", handle)
    }

    /// Registers the callback handle for the `ondblclick` event.
    #[must_use]
    pub fn ondblclick(self, handle: u64) -> (r: Self)
        requires
            self@.wf(),
        ensures
            r@.wf(),
            same_except_listeners(self@, r@),
            r@.listeners_v() == upsert(self@.listeners_v(), "ondblclick"@, handle),
    {
        self.listener("ondblclick", handle)
    }

    /// Registers the callback handle for the `onmouseenter` event.
    #[must_use]
    pub fn onmouseenter(self, handle: u64) -> (r: Self)
        requires
            self@.wf(),
        ensures
            r@.wf(),
            same_except_listeners(self@, r@),
            r@.listeners_v() == upsert(self@.listeners_v(), "onmouseenter"@, handle),
    {
        self.listener("onmouseenter", handle)
    }

    /// Registers the callback handle for the `onmouseleave` event.
    #[must_use]
    pub fn onmouseleave(self, handle: u64) -> (r: Self)
        requires
            self@.wf(),
        ensures
            r@.wf(),
            same_except_listeners(self@, r@),
            r@.listeners_v() == upsert(self@.listeners_v(), "onmouseleave"@, handle),
    {
        self.listener("onmouseleave", handle)
    }

    /// Registers the callback handle for the `onscroll` event.
    #[must_use]
    pub fn onscroll(self, handle: u64) -> (r: Self)
        requires
            self@.wf(),
        ensures
            r@.wf(),
            same_except_listeners(self@, r@),
            r@.listeners_v() == upsert(self@.listeners_v(), "onscroll"@, handle),
    {
        self.listener("onscroll", handle)
    }
}


impl Tag<TagTypeInput> {
    /// Starts a builder for an `<input>` element.
    pub(crate) fn input() -> (r: Self)
        ensures
            fresh_elem(r@, "input"@),
            r@.wf(),
    {
        Tag::new("input")
    }

    /// Sets the `checked` attribute to `"true"` or `"false"` (last write
    /// wins).
    #[must_use]
    pub fn checked(self, checked: bool) -> (r: Self)
        requires
            self@.wf(),
        ensures
            r@.wf(),
            same_except_attrs(self@, r@),
            r@.attrs_v() == upsert(
                self@.attrs_v(),
                "checked"@,
                if checked { "true"@ } else { "false"@ },
            ),
            lookup(r@.attrs_v(), "checked"@) == Some(
                if checked { "true"@ } else { "false"@ },
            ),
    {
        if checked {
            self.attr("checked", "true")
        } else {
            self.attr("checked", "false")
        }
    }

    /// Sets the `value` attribute (last write wins).
    #[must_use]
    pub fn value(self, value: &str) -> (r: Self)
        requires
            self@.wf(),
        ensures
            r@.wf(),
            same_except_attrs(self@, r@),
            r@.attrs_v() == upsert(self@.attrs_v(), "value"@, value@),
            lookup(r@.attrs_v(), "value"@) == Some(value@),
            forall|k2: Seq<char>|
                k2 != "value"@ ==> lookup(r@.attrs_v(), k2) == lookup(self@.attrs_v(), k2),
    {
        self.attr("value", value)
    }

    /// Sets the `type` attribute to `"button"`.
    #[must_use]
    pub fn type_button(self) -> (r: Self)
        requires
            self@.wf(),
        ensures
            r@.wf(),
            same_except_attrs(self@, r@),
            r@.attrs_v() == upsert(self@.attrs_v(), "type"@, "button"@),
    {
        self.attr("type", "button")
    }

    /// Sets the `type` attribute to `"checkbox"`.
    #[must_use]
    pub fn type_checkbox(self) -> (r: Self)
        requires
            self@.wf(),
        ensures
            r@.wf(),
            same_except_attrs(self@, r@),
            r@.attrs_v() == upsert(self@.attrs_v(), "type"@, "checkbox"@),
    {
        self.attr("type", "checkbox")
    }

    /// Sets the `type` attribute to `"color"`.
    #[must_use]
    pub fn type_color(self) -> (r: Self)
        requires
            self@.wf(),
        ensures
            r@.wf(),
            same_except_attrs(self@, r@),
            r@.attrs_v() == upsert(self@.attrs_v(), "type"@, "color"@),
    {
        self.attr("type", "color")
    }

    /// Sets the `type` attribute to `"date"`.
    #[must_use]
    pub fn type_date(self) -> (r: Self)
        requires
            self@.wf(),
        ensures
            r@.wf(),
            same_except_attrs(self@, r@),
            r@.attrs_v() == upsert(self@.attrs_v(), "type"@, "date"@),
    {
        self.attr("type", "date")
    }

    /// Sets the `type` attribute to `"datetime"`.
    #[must_use]
    pub fn type_datetime(self) -> (r: Self)
        requires
            self@.wf(),
        ensures
            r@.wf(),
            same_except_attrs(self@, r@),
            r@.attrs_v() == upsert(self@.attrs_v(), "type"@, "datetime"@),
    {
        self.attr("type", "datetime")
    }

    /// Sets the `type` attribute to `"datetime-local"`.
    #[must_use]
    pub fn type_datetime_local(self) -> (r: Self)
        requires
            self@.wf(),
        ensures
            r@.wf(),
            same_except_attrs(self@, r@),
            r@.attrs_v() == upsert(self@.attrs_v(), "type"@, "datetime-local"@),
    {
        self.attr("type", "datetime-local")
    }

    /// Sets the `type` attribute to `"email"`.
    #[must_use]
    pub fn type_email(self) -> (r: Self)
        requires
            self@.wf(),
        ensures
            r@.wf(),
            same_except_attrs(self@, r@),
            r@.attrs_v() == upsert(self@.attrs_v(), "type"@, "email"@),
    {
        self.attr("type", "email")
    }

    /// Sets the `type` attribute to `"file"`.
    #[must_use]
    pub fn type_file(self) -> (r: Self)
        requires
            self@.wf(),
        ensures
            r@.wf(),
            same_except_attrs(self@, r@),
            r@.attrs_v() == upsert(self@.attrs_v(), "type"@, "file"@),
    {
        self.attr("type", "file")
    }

    /// Sets the `type` attribute to `"hidden"`.
    #[must_use]
    pub fn type_hidden(self) -> (r: Self)
        requires
            self@.wf(),
        ensures
            r@.wf(),
            same_except_attrs(self@, r@),
            r@.attrs_v() == upsert(self@.attrs_v(), "type"@, "hidden"@),
    {
        self.attr("type", "hidden")
    }

    /// Sets the `type` attribute to `"image"`.
    #[must_use]
    pub fn type_image(self) -> (r: Self)
        requires
            self@.wf(),
        ensures
            r@.wf(),
            same_except_attrs(self@, r@),
            r@.attrs_v() == upsert(self@.attrs_v(), "type"@, "image"@),
    {
        self.attr("type", "image")
    }

    /// Sets the `type` attribute to `"month"`.
    #[must_use]
    pub fn type_month(self) -> (r: Self)
        requires
            self@.wf(),
        ensures
            r@.wf(),
            same_except_attrs(self@, r@),
            r@.attrs_v() == upsert(self@.attrs_v(), "type"@, "month"@),
    {
        self.attr("type", "month")
    }

    /// Sets the `type` attribute to `"number"`.
    #[must_use]
    pub fn type_number(self) -> (r: Self)
        requires
            self@.wf(),
        ensures
            r@.wf(),
            same_except_attrs(self@, r@),
            r@.attrs_v() == upsert(self@.attrs_v(), "type"@, "number"@),
    {
        self.attr("type", "number")
    }

    /// Sets the `type` attribute to `"password"`.
    #[must_use]
    pub fn type_password(self) -> (r: Self)
        requires
            self@.wf(),
        ensures
            r@.wf(),
            same_except_attrs(self@, r@),
            r@.attrs_v() == upsert(self@.attrs_v(), "type"@, "password"@),
    {
        self.attr("type", "password")
    }

    /// Sets the `type` attribute to `"radio"`.
    #[must_use]
    pub fn type_radio(self) -> (r: Self)
        requires
            self@.wf(),
        ensures
            r@.wf(),
            same_except_attrs(self@, r@),
            r@.attrs_v() == upsert(self@.attrs_v(), "type"@, "radio"@),
    {
        self.attr("type", "radio")
    }

    /// Sets the `type` attribute to `"range"`.
    #[must_use]
    pub fn type_range(self) -> (r: Self)
        requires
            self@.wf(),
        ensures
            r@.wf(),
            same_except_attrs(self@, r@),
            r@.attrs_v() == upsert(self@.attrs_v(), "type"@, "range"@),
    {
        self.attr("type", "range")
    }

    /// Sets the `type` attribute to `"reset"`.
    #[must_use]
    pub fn type_reset(self) -> (r: Self)
        requires
            self@.wf(),
        ensures
            r@.wf(),
            same_except_attrs(self@, r@),
            r@.attrs_v() == upsert(self@.attrs_v(), "type"@, "reset"@),
    {
        self.attr("type", "reset")
    }

    /// Sets the `type` attribute to `"search"`.
    #[must_use]
    pub fn type_search(self) -> (r: Self)
        requires
            self@.wf(),
        ensures
            r@.wf(),
            same_except_attrs(self@, r@),
            r@.attrs_v() == upsert(self@.attrs_v(), "type"@, "search"@),
    {
        self.attr("type", "search")
    }

    /// Sets the `type` attribute to `"submit"`.
    #[must_use]
    pub fn type_submit(self) -> (r: Self)
        requires
            self@.wf(),
        ensures
            r@.wf(),
            same_except_attrs(self@, r@),
            r@.attrs_v() == upsert(self@.attrs_v(), "type"@, "submit"@),
    {
        self.attr("type", "submit")
    }

    /// Sets the `type` attribute to `"tel"`.
    #[must_use]
    pub fn type_tel(self) -> (r: Self)
        requires
            self@.wf(),
        ensures
            r@.wf(),
            same_except_attrs(self@, r@),
            r@.attrs_v() == upsert(self@.attrs_v(), "type"@, "tel"@),
    {
        self.attr("type", "tel")
    }

    /// Sets the `type` attribute to `"text"`.
    #[must_use]
    pub fn type_text(self) -> (r: Self)
        requires
            self@.wf(),
        ensures
            r@.wf(),
            same_except_attrs(self@, r@),
            r@.attrs_v() == upsert(self@.attrs_v(), "type"@, "text"@),
    {
        self.attr("type", "text")
    }

    /// Sets the `type` attribute to `"time"`.
    #[must_use]
    pub fn type_time(self) -> (r: Self)
        requires
            self@.wf(),
        ensures
            r@.wf(),
            same_except_attrs(self@, r@),
            r@.attrs_v() == upsert(self@.attrs_v(), "type"@, "time"@),
    {
        self.attr("type", "time")
    }

    /// Sets the `type` attribute to `"url"`.
    #[must_use]
    pub fn type_url(self) -> (r: Self)
        requires
            self@.wf(),
        ensures
            r@.wf(),
            same_except_attrs(self@, r@),
            r@.attrs_v() == upsert(self@.attrs_v(), "type"@, "url"@),
    {
        self.attr("type", "url")
    }

    /// Sets the `type` attribute to `"week"`.
    #[must_use]
    pub fn type_week(self) -> (r: Self)
        requires
            self@.wf(),
        ensures
            r@.wf(),
            same_except_attrs(self@, r@),
            r@.attrs_v() == upsert(self@.attrs_v(), "type"@, "week"@),
    {
        self.attr("type", "week")
    }

}

} // verus!
