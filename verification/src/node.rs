//! The tree model: finalized, immutable virtual-DOM nodes.
//!
//! A [`Node`] is a tagged tree value: an element (tag name, ordered
//! attribute list, ordered child list, optional reconciliation key, ordered
//! listener list), a text node, or a component reference.  Builders in
//! [`crate::vdom`] produce these values; a host renderer consumes them.
//! Nothing here mutates a node after it is finalized.
//!
//! Attribute and listener lists are keyed entry lists in first-write order
//! with distinct keys; writing an existing key overwrites its value in
//! place, so the last write for a key wins while the key keeps its original
//! position.

use vstd::prelude::*;

verus! {

/// A finalized virtual tree node.
#[derive(Debug, PartialEq)]
pub enum Node {
    /// An element with tag name, attributes, children and listeners.
    Element(ElementNode),
    /// A text node.
    Text(String),
    /// A reference to a host-managed component instance.
    Comp(CompNode),
}

/// The element form of a [`Node`].
#[derive(Debug, PartialEq)]
pub struct ElementNode {
    /// Tag name, e.g. `"div"`.
    pub tag: String,
    /// Attributes as (name, value) entries, first-write order, distinct names.
    pub attrs: Vec<(String, String)>,
    /// Child nodes in append order.
    pub children: Vec<Node>,
    /// Optional reconciliation key for the host renderer.
    pub key: Option<String>,
    /// Listener registrations as (event name, callback handle) entries,
    /// first-registration order, distinct event names.  The handle
    /// identifies, to the host glue, which callback to attach.
    pub listeners: Vec<(String, u64)>,
}

/// The component-reference form of a [`Node`]: the component's identity and
/// properties stay with the host glue; the tree records the optional key and
/// any child nodes handed to the component.
#[derive(Debug, PartialEq)]
pub struct CompNode {
    /// Optional reconciliation key for the host renderer.
    pub key: Option<String>,
    /// Child nodes in append order.
    pub children: Vec<Node>,
}

/// View of an attribute list: each entry as (name, value) character sequences.
pub open spec fn attrs_view(s: Seq<(String, String)>) -> Seq<(Seq<char>, Seq<char>)> {
    s.map(|i: int, e: (String, String)| (e.0@, e.1@))
}

/// View of a listener list: each entry as (event name, callback handle).
pub open spec fn listeners_view(s: Seq<(String, u64)>) -> Seq<(Seq<char>, u64)> {
    s.map(|i: int, e: (String, u64)| (e.0@, e.1))
}

/// Whether some entry of `s` has key `k`.
pub open spec fn has_entry<V>(s: Seq<(Seq<char>, V)>, k: Seq<char>) -> bool {
    exists|i: int| 0 <= i < s.len() && s[i].0 == k
}

/// The index of the entry with key `k` (meaningful when keys are distinct
/// and `has_entry(s, k)` holds).
pub open spec fn entry_index<V>(s: Seq<(Seq<char>, V)>, k: Seq<char>) -> int {
    choose|i: int| 0 <= i < s.len() && s[i].0 == k
}

/// The value stored under key `k`, if any.
pub open spec fn lookup<V>(s: Seq<(Seq<char>, V)>, k: Seq<char>) -> Option<V> {
    if has_entry(s, k) {
        Some(s[entry_index(s, k)].1)
    } else {
        None
    }
}

/// Insert-or-overwrite: if `k` is present its value becomes `v` (the entry
/// keeps its position); otherwise `(k, v)` is appended.
pub open spec fn upsert<V>(s: Seq<(Seq<char>, V)>, k: Seq<char>, v: V) -> Seq<(Seq<char>, V)> {
    if has_entry(s, k) {
        s.update(entry_index(s, k), (k, v))
    } else {
        s.push((k, v))
    }
}

/// All entry keys are pairwise distinct.
pub open spec fn distinct_keys<V>(s: Seq<(Seq<char>, V)>) -> bool {
    forall|i: int, j: int| 0 <= i < j < s.len() ==> s[i].0 != s[j].0
}

impl ElementNode {
    /// View of this element's attribute list.
    pub open spec fn attrs_v(&self) -> Seq<(Seq<char>, Seq<char>)> {
        attrs_view(self.attrs@)
    }

    /// View of this element's listener list.
    pub open spec fn listeners_v(&self) -> Seq<(Seq<char>, u64)> {
        listeners_view(self.listeners@)
    }

    /// Well-formedness: attribute names and event names are distinct.
    pub open spec fn wf(&self) -> bool {
        &&& distinct_keys(self.attrs_v())
        &&& distinct_keys(self.listeners_v())
    }
}

impl Node {
    /// This node is a text node holding exactly `s`.
    pub open spec fn is_text(&self, s: Seq<char>) -> bool {
        &&& *self matches Node::Text(t)
        &&& (*self)->Text_0@ == s
    }
}

/// When `k` is present in a distinct-key list, [`entry_index`] names the one
/// and only index holding it.
pub proof fn lemma_entry_index_unique<V>(s: Seq<(Seq<char>, V)>, k: Seq<char>)
    requires
        distinct_keys(s),
        has_entry(s, k),
    ensures
        0 <= entry_index(s, k) < s.len(),
        s[entry_index(s, k)].0 == k,
        forall|i: int| 0 <= i < s.len() && s[i].0 == k ==> i == entry_index(s, k),
{
    let w = entry_index(s, k);
    assert(0 <= w < s.len() && s[w].0 == k);
    assert forall|i: int| 0 <= i < s.len() && s[i].0 == k implies i == w by {
        if i != w {
            if i < w {
                assert(s[i].0 != s[w].0);
            } else {
                assert(s[w].0 != s[i].0);
            }
        }
    }
}

/// Overwriting or inserting preserves key distinctness, stores `v` under
/// `k`, and leaves every other key's value untouched.
pub proof fn lemma_upsert<V>(s: Seq<(Seq<char>, V)>, k: Seq<char>, v: V)
    requires
        distinct_keys(s),
    ensures
        distinct_keys(upsert(s, k, v)),
        lookup(upsert(s, k, v), k) == Some(v),
        forall|k2: Seq<char>| k2 != k ==> lookup(upsert(s, k, v), k2) == lookup::<V>(s, k2),
        has_entry(s, k) ==> upsert(s, k, v).len() == s.len(),
        !has_entry(s, k) ==> upsert(s, k, v).len() == s.len() + 1,
{
    let t = upsert(s, k, v);
    if has_entry(s, k) {
        let w = entry_index(s, k);
        lemma_entry_index_unique(s, k);
        assert(t == s.update(w, (k, v)));
        assert forall|i: int, j: int| 0 <= i < j < t.len() implies t[i].0 != t[j].0 by {
            assert(t[i].0 == s[i].0);
            assert(t[j].0 == s[j].0);
        }
        assert(t[w].0 == k);
        lemma_entry_index_unique(t, k);
        assert(entry_index(t, k) == w);
        assert forall|k2: Seq<char>| k2 != k implies lookup(t, k2) == lookup::<V>(s, k2) by {
            lemma_lookup_frame(s, t, k, k2);
        }
    } else {
        assert(t == s.push((k, v)));
        assert forall|i: int, j: int| 0 <= i < j < t.len() implies t[i].0 != t[j].0 by {
            if j < s.len() {
                assert(t[i].0 == s[i].0);
                assert(t[j].0 == s[j].0);
            } else {
                assert(t[j].0 == k);
                assert(t[i].0 == s[i].0);
                assert(!(s[i].0 == k));
            }
        }
        assert(t[s.len() as int].0 == k);
        lemma_entry_index_unique(t, k);
        assert(lookup(t, k) == Some(v));
        assert forall|k2: Seq<char>| k2 != k implies lookup(t, k2) == lookup::<V>(s, k2) by {
            lemma_lookup_frame(s, t, k, k2);
        }
    }
}

/// Helper for [`lemma_upsert`]: if `t` agrees with `s` on every entry whose
/// key is not `k`, and the two lists pair the same indices outside `k`'s
/// entry, lookups at other keys agree.
proof fn lemma_lookup_frame<V>(
    s: Seq<(Seq<char>, V)>,
    t: Seq<(Seq<char>, V)>,
    k: Seq<char>,
    k2: Seq<char>,
)
    requires
        distinct_keys(s),
        distinct_keys(t),
        k2 != k,
        forall|i: int| 0 <= i < s.len() && s[i].0 != k ==> i < t.len() && t[i] == s[i],
        forall|i: int| 0 <= i < t.len() && t[i].0 != k ==> i < s.len() && s[i] == t[i],
    ensures
        lookup(t, k2) == lookup::<V>(s, k2),
{
    if has_entry(s, k2) {
        let w = entry_index(s, k2);
        lemma_entry_index_unique(s, k2);
        assert(t[w] == s[w]);
        assert(has_entry(t, k2));
        lemma_entry_index_unique(t, k2);
        assert(entry_index(t, k2) == w);
    } else {
        if has_entry(t, k2) {
            let w = entry_index(t, k2);
            assert(0 <= w < t.len() && t[w].0 == k2);
            assert(s[w].0 == k2);
        }
    }
}

/// Last write wins: writing key `k` twice leaves exactly the state of
/// writing only the second value.
///
/// A finalized node therefore reflects only the last value written for any
/// attribute name (and, likewise, only the last callback handle registered
/// for any event name).
pub proof fn lemma_last_write_wins<V>(s: Seq<(Seq<char>, V)>, k: Seq<char>, v1: V, v2: V)
    requires
        distinct_keys(s),
    ensures
        upsert(upsert(s, k, v1), k, v2) == upsert(s, k, v2),
{
    let t1 = upsert(s, k, v1);
    lemma_upsert(s, k, v1);
    if has_entry(s, k) {
        let w = entry_index(s, k);
        lemma_entry_index_unique(s, k);
        assert(t1 == s.update(w, (k, v1)));
        assert(t1[w].0 == k);
        assert(has_entry(t1, k));
        lemma_entry_index_unique(t1, k);
        assert(entry_index(t1, k) == w);
        assert(upsert(t1, k, v2) =~= upsert(s, k, v2));
    } else {
        let n = s.len() as int;
        assert(t1 == s.push((k, v1)));
        assert(t1[n].0 == k);
        assert(has_entry(t1, k));
        lemma_entry_index_unique(t1, k);
        assert(entry_index(t1, k) == n);
        assert(upsert(t1, k, v2) =~= upsert(s, k, v2));
    }
}

/// The child list after a sequence of append calls: each batch is the
/// contribution of one call — a single appended node is a one-element
/// batch, an append-all call contributes its whole node list.
pub open spec fn apply_appends(start: Seq<Node>, batches: Seq<Seq<Node>>) -> Seq<Node>
    decreases batches.len(),
{
    if batches.len() == 0 {
        start
    } else {
        apply_appends(start + batches[0], batches.drop_first())
    }
}

/// Append ordering: for every sequence of append / append-all calls, the
/// resulting child order is exactly the initial children followed by the
/// appended nodes in call order — nothing is reordered, dropped or added.
pub proof fn lemma_append_order(start: Seq<Node>, batches: Seq<Seq<Node>>)
    ensures
        apply_appends(start, batches) == start + batches.flatten(),
    decreases batches.len(),
{
    if batches.len() == 0 {
        assert(batches.flatten() =~= Seq::<Node>::empty());
        assert(apply_appends(start, batches) =~= start + batches.flatten());
    } else {
        lemma_append_order(start + batches[0], batches.drop_first());
        assert(batches.flatten() == batches.first() + batches.drop_first().flatten());
        assert(apply_appends(start, batches) =~= start + batches.flatten());
    }
}

/// Finds the first entry whose key equals `key`, if any.
pub(crate) fn find_key_index<X>(entries: &Vec<(String, X)>, key: &String) -> (r: Option<usize>)
    ensures
        match r {
            Some(i) => {
                &&& i < entries@.len()
                &&& entries@[i as int].0@ == key@
                &&& forall|j: int| 0 <= j < i ==> entries@[j].0@ != key@
            },
            None => forall|j: int| 0 <= j < entries@.len() ==> entries@[j].0@ != key@,
        },
{
    let n = entries.len();
    let mut i: usize = 0;
    while i < n
        invariant
            n == entries@.len(),
            i <= n,
            forall|j: int| 0 <= j < i ==> entries@[j].0@ != key@,
        decreases n - i,
    {
        if entries[i].0 == *key {
            return Some(i);
        }
        i = i + 1;
    }
    None
}

} // verus!
