//! The table widget: a stateless pass-through layout.
//!
//! Given pre-built header-cell nodes and row nodes, [`Table::render`] wraps
//! the headers in a single header row — each header cell keyed by its
//! position in decimal — and the rows, unchanged and in the order given, in
//! the table body.  No sorting, filtering or pagination happens here;
//! callers wanting stable row identity across reorders supply keys on the
//! row nodes themselves.

use vstd::prelude::*;

use crate::decimal::{dec_digits, u64_to_string};
use crate::node::{lookup, Node};
use crate::vdom::{tag, Tag};

verus! {

/// The table widget; it owns no state.
pub struct Table;

/// The table's construction properties: header-cell nodes and row nodes.
pub struct TableProps {
    /// One node per column header, in column order.
    pub columns: Vec<Node>,
    /// One node per body row, in row order.
    pub children: Vec<Node>,
}

/// One `<th>` header cell: it wraps exactly the given content node and is
/// keyed by its column index in decimal.
pub open spec fn is_header_cell(n: Node, content: Node, idx: nat) -> bool {
    &&& n is Element
    &&& n->Element_0.tag@ == "th"@
    &&& n->Element_0.children@ == seq![content]
    &&& n->Element_0.key matches Some(k) && k@ == dec_digits(idx)
}

impl Table {
    /// Renders the table: a `<table>` holding one `<thead>` with a single
    /// header row of keyed `<th>` cells around the given column nodes, and
    /// one `<tbody>` holding the given row nodes unchanged, in order.
    pub fn render(columns: Vec<Node>, rows: Vec<Node>) -> (n: Node)
        ensures
            n is Element,
            n->Element_0.tag@ == "table"@,
            lookup(n->Element_0.attrs_v(), "class"@) == Some("mui-table"@),
            n->Element_0.children@.len() == 2,
            ({
                let thead = n->Element_0.children@[0];
                &&& thead is Element
                &&& thead->Element_0.tag@ == "thead"@
                &&& thead->Element_0.children@.len() == 1
                &&& ({
                    let hrow = thead->Element_0.children@[0];
                    &&& hrow is Element
                    &&& hrow->Element_0.tag@ == "tr"@
                    &&& hrow->Element_0.children@.len() == columns@.len()
                    &&& forall|i: int|
                        0 <= i < columns@.len() ==> is_header_cell(
                            hrow->Element_0.children@[i],
                            columns@[i],
                            i as nat,
                        )
                })
            }),
            ({
                let tbody = n->Element_0.children@[1];
                &&& tbody is Element
                &&& tbody->Element_0.tag@ == "tbody"@
                &&& tbody->Element_0.children@ == rows@
            }),
    {
        let ghost cols = columns@;
        let mut remaining = columns;
        let mut cells: Vec<Node> = Vec::new();
        let count = remaining.len();
        let mut i: usize = 0;
        while i < count
            invariant
                count == cols.len(),
                i <= count,
                remaining@ == cols.skip(i as int),
                cells@.len() == i,
                forall|j: int| 0 <= j < i ==> is_header_cell(cells@[j], cols[j], j as nat),
            decreases count - i,
        {
            let content = remaining.remove(0);
            proof {
                assert(cols.skip(i as int).remove(0) =~= cols.skip(i as int + 1));
                assert(content == cols[i as int]);
            }
            let key_string = u64_to_string(i as u64);
            let cell: Tag = tag("th").append(content).key(key_string.as_str());
            proof {
                assert(cell@.children@ =~= seq![cols[i as int]]);
            }
            cells.push(cell.to_vnode());
            i = i + 1;
        }
        let header_row: Node = tag("tr").append_all(cells).to_vnode();
        let head: Node = tag("thead").append(header_row).to_vnode();
        let body: Node = tag("tbody").append_all(rows).to_vnode();
        let t = tag("table").class("mui-table").append(head).append(body);
        t.to_vnode()
    }
}

} // verus!
