use yew_utils::components::table::Table;
use yew_utils::node::Node;
use yew_utils::vdom::{td, text, tr};

fn elem(n: &Node) -> &yew_utils::node::ElementNode {
    match n {
        Node::Element(e) => e,
        _ => panic!("expected an element node"),
    }
}

#[test]
fn two_columns_five_rows_structure() {
    let columns = vec![text("col1").to_vnode(), text("col2").to_vnode()];
    let mut rows = Vec::new();
    for data in 0..5 {
        let row = tr()
            .key(&data.to_string())
            .append_all(vec![
                td().text(&data.to_string()).to_vnode(),
                td().text(&format!("{data} (col2)")).to_vnode(),
            ])
            .to_vnode();
        rows.push(row);
    }
    let n = Table::render(columns, rows);

    let table = elem(&n);
    assert_eq!(table.tag, "table");
    assert_eq!(table.attrs, vec![("class".to_string(), "mui-table".to_string())]);
    assert_eq!(table.children.len(), 2);

    // exactly one header row with one keyed cell per column
    let thead = elem(&table.children[0]);
    assert_eq!(thead.tag, "thead");
    assert_eq!(thead.children.len(), 1);
    let header_row = elem(&thead.children[0]);
    assert_eq!(header_row.tag, "tr");
    assert_eq!(header_row.children.len(), 2);
    for (i, cell) in header_row.children.iter().enumerate() {
        let th = elem(cell);
        assert_eq!(th.tag, "th");
        assert_eq!(th.key.as_deref(), Some(i.to_string().as_str()));
        assert_eq!(th.children.len(), 1);
        match &th.children[0] {
            Node::Text(t) => assert_eq!(*t, format!("col{}", i + 1)),
            _ => panic!("expected the column node inside the header cell"),
        }
    }

    // the body holds the rows unchanged, in input order
    let tbody = elem(&table.children[1]);
    assert_eq!(tbody.tag, "tbody");
    assert_eq!(tbody.children.len(), 5);
    for (i, row) in tbody.children.iter().enumerate() {
        let tr_node = elem(row);
        assert_eq!(tr_node.tag, "tr");
        assert_eq!(tr_node.key.as_deref(), Some(i.to_string().as_str()));
        assert_eq!(tr_node.children.len(), 2);
        match &tr_node.children[0] {
            Node::Text(_) => panic!("expected td elements in the row"),
            _ => {}
        }
        let first_cell = elem(&tr_node.children[0]);
        assert_eq!(first_cell.tag, "td");
        match &first_cell.children[0] {
            Node::Text(t) => assert_eq!(*t, i.to_string()),
            _ => panic!("expected the cell text"),
        }
    }
}

#[test]
fn empty_table_still_has_head_and_body() {
    let n = Table::render(Vec::new(), Vec::new());
    let table = elem(&n);
    assert_eq!(table.children.len(), 2);
    let thead = elem(&table.children[0]);
    let header_row = elem(&thead.children[0]);
    assert!(header_row.children.is_empty());
    let tbody = elem(&table.children[1]);
    assert!(tbody.children.is_empty());
}
