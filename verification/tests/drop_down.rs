use yew_utils::components::drop_down::{DropDown, DropDownProps, Msg, ONCHANGE_HANDLE};
use yew_utils::node::Node;

fn props() -> DropDownProps<String> {
    DropDownProps {
        initial: "item 1".to_string(),
        options: vec!["item 1".to_string(), "item 2".to_string(), "item 3".to_string()],
        class_css: None,
    }
}

fn elem(n: &Node) -> &yew_utils::node::ElementNode {
    match n {
        Node::Element(e) => e,
        _ => panic!("expected an element node"),
    }
}

#[test]
fn selecting_index_one_updates_state_and_notifies_once() {
    let p = props();
    let mut dd = DropDown::create(&p);
    let (rerender, notification) = dd.update(&p.options, Msg::SelectionChanged(1));
    assert_eq!(dd.selected, "item 2");
    assert!(rerender);
    assert_eq!(notification, Some("item 2".to_string()));
}

#[test]
fn selecting_out_of_range_index_is_a_no_op() {
    let p = props();
    let mut dd = DropDown::create(&p);
    let (rerender, notification) = dd.update(&p.options, Msg::SelectionChanged(3));
    assert_eq!(dd.selected, "item 1");
    assert!(!rerender);
    assert_eq!(notification, None);
}

#[test]
fn initial_selection_survives_re_renders_without_interaction() {
    let p = props();
    let dd = DropDown::create(&p);
    assert_eq!(dd.selected, "item 1");
    for _ in 0..4 {
        let _ = DropDown::view_plain(&dd.selected, &p.options, &p.class_css);
        let _ = DropDown::view_styled(&dd.selected, &p.options);
    }
    assert_eq!(dd.selected, "item 1");
}

#[test]
fn plain_view_marks_only_the_selected_option() {
    let p = props();
    let dd = DropDown::create(&p);
    let n = DropDown::view_plain(&dd.selected, &p.options, &p.class_css);
    let select = elem(&n);
    assert_eq!(select.tag, "select");
    assert_eq!(select.attrs, vec![("class".to_string(), "".to_string())]);
    assert_eq!(select.listeners, vec![("onchange".to_string(), ONCHANGE_HANDLE)]);
    assert_eq!(select.children.len(), 3);
    for (i, child) in select.children.iter().enumerate() {
        let opt = elem(child);
        assert_eq!(opt.tag, "option");
        let value = format!("item {}", i + 1);
        assert_eq!(opt.attrs[0], ("value".to_string(), value.clone()));
        if i == 0 {
            assert_eq!(opt.attrs.len(), 2);
            assert_eq!(opt.attrs[1], ("selected".to_string(), "true".to_string()));
        } else {
            assert_eq!(opt.attrs.len(), 1);
        }
        match &opt.children[0] {
            Node::Text(t) => assert_eq!(*t, value),
            _ => panic!("expected option text"),
        }
    }
}

#[test]
fn plain_view_uses_the_given_css_class() {
    let p = DropDownProps {
        initial: "a".to_string(),
        options: vec!["a".to_string()],
        class_css: Some("fancy".to_string()),
    };
    let n = DropDown::view_plain(&p.initial, &p.options, &p.class_css);
    assert_eq!(elem(&n).attrs, vec![("class".to_string(), "fancy".to_string())]);
}

#[test]
fn styled_view_builds_button_and_menu() {
    let p = props();
    let dd = DropDown::create(&p);
    let n = DropDown::view_styled(&dd.selected, &p.options);
    let root = elem(&n);
    assert_eq!(root.tag, "div");
    assert_eq!(root.attrs, vec![("class".to_string(), "mui-dropdown".to_string())]);
    assert_eq!(root.children.len(), 2);

    let button = elem(&root.children[0]);
    assert_eq!(button.tag, "button");
    match &button.children[0] {
        Node::Text(t) => assert_eq!(*t, "item 1"),
        _ => panic!("expected the selected value as button text"),
    }
    let caret = elem(&button.children[1]);
    assert_eq!(caret.tag, "span");
    assert_eq!(caret.attrs, vec![("class".to_string(), "mui-caret".to_string())]);

    let menu = elem(&root.children[1]);
    assert_eq!(menu.tag, "ul");
    assert_eq!(menu.children.len(), 3);
    for (i, item) in menu.children.iter().enumerate() {
        let li = elem(item);
        assert_eq!(li.tag, "li");
        let link = elem(&li.children[0]);
        assert_eq!(link.tag, "a");
        assert_eq!(link.attrs, vec![("href".to_string(), "".to_string())]);
        assert_eq!(link.listeners, vec![("onclick".to_string(), i as u64)]);
        match &link.children[0] {
            Node::Text(t) => assert_eq!(*t, format!("item {}", i + 1)),
            _ => panic!("expected option text in the link"),
        }
    }
}

#[test]
fn styled_strategy_click_follows_same_state_machine() {
    // The styled menu reports the clicked entry through its listener
    // handle, which is the option index: feeding that index to the state
    // machine gives the same result as the plain strategy.
    let p = props();
    let mut dd = DropDown::create(&p);
    let n = DropDown::view_styled(&dd.selected, &p.options);
    let root = elem(&n);
    let menu = elem(&root.children[1]);
    let li = elem(&menu.children[2]);
    let link = elem(&li.children[0]);
    let handle = link.listeners[0].1;
    let (rerender, notification) = dd.update(&p.options, Msg::SelectionChanged(handle as usize));
    assert!(rerender);
    assert_eq!(notification, Some("item 3".to_string()));
    assert_eq!(dd.selected, "item 3");
}
