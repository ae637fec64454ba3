use yew_utils::decimal::{i32_to_string, u64_to_string};
use yew_utils::node::Node;
use yew_utils::vdom::{checkbox, div, input, slider, span, tag, text, Comp, Link};

fn elem(n: &Node) -> &yew_utils::node::ElementNode {
    match n {
        Node::Element(e) => e,
        _ => panic!("expected an element node"),
    }
}

fn text_of(n: &Node) -> &str {
    match n {
        Node::Text(t) => t.as_str(),
        _ => panic!("expected a text node"),
    }
}

#[test]
fn append_order_matches_call_order() {
    let n = div()
        .append(text("a").to_vnode())
        .append_all(vec![text("b").to_vnode(), text("c").to_vnode()])
        .append(text("d").to_vnode())
        .to_vnode();
    let e = elem(&n);
    assert_eq!(e.tag, "div");
    let texts: Vec<&str> = e.children.iter().map(text_of).collect();
    assert_eq!(texts, vec!["a", "b", "c", "d"]);
}

#[test]
fn append_all_of_empty_list_keeps_children() {
    let n = div().append(text("a").to_vnode()).append_all(vec![]).to_vnode();
    assert_eq!(elem(&n).children.len(), 1);
}

#[test]
fn attr_last_write_wins_and_keeps_position() {
    let n = tag("p")
        .attr("class", "first")
        .attr("id", "x")
        .attr("class", "second")
        .to_vnode();
    let e = elem(&n);
    assert_eq!(e.attrs.len(), 2);
    assert_eq!(e.attrs[0], ("class".to_string(), "second".to_string()));
    assert_eq!(e.attrs[1], ("id".to_string(), "x".to_string()));
}

#[test]
fn distinct_attrs_keep_write_order() {
    let n = span().attr("a", "1").attr("b", "2").attr("c", "3").to_vnode();
    let keys: Vec<&str> = elem(&n).attrs.iter().map(|a| a.0.as_str()).collect();
    assert_eq!(keys, vec!["a", "b", "c"]);
}

#[test]
fn class_id_style_set_their_attributes() {
    let n = div().class("c").id("i").style("s").to_vnode();
    let e = elem(&n);
    assert_eq!(
        e.attrs,
        vec![
            ("class".to_string(), "c".to_string()),
            ("id".to_string(), "i".to_string()),
            ("style".to_string(), "s".to_string()),
        ]
    );
}

#[test]
fn key_sets_reconciliation_key() {
    let n = div().key("row-7").to_vnode();
    assert_eq!(elem(&n).key.as_deref(), Some("row-7"));
    let m = div().to_vnode();
    assert!(elem(&m).key.is_none());
}

#[test]
fn text_method_appends_text_child() {
    let n = tag("label").text("hello").text("world").to_vnode();
    let e = elem(&n);
    assert_eq!(e.children.len(), 2);
    assert_eq!(text_of(&e.children[0]), "hello");
    assert_eq!(text_of(&e.children[1]), "world");
}

#[test]
fn listener_list_grows_beyond_five_registrations() {
    // More registrations than the historic fixed capacity: all are kept,
    // in order, and nothing aborts.
    let n = div()
        .listener("onclick", 1)
        .listener("onchange", 2)
        .listener("oninput", 3)
        .listener("onkeydown", 4)
        .listener("onkeyup", 5)
        .listener("onblur", 6)
        .listener("onfocus", 7)
        .to_vnode();
    let e = elem(&n);
    let names: Vec<&str> = e.listeners.iter().map(|l| l.0.as_str()).collect();
    assert_eq!(
        names,
        vec!["onclick", "onchange", "oninput", "onkeydown", "onkeyup", "onblur", "onfocus"]
    );
    assert_eq!(e.listeners[6], ("onfocus".to_string(), 7));
}

#[test]
fn listener_reregistration_overwrites_in_place() {
    let n = div()
        .listener("onclick", 1)
        .listener("onchange", 2)
        .listener("onclick", 9)
        .to_vnode();
    let e = elem(&n);
    assert_eq!(e.listeners.len(), 2);
    assert_eq!(e.listeners[0], ("onclick".to_string(), 9));
    assert_eq!(e.listeners[1], ("onchange".to_string(), 2));
}

#[test]
fn named_event_helpers_register_their_event() {
    let n = div().onclick(4).onchange(5).to_vnode();
    let e = elem(&n);
    assert_eq!(e.listeners[0], ("onclick".to_string(), 4));
    assert_eq!(e.listeners[1], ("onchange".to_string(), 5));
}

#[test]
fn slider_renders_bounds_and_value_in_decimal() {
    let n = slider(-5, 10, 3).to_vnode();
    let e = elem(&n);
    assert_eq!(e.tag, "input");
    assert_eq!(
        e.attrs,
        vec![
            ("type".to_string(), "range".to_string()),
            ("min".to_string(), "-5".to_string()),
            ("max".to_string(), "10".to_string()),
            ("value".to_string(), "3".to_string()),
        ]
    );
}

#[test]
fn checkbox_is_an_input_of_type_checkbox() {
    let n = checkbox().to_vnode();
    let e = elem(&n);
    assert_eq!(e.tag, "input");
    assert_eq!(e.attrs, vec![("type".to_string(), "checkbox".to_string())]);
}

#[test]
fn input_setters_write_type_value_checked() {
    let n = input().type_password().value("secret").checked(true).to_vnode();
    let e = elem(&n);
    assert_eq!(
        e.attrs,
        vec![
            ("type".to_string(), "password".to_string()),
            ("value".to_string(), "secret".to_string()),
            ("checked".to_string(), "true".to_string()),
        ]
    );
}

#[test]
fn input_type_can_be_overwritten() {
    let n = input().type_text().type_url().to_vnode();
    assert_eq!(elem(&n).attrs, vec![("type".to_string(), "url".to_string())]);
}

#[test]
fn comp_builder_records_key() {
    let n = Comp::new().key("widget-1").to_vnode();
    match n {
        Node::Comp(c) => {
            assert_eq!(c.key.as_deref(), Some("widget-1"));
            assert!(c.children.is_empty());
        }
        _ => panic!("expected a component node"),
    }
}

#[test]
fn link_children_keep_append_order() {
    let n = Link::new()
        .append_all(vec![text("one").to_vnode(), text("two").to_vnode()])
        .append_all(vec![text("three").to_vnode()])
        .to_vnode();
    match n {
        Node::Comp(c) => {
            assert!(c.key.is_none());
            let texts: Vec<&str> = c.children.iter().map(text_of).collect();
            assert_eq!(texts, vec!["one", "two", "three"]);
        }
        _ => panic!("expected a component node"),
    }
}

#[test]
fn text_builder_finalizes_to_text_node() {
    let n = text("hello from component 1").to_vnode();
    assert_eq!(text_of(&n), "hello from component 1");
}

#[test]
fn tag_builder_starts_empty() {
    let n = tag("section").to_vnode();
    let e = elem(&n);
    assert_eq!(e.tag, "section");
    assert!(e.attrs.is_empty());
    assert!(e.children.is_empty());
    assert!(e.key.is_none());
    assert!(e.listeners.is_empty());
}

#[test]
fn decimal_renders_exact_digits() {
    assert_eq!(u64_to_string(0), "0");
    assert_eq!(u64_to_string(7), "7");
    assert_eq!(u64_to_string(10), "10");
    assert_eq!(u64_to_string(123456), "123456");
    assert_eq!(u64_to_string(u64::MAX), "18446744073709551615");
    assert_eq!(i32_to_string(0), "0");
    assert_eq!(i32_to_string(-1), "-1");
    assert_eq!(i32_to_string(i32::MIN), "-2147483648");
    assert_eq!(i32_to_string(i32::MAX), "2147483647");
}
