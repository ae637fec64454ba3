//! The dropdown selector widget.
//!
//! The widget's state is the currently selected value.  A user selection
//! event carries the index of the chosen option; [`DropDown::update`]
//! applies the state machine: an in-range index updates the selection and
//! reports the newly selected value so the host glue can notify the parent
//! and re-render; an out-of-range index is a defined no-op — the state is
//! unchanged, nothing is reported and no re-render is requested.
//!
//! Two render strategies produce the widget's tree behind the same state
//! machine: [`DropDown::view_plain`] renders a native `<select>` element
//! (index-based change detection through its single `onchange` listener),
//! and [`DropDown::view_styled`] renders a styled menu of links, where each
//! entry's `onclick` listener handle is the entry's index.  Which strategy
//! a host uses is a rendering concern only.

use vstd::prelude::*;

use crate::node::{lookup, Node};
use crate::vdom::{tag, Tag};

verus! {

/// The dropdown widget: its only state is the selected value.
pub struct DropDown<T> {
    /// The currently selected value.
    pub selected: T,
}

/// A message to the dropdown: the user selected the option at this index.
pub enum Msg {
    /// Carries the index of the chosen option.
    SelectionChanged(usize),
}

/// The dropdown's construction properties.
pub struct DropDownProps<T> {
    /// The initially selected value (not required to be among the options).
    pub initial: T,
    /// The selectable options, in display order.
    pub options: Vec<T>,
    /// Optional CSS class for the plain render strategy; an absent class
    /// renders as the empty string.
    pub class_css: Option<String>,
}

impl<T: Clone> DropDown<T> {
    /// Creates the widget with the initial selection from its properties.
    pub fn create(props: &DropDownProps<T>) -> (r: Self)
        ensures
            cloned(props.initial, r.selected),
    {
        DropDown { selected: props.initial.clone() }
    }

    /// Applies one selection event.
    ///
    /// Returns `(rerender, notification)`: for an in-range index the
    /// selection becomes (a clone of) the indexed option, the notification
    /// carries that value for the parent's callback, and a re-render is
    /// requested; for an out-of-range index the state is unchanged, no
    /// notification is produced and no re-render is requested.
    pub fn update(&mut self, options: &Vec<T>, msg: Msg) -> (r: (bool, Option<T>))
        ensures
            ({
                let idx = msg->SelectionChanged_0;
                if idx < options@.len() {
                    &&& cloned(options@[idx as int], final(self).selected)
                    &&& r.0 == true
                    &&& r.1 matches Some(v) && cloned(options@[idx as int], v)
                } else {
                    &&& *final(self) == *old(self)
                    &&& r.0 == false
                    &&& r.1 is None
                }
            }),
    {
        match msg {
            Msg::SelectionChanged(idx) => {
                if idx < options.len() {
                    let chosen = &options[idx];
                    self.selected = chosen.clone();
                    (true, Some(chosen.clone()))
                } else {
                    (false, None)
                }
            },
        }
    }
}

/// One `<option>` entry of the plain render: its value attribute and text
/// hold the option, and `selected="true"` is present exactly on the
/// currently selected option.
pub open spec fn is_option_node(n: Node, value: Seq<char>, sel: bool) -> bool {
    &&& n is Element
    &&& n->Element_0.tag@ == "option"@
    &&& n->Element_0.children@.len() == 1
    &&& n->Element_0.children@[0].is_text(value)
    &&& lookup(n->Element_0.attrs_v(), "value"@) == Some(value)
    &&& sel ==> lookup(n->Element_0.attrs_v(), "selected"@) == Some("true"@)
    &&& !sel ==> lookup(n->Element_0.attrs_v(), "selected"@) is None
}

/// One `<li>` entry of the styled render: a link whose text holds the
/// option and whose `onclick` handle is the entry's index.
pub open spec fn is_menu_item_node(n: Node, value: Seq<char>, handle: u64) -> bool {
    &&& n is Element
    &&& n->Element_0.tag@ == "li"@
    &&& n->Element_0.children@.len() == 1
    &&& ({
        let a = n->Element_0.children@[0];
        &&& a is Element
        &&& a->Element_0.tag@ == "a"@
        &&& a->Element_0.children@.len() == 1
        &&& a->Element_0.children@[0].is_text(value)
        &&& lookup(a->Element_0.attrs_v(), "href"@) == Some(""@)
        &&& lookup(a->Element_0.listeners_v(), "onclick"@) == Some(handle)
    })
}

/// The handle under which the plain render registers its single `onchange`
/// listener.
pub const ONCHANGE_HANDLE: u64 = 0;

impl DropDown<String> {
    /// Renders the native `<select>` strategy: one `<option>` per option in
    /// order, the selected one marked, and one `onchange` listener under
    /// [`ONCHANGE_HANDLE`].  The CSS class is taken from `class_css`, or
    /// empty when absent.
    pub fn view_plain(selected: &String, options: &Vec<String>, class_css: &Option<String>) -> (n:
        Node)
        ensures
            n is Element,
            n->Element_0.tag@ == "select"@,
            lookup(n->Element_0.attrs_v(), "class"@) == Some(
                match class_css {
                    Some(c) => c@,
                    None => Seq::<char>::empty(),
                },
            ),
            lookup(n->Element_0.listeners_v(), "onchange"@) == Some(ONCHANGE_HANDLE),
            n->Element_0.children@.len() == options@.len(),
            forall|i: int|
                0 <= i < options@.len() ==> is_option_node(
                    n->Element_0.children@[i],
                    options@[i]@,
                    options@[i]@ == selected@,
                ),
    {
        let ghost opts = options@;
        let mut items: Vec<Node> = Vec::new();
        let count = options.len();
        let mut i: usize = 0;
        while i < count
            invariant
                count == opts.len(),
                opts == options@,
                i <= count,
                items@.len() == i,
                forall|j: int|
                    0 <= j < i ==> is_option_node(items@[j], opts[j]@, opts[j]@ == selected@),
            decreases count - i,
        {
            let opt = &options[i];
            let mut o: Tag = tag("option").attr("value", opt.as_str());
            if *opt == *selected {
                o = o.attr("selected", "true");
            }
            let o = o.text(opt.as_str());
            proof {
                reveal_strlit("value");
                reveal_strlit("selected");
                assert("value"@.len() == 5 && "selected"@.len() == 8);
            }
            items.push(o.to_vnode());
            i = i + 1;
        }
        let mut t: Tag = tag("select");
        match class_css {
            Some(c) => {
                t = t.attr("class", c.as_str());
            },
            None => {
                t = t.attr("class", "");
                proof {
                    reveal_strlit("");
                    assert(""@ =~= Seq::<char>::empty());
                }
            },
        }
        let t = t.listener("onchange", ONCHANGE_HANDLE).append_all(items);
        t.to_vnode()
    }

    /// Renders the styled-menu strategy: a dropdown container whose button
    /// shows the selected value and whose menu holds one link per option,
    /// each link's `onclick` handle being the option's index.
    pub fn view_styled(selected: &String, options: &Vec<String>) -> (n: Node)
        ensures
            n is Element,
            n->Element_0.tag@ == "div"@,
            lookup(n->Element_0.attrs_v(), "class"@) == Some("mui-dropdown"@),
            n->Element_0.children@.len() == 2,
            ({
                let button = n->Element_0.children@[0];
                &&& button is Element
                &&& button->Element_0.tag@ == "button"@
                &&& lookup(button->Element_0.attrs_v(), "class"@) == Some(
                    "mui-btn mui-btn--primary"@,
                )
                &&& lookup(button->Element_0.attrs_v(), "data-mui-toggle"@) == Some("dropdown"@)
                &&& button->Element_0.children@.len() == 2
                &&& button->Element_0.children@[0].is_text(selected@)
                &&& ({
                    let caret = button->Element_0.children@[1];
                    &&& caret is Element
                    &&& caret->Element_0.tag@ == "span"@
                    &&& lookup(caret->Element_0.attrs_v(), "class"@) == Some("mui-caret"@)
                })
            }),
            ({
                let menu = n->Element_0.children@[1];
                &&& menu is Element
                &&& menu->Element_0.tag@ == "ul"@
                &&& lookup(menu->Element_0.attrs_v(), "class"@) == Some("mui-dropdown__menu"@)
                &&& menu->Element_0.children@.len() == options@.len()
                &&& forall|i: int|
                    0 <= i < options@.len() ==> is_menu_item_node(
                        menu->Element_0.children@[i],
                        options@[i]@,
                        i as u64,
                    )
            }),
    {
        let ghost opts = options@;
        let mut items: Vec<Node> = Vec::new();
        let count = options.len();
        let mut i: usize = 0;
        while i < count
            invariant
                count == opts.len(),
                opts == options@,
                i <= count,
                items@.len() == i,
                forall|j: int| 0 <= j < i ==> is_menu_item_node(items@[j], opts[j]@, j as u64),
            decreases count - i,
        {
            let opt = &options[i];
            let link_tag: Tag = tag("a").attr("href", "").listener("onclick", i as u64).text(
                opt.as_str(),
            );
            let item: Tag = tag("li").append(link_tag.to_vnode());
            items.push(item.to_vnode());
            i = i + 1;
        }
        let caret: Node = tag("span").class("mui-caret").to_vnode();
        proof {
            reveal_strlit("class");
            reveal_strlit("data-mui-toggle");
            assert("class"@.len() == 5 && "data-mui-toggle"@.len() == 15);
        }
        let button: Node = tag("button").class("mui-btn mui-btn--primary").attr(
            "data-mui-toggle",
            "dropdown",
        ).text(selected.as_str()).append(caret).to_vnode();
        let menu: Node = tag("ul").class("mui-dropdown__menu").append_all(items).to_vnode();
        let t = tag("div").class("mui-dropdown").append(button).append(menu);
        t.to_vnode()
    }
}

} // verus!
