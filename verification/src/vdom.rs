//! Fluent construction of virtual tree nodes.
//!
//! Free functions start a builder for each standard markup element, for a
//! text node, for an `<input>` element and for component references; the
//! builder types live in the submodules.

pub mod comp;
pub mod link;
pub mod tag;
pub mod text;

pub use comp::Comp;
pub use link::Link;
pub use tag::Tag;
pub use tag::TagType;
pub use tag::TagTypeDefault;
pub use tag::TagTypeInput;
pub use text::Text;

use vstd::prelude::*;

use crate::decimal::{dec_int, i32_to_string};
use crate::node::{upsert, Node};
use crate::vdom::tag::fresh_elem;

verus! {

/// Starts a builder for an element with the given tag name.
pub fn tag(name: &str) -> (t: Tag)
    ensures
        fresh_elem(t@, name@),
        t@.wf(),
{
    Tag::new(name)
}

/// Starts a builder for a text node holding the given text.
pub fn text(value: &str) -> (t: Text)
    ensures
        t@ == value@,
{
    Text::new(value)
}

/// Starts a builder for an `<input>` element.
pub fn input() -> (t: Tag<TagTypeInput>)
    ensures
        fresh_elem(t@, "input"@),
        t@.wf(),
{
    Tag::<TagTypeInput>::input()
}

/// Starts a builder for an `<input type="checkbox">` element.
pub fn checkbox() -> (t: Tag<TagTypeInput>)
    ensures
        t@.wf(),
        t@.tag@ == "input"@,
        t@.children@ == Seq::<Node>::empty(),
        t@.key is None,
        t@.listeners@ == Seq::<(String, u64)>::empty(),
        t@.attrs_v() == seq![("type"@, "checkbox"@)],
{
    let t = input().type_checkbox();
    proof {
        assert(t@.attrs_v() =~= seq![("type"@, "checkbox"@)]);
    }
    t
}

/// Starts a builder for an `<input type="range">` slider with the given
/// bounds and initial value, all rendered in decimal.
pub fn slider(min: i32, max: i32, value: i32) -> (t: Tag<TagTypeInput>)
    ensures
        t@.wf(),
        t@.tag@ == "input"@,
        t@.children@ == Seq::<Node>::empty(),
        t@.key is None,
        t@.listeners@ == Seq::<(String, u64)>::empty(),
        t@.attrs_v() == seq![
            ("type"@, "range"@),
            ("min"@, dec_int(min as int)),
            ("max"@, dec_int(max as int)),
            ("value"@, dec_int(value as int)),
        ],
{
    let min_s = i32_to_string(min);
    let max_s = i32_to_string(max);
    let value_s = i32_to_string(value);
    let t = input().attr("type", "range").attr("min", min_s.as_str()).attr(
        "max",
        max_s.as_str(),
    ).value(value_s.as_str());
    proof {
        reveal_strlit("type");
        reveal_strlit("min");
        reveal_strlit("max");
        reveal_strlit("value");
        let a0 = Seq::<(Seq<char>, Seq<char>)>::empty();
        let a1 = upsert(a0, "type"@, "range"@);
        let a2 = upsert(a1, "min"@, dec_int(min as int));
        let a3 = upsert(a2, "max"@, dec_int(max as int));
        let a4 = upsert(a3, "value"@, dec_int(value as int));
        assert("type"@.len() == 4 && "min"@.len() == 3 && "max"@.len() == 3 && "value"@.len()
            == 5);
        assert("min"@[1] == 'i' && "max"@[1] == 'a');
        assert(a1 =~= seq![("type"@, "range"@)]);
        assert(!crate::node::has_entry(a1, "min"@));
        assert(a2 =~= seq![("type"@, "range"@), ("min"@, dec_int(min as int))]);
        assert(!crate::node::has_entry(a2, "max"@));
        assert(a3 =~= seq![
            ("type"@, "range"@),
            ("min"@, dec_int(min as int)),
            ("max"@, dec_int(max as int)),
        ]);
        assert(!crate::node::has_entry(a3, "value"@));
        assert(a4 =~= seq![
            ("type"@, "range"@),
            ("min"@, dec_int(min as int)),
            ("max"@, dec_int(max as int)),
            ("value"@, dec_int(value as int)),
        ]);
        assert(t@.attrs_v() == a4);
    }
    t
}

/// Starts a component-reference builder; the component's identity and
/// properties are supplied by the host glue when the node is converted.
pub fn comp() -> (c: Comp)
    ensures
        c@.key is None,
        c@.children@ == Seq::<Node>::empty(),
{
    Comp::new()
}

/// Starts a builder for a `<a>` element.
pub fn a() -> (t: Tag)
    ensures
        fresh_elem(t@, "a"@),
        t@.wf(),
{
    tag("a")
}

/// Starts a builder for a `<abbr>` element.
pub fn abbr() -> (t: Tag)
    ensures
        fresh_elem(t@, "abbr"@),
        t@.wf(),
{
    tag("abbr")
}

/// Starts a builder for a `<acronym>` element.
pub fn acronym() -> (t: Tag)
    ensures
        fresh_elem(t@, "acronym"@),
        t@.wf(),
{
    tag("acronym")
}

/// Starts a builder for a `<address>` element.
pub fn address() -> (t: Tag)
    ensures
        fresh_elem(t@, "address"@),
        t@.wf(),
{
    tag("address")
}

/// Starts a builder for a `<applet>` element.
pub fn applet() -> (t: Tag)
    ensures
        fresh_elem(t@, "applet"@),
        t@.wf(),
{
    tag("applet")
}

/// Starts a builder for a `<area>` element.
pub fn area() -> (t: Tag)
    ensures
        fresh_elem(t@, "area"@),
        t@.wf(),
{
    tag("area")
}

/// Starts a builder for a `<article>` element.
pub fn article() -> (t: Tag)
    ensures
        fresh_elem(t@, "article"@),
        t@.wf(),
{
    tag("article")
}

/// Starts a builder for a `<aside>` element.
pub fn aside() -> (t: Tag)
    ensures
        fresh_elem(t@, "aside"@),
        t@.wf(),
{
    tag("aside")
}

/// Starts a builder for a `<audio>` element.
pub fn audio() -> (t: Tag)
    ensures
        fresh_elem(t@, "audio"@),
        t@.wf(),
{
    tag("audio")
}

/// Starts a builder for a `<b>` element.
pub fn b() -> (t: Tag)
    ensures
        fresh_elem(t@, "b"@),
        t@.wf(),
{
    tag("b")
}

/// Starts a builder for a `<base>` element.
pub fn base() -> (t: Tag)
    ensures
        fresh_elem(t@, "base"@),
        t@.wf(),
{
    tag("base")
}

/// Starts a builder for a `<basefont>` element.
pub fn basefont() -> (t: Tag)
    ensures
        fresh_elem(t@, "basefont"@),
        t@.wf(),
{
    tag("basefont")
}

/// Starts a builder for a `<bdi>` element.
pub fn bdi() -> (t: Tag)
    ensures
        fresh_elem(t@, "bdi"@),
        t@.wf(),
{
    tag("bdi")
}

/// Starts a builder for a `<bdo>` element.
pub fn bdo() -> (t: Tag)
    ensures
        fresh_elem(t@, "bdo"@),
        t@.wf(),
{
    tag("bdo")
}

/// Starts a builder for a `<bgsound>` element.
pub fn bgsound() -> (t: Tag)
    ensures
        fresh_elem(t@, "bgsound"@),
        t@.wf(),
{
    tag("bgsound")
}

/// Starts a builder for a `<big>` element.
pub fn big() -> (t: Tag)
    ensures
        fresh_elem(t@, "big"@),
        t@.wf(),
{
    tag("big")
}

/// Starts a builder for a `<blink>` element.
pub fn blink() -> (t: Tag)
    ensures
        fresh_elem(t@, "blink"@),
        t@.wf(),
{
    tag("blink")
}

/// Starts a builder for a `<blockquote>` element.
pub fn blockquote() -> (t: Tag)
    ensures
        fresh_elem(t@, "blockquote"@),
        t@.wf(),
{
    tag("blockquote")
}

/// Starts a builder for a `<body>` element.
pub fn body() -> (t: Tag)
    ensures
        fresh_elem(t@, "body"@),
        t@.wf(),
{
    tag("body")
}

/// Starts a builder for a `<br>` element.
pub fn br() -> (t: Tag)
    ensures
        fresh_elem(t@, "br"@),
        t@.wf(),
{
    tag("br")
}

/// Starts a builder for a `<button>` element.
pub fn button() -> (t: Tag)
    ensures
        fresh_elem(t@, "button"@),
        t@.wf(),
{
    tag("button")
}

/// Starts a builder for a `<canvas>` element.
pub fn canvas() -> (t: Tag)
    ensures
        fresh_elem(t@, "canvas"@),
        t@.wf(),
{
    tag("canvas")
}

/// Starts a builder for a `<caption>` element.
pub fn caption() -> (t: Tag)
    ensures
        fresh_elem(t@, "caption"@),
        t@.wf(),
{
    tag("caption")
}

/// Starts a builder for a `<center>` element.
pub fn center() -> (t: Tag)
    ensures
        fresh_elem(t@, "center"@),
        t@.wf(),
{
    tag("center")
}

/// Starts a builder for a `<cite>` element.
pub fn cite() -> (t: Tag)
    ensures
        fresh_elem(t@, "cite"@),
        t@.wf(),
{
    tag("cite")
}

/// Starts a builder for a `<code>` element.
pub fn code() -> (t: Tag)
    ensures
        fresh_elem(t@, "code"@),
        t@.wf(),
{
    tag("code")
}

/// Starts a builder for a `<col>` element.
pub fn col() -> (t: Tag)
    ensures
        fresh_elem(t@, "col"@),
        t@.wf(),
{
    tag("col")
}

/// Starts a builder for a `<colgroup>` element.
pub fn colgroup() -> (t: Tag)
    ensures
        fresh_elem(t@, "colgroup"@),
        t@.wf(),
{
    tag("colgroup")
}

/// Starts a builder for a `<content>` element.
pub fn content() -> (t: Tag)
    ensures
        fresh_elem(t@, "content"@),
        t@.wf(),
{
    tag("content")
}

/// Starts a builder for a `<data>` element.
pub fn data() -> (t: Tag)
    ensures
        fresh_elem(t@, "data"@),
        t@.wf(),
{
    tag("data")
}

/// Starts a builder for a `<datalist>` element.
pub fn datalist() -> (t: Tag)
    ensures
        fresh_elem(t@, "datalist"@),
        t@.wf(),
{
    tag("datalist")
}

/// Starts a builder for a `<dd>` element.
pub fn dd() -> (t: Tag)
    ensures
        fresh_elem(t@, "dd"@),
        t@.wf(),
{
    tag("dd")
}

/// Starts a builder for a `<del>` element.
pub fn del() -> (t: Tag)
    ensures
        fresh_elem(t@, "del"@),
        t@.wf(),
{
    tag("del")
}

/// Starts a builder for a `<details>` element.
pub fn details() -> (t: Tag)
    ensures
        fresh_elem(t@, "details"@),
        t@.wf(),
{
    tag("details")
}

/// Starts a builder for a `<dfn>` element.
pub fn dfn() -> (t: Tag)
    ensures
        fresh_elem(t@, "dfn"@),
        t@.wf(),
{
    tag("dfn")
}

/// Starts a builder for a `<dialog>` element.
pub fn dialog() -> (t: Tag)
    ensures
        fresh_elem(t@, "dialog"@),
        t@.wf(),
{
    tag("dialog")
}

/// Starts a builder for a `<dir>` element.
pub fn dir() -> (t: Tag)
    ensures
        fresh_elem(t@, "dir"@),
        t@.wf(),
{
    tag("dir")
}

/// Starts a builder for a `<div>` element.
pub fn div() -> (t: Tag)
    ensures
        fresh_elem(t@, "div"@),
        t@.wf(),
{
    tag("div")
}

/// Starts a builder for a `<dl>` element.
pub fn dl() -> (t: Tag)
    ensures
        fresh_elem(t@, "dl"@),
        t@.wf(),
{
    tag("dl")
}

/// Starts a builder for a `<dt>` element.
pub fn dt() -> (t: Tag)
    ensures
        fresh_elem(t@, "dt"@),
        t@.wf(),
{
    tag("dt")
}

/// Starts a builder for a `<em>` element.
pub fn em() -> (t: Tag)
    ensures
        fresh_elem(t@, "em"@),
        t@.wf(),
{
    tag("em")
}

/// Starts a builder for a `<embed>` element.
pub fn embed() -> (t: Tag)
    ensures
        fresh_elem(t@, "embed"@),
        t@.wf(),
{
    tag("embed")
}

/// Starts a builder for a `<fieldset>` element.
pub fn fieldset() -> (t: Tag)
    ensures
        fresh_elem(t@, "fieldset"@),
        t@.wf(),
{
    tag("fieldset")
}

/// Starts a builder for a `<figcaption>` element.
pub fn figcaption() -> (t: Tag)
    ensures
        fresh_elem(t@, "figcaption"@),
        t@.wf(),
{
    tag("figcaption")
}

/// Starts a builder for a `<figure>` element.
pub fn figure() -> (t: Tag)
    ensures
        fresh_elem(t@, "figure"@),
        t@.wf(),
{
    tag("figure")
}

/// Starts a builder for a `<font>` element.
pub fn font() -> (t: Tag)
    ensures
        fresh_elem(t@, "font"@),
        t@.wf(),
{
    tag("font")
}

/// Starts a builder for a `<footer>` element.
pub fn footer() -> (t: Tag)
    ensures
        fresh_elem(t@, "footer"@),
        t@.wf(),
{
    tag("footer")
}

/// Starts a builder for a `<form>` element.
pub fn form() -> (t: Tag)
    ensures
        fresh_elem(t@, "form"@),
        t@.wf(),
{
    tag("form")
}

/// Starts a builder for a `<frame>` element.
pub fn frame() -> (t: Tag)
    ensures
        fresh_elem(t@, "frame"@),
        t@.wf(),
{
    tag("frame")
}

/// Starts a builder for a `<frameset>` element.
pub fn frameset() -> (t: Tag)
    ensures
        fresh_elem(t@, "frameset"@),
        t@.wf(),
{
    tag("frameset")
}

/// Starts a builder for a `<h1>` element.
pub fn h1() -> (t: Tag)
    ensures
        fresh_elem(t@, "h1"@),
        t@.wf(),
{
    tag("h1")
}

/// Starts a builder for a `<h2>` element.
pub fn h2() -> (t: Tag)
    ensures
        fresh_elem(t@, "h2"@),
        t@.wf(),
{
    tag("h2")
}

/// Starts a builder for a `<h3>` element.
pub fn h3() -> (t: Tag)
    ensures
        fresh_elem(t@, "h3"@),
        t@.wf(),
{
    tag("h3")
}

/// Starts a builder for a `<h4>` element.
pub fn h4() -> (t: Tag)
    ensures
        fresh_elem(t@, "h4"@),
        t@.wf(),
{
    tag("h4")
}

/// Starts a builder for a `<h5>` element.
pub fn h5() -> (t: Tag)
    ensures
        fresh_elem(t@, "h5"@),
        t@.wf(),
{
    tag("h5")
}

/// Starts a builder for a `<h6>` element.
pub fn h6() -> (t: Tag)
    ensures
        fresh_elem(t@, "h6"@),
        t@.wf(),
{
    tag("h6")
}

/// Starts a builder for a `<head>` element.
pub fn head() -> (t: Tag)
    ensures
        fresh_elem(t@, "head"@),
        t@.wf(),
{
    tag("head")
}

/// Starts a builder for a `<header>` element.
pub fn header() -> (t: Tag)
    ensures
        fresh_elem(t@, "header"@),
        t@.wf(),
{
    tag("header")
}

/// Starts a builder for a `<hgroup>` element.
pub fn hgroup() -> (t: Tag)
    ensures
        fresh_elem(t@, "hgroup"@),
        t@.wf(),
{
    tag("hgroup")
}

/// Starts a builder for a `<hr>` element.
pub fn hr() -> (t: Tag)
    ensures
        fresh_elem(t@, "hr"@),
        t@.wf(),
{
    tag("hr")
}

/// Starts a builder for a `<html>` element.
pub fn html() -> (t: Tag)
    ensures
        fresh_elem(t@, "html"@),
        t@.wf(),
{
    tag("html")
}

/// Starts a builder for a `<i>` element.
pub fn i() -> (t: Tag)
    ensures
        fresh_elem(t@, "i"@),
        t@.wf(),
{
    tag("i")
}

/// Starts a builder for a `<iframe>` element.
pub fn iframe() -> (t: Tag)
    ensures
        fresh_elem(t@, "iframe"@),
        t@.wf(),
{
    tag("iframe")
}

/// Starts a builder for a `<image>` element.
pub fn image() -> (t: Tag)
    ensures
        fresh_elem(t@, "image"@),
        t@.wf(),
{
    tag("image")
}

/// Starts a builder for a `<img>` element.
pub fn img() -> (t: Tag)
    ensures
        fresh_elem(t@, "img"@),
        t@.wf(),
{
    tag("img")
}

/// Starts a builder for a `<ins>` element.
pub fn ins() -> (t: Tag)
    ensures
        fresh_elem(t@, "ins"@),
        t@.wf(),
{
    tag("ins")
}

/// Starts a builder for a `<kbd>` element.
pub fn kbd() -> (t: Tag)
    ensures
        fresh_elem(t@, "kbd"@),
        t@.wf(),
{
    tag("kbd")
}

/// Starts a builder for a `<keygen>` element.
pub fn keygen() -> (t: Tag)
    ensures
        fresh_elem(t@, "keygen"@),
        t@.wf(),
{
    tag("keygen")
}

/// Starts a builder for a `<label>` element.
pub fn label() -> (t: Tag)
    ensures
        fresh_elem(t@, "label"@),
        t@.wf(),
{
    tag("label")
}

/// Starts a builder for a `<legend>` element.
pub fn legend() -> (t: Tag)
    ensures
        fresh_elem(t@, "legend"@),
        t@.wf(),
{
    tag("legend")
}

/// Starts a builder for a `<li>` element.
pub fn li() -> (t: Tag)
    ensures
        fresh_elem(t@, "li"@),
        t@.wf(),
{
    tag("li")
}

/// Starts a builder for a `<link>` element.
pub fn link() -> (t: Tag)
    ensures
        fresh_elem(t@, "link"@),
        t@.wf(),
{
    tag("link")
}

/// Starts a builder for a `<main>` element.
pub fn main() -> (t: Tag)
    ensures
        fresh_elem(t@, "main"@),
        t@.wf(),
{
    tag("main")
}

/// Starts a builder for a `<map>` element.
pub fn map() -> (t: Tag)
    ensures
        fresh_elem(t@, "map"@),
        t@.wf(),
{
    tag("map")
}

/// Starts a builder for a `<mark>` element.
pub fn mark() -> (t: Tag)
    ensures
        fresh_elem(t@, "mark"@),
        t@.wf(),
{
    tag("mark")
}

/// Starts a builder for a `<marquee>` element.
pub fn marquee() -> (t: Tag)
    ensures
        fresh_elem(t@, "marquee"@),
        t@.wf(),
{
    tag("marquee")
}

/// Starts a builder for a `<math>` element.
pub fn math() -> (t: Tag)
    ensures
        fresh_elem(t@, "math"@),
        t@.wf(),
{
    tag("math")
}

/// Starts a builder for a `<menu>` element.
pub fn menu() -> (t: Tag)
    ensures
        fresh_elem(t@, "menu"@),
        t@.wf(),
{
    tag("menu")
}

/// Starts a builder for a `<menuitem>` element.
pub fn menuitem() -> (t: Tag)
    ensures
        fresh_elem(t@, "menuitem"@),
        t@.wf(),
{
    tag("menuitem")
}

/// Starts a builder for a `<meta>` element.
pub fn meta() -> (t: Tag)
    ensures
        fresh_elem(t@, "meta"@),
        t@.wf(),
{
    tag("meta")
}

/// Starts a builder for a `<meter>` element.
pub fn meter() -> (t: Tag)
    ensures
        fresh_elem(t@, "meter"@),
        t@.wf(),
{
    tag("meter")
}

/// Starts a builder for a `<nav>` element.
pub fn nav() -> (t: Tag)
    ensures
        fresh_elem(t@, "nav"@),
        t@.wf(),
{
    tag("nav")
}

/// Starts a builder for a `<nobr>` element.
pub fn nobr() -> (t: Tag)
    ensures
        fresh_elem(t@, "nobr"@),
        t@.wf(),
{
    tag("nobr")
}

/// Starts a builder for a `<noembed>` element.
pub fn noembed() -> (t: Tag)
    ensures
        fresh_elem(t@, "noembed"@),
        t@.wf(),
{
    tag("noembed")
}

/// Starts a builder for a `<noframes>` element.
pub fn noframes() -> (t: Tag)
    ensures
        fresh_elem(t@, "noframes"@),
        t@.wf(),
{
    tag("noframes")
}

/// Starts a builder for a `<noscript>` element.
pub fn noscript() -> (t: Tag)
    ensures
        fresh_elem(t@, "noscript"@),
        t@.wf(),
{
    tag("noscript")
}

/// Starts a builder for a `<object>` element.
pub fn object() -> (t: Tag)
    ensures
        fresh_elem(t@, "object"@),
        t@.wf(),
{
    tag("object")
}

/// Starts a builder for a `<ol>` element.
pub fn ol() -> (t: Tag)
    ensures
        fresh_elem(t@, "ol"@),
        t@.wf(),
{
    tag("ol")
}

/// Starts a builder for a `<optgroup>` element.
pub fn optgroup() -> (t: Tag)
    ensures
        fresh_elem(t@, "optgroup"@),
        t@.wf(),
{
    tag("optgroup")
}

/// Starts a builder for a `<option>` element.
pub fn option() -> (t: Tag)
    ensures
        fresh_elem(t@, "option"@),
        t@.wf(),
{
    tag("option")
}

/// Starts a builder for a `<output>` element.
pub fn output() -> (t: Tag)
    ensures
        fresh_elem(t@, "output"@),
        t@.wf(),
{
    tag("output")
}

/// Starts a builder for a `<p>` element.
pub fn p() -> (t: Tag)
    ensures
        fresh_elem(t@, "p"@),
        t@.wf(),
{
    tag("p")
}

/// Starts a builder for a `<param>` element.
pub fn param() -> (t: Tag)
    ensures
        fresh_elem(t@, "param"@),
        t@.wf(),
{
    tag("param")
}

/// Starts a builder for a `<picture>` element.
pub fn picture() -> (t: Tag)
    ensures
        fresh_elem(t@, "picture"@),
        t@.wf(),
{
    tag("picture")
}

/// Starts a builder for a `<plaintext>` element.
pub fn plaintext() -> (t: Tag)
    ensures
        fresh_elem(t@, "plaintext"@),
        t@.wf(),
{
    tag("plaintext")
}

/// Starts a builder for a `<portal>` element.
pub fn portal() -> (t: Tag)
    ensures
        fresh_elem(t@, "portal"@),
        t@.wf(),
{
    tag("portal")
}

/// Starts a builder for a `<pre>` element.
pub fn pre() -> (t: Tag)
    ensures
        fresh_elem(t@, "pre"@),
        t@.wf(),
{
    tag("pre")
}

/// Starts a builder for a `<progress>` element.
pub fn progress() -> (t: Tag)
    ensures
        fresh_elem(t@, "progress"@),
        t@.wf(),
{
    tag("progress")
}

/// Starts a builder for a `<q>` element.
pub fn q() -> (t: Tag)
    ensures
        fresh_elem(t@, "q"@),
        t@.wf(),
{
    tag("q")
}

/// Starts a builder for a `<rb>` element.
pub fn rb() -> (t: Tag)
    ensures
        fresh_elem(t@, "rb"@),
        t@.wf(),
{
    tag("rb")
}

/// Starts a builder for a `<rp>` element.
pub fn rp() -> (t: Tag)
    ensures
        fresh_elem(t@, "rp"@),
        t@.wf(),
{
    tag("rp")
}

/// Starts a builder for a `<rt>` element.
pub fn rt() -> (t: Tag)
    ensures
        fresh_elem(t@, "rt"@),
        t@.wf(),
{
    tag("rt")
}

/// Starts a builder for a `<rtc>` element.
pub fn rtc() -> (t: Tag)
    ensures
        fresh_elem(t@, "rtc"@),
        t@.wf(),
{
    tag("rtc")
}

/// Starts a builder for a `<ruby>` element.
pub fn ruby() -> (t: Tag)
    ensures
        fresh_elem(t@, "ruby"@),
        t@.wf(),
{
    tag("ruby")
}

/// Starts a builder for a `<s>` element.
pub fn s() -> (t: Tag)
    ensures
        fresh_elem(t@, "s"@),
        t@.wf(),
{
    tag("s")
}

/// Starts a builder for a `<samp>` element.
pub fn samp() -> (t: Tag)
    ensures
        fresh_elem(t@, "samp"@),
        t@.wf(),
{
    tag("samp")
}

/// Starts a builder for a `<script>` element.
pub fn script() -> (t: Tag)
    ensures
        fresh_elem(t@, "script"@),
        t@.wf(),
{
    tag("script")
}

/// Starts a builder for a `<section>` element.
pub fn section() -> (t: Tag)
    ensures
        fresh_elem(t@, "section"@),
        t@.wf(),
{
    tag("section")
}

/// Starts a builder for a `<select>` element.
pub fn select() -> (t: Tag)
    ensures
        fresh_elem(t@, "select"@),
        t@.wf(),
{
    tag("select")
}

/// Starts a builder for a `<shadow>` element.
pub fn shadow() -> (t: Tag)
    ensures
        fresh_elem(t@, "shadow"@),
        t@.wf(),
{
    tag("shadow")
}

/// Starts a builder for a `<slot>` element.
pub fn slot() -> (t: Tag)
    ensures
        fresh_elem(t@, "slot"@),
        t@.wf(),
{
    tag("slot")
}

/// Starts a builder for a `<small>` element.
pub fn small() -> (t: Tag)
    ensures
        fresh_elem(t@, "small"@),
        t@.wf(),
{
    tag("small")
}

/// Starts a builder for a `<source>` element.
pub fn source() -> (t: Tag)
    ensures
        fresh_elem(t@, "source"@),
        t@.wf(),
{
    tag("source")
}

/// Starts a builder for a `<spacer>` element.
pub fn spacer() -> (t: Tag)
    ensures
        fresh_elem(t@, "spacer"@),
        t@.wf(),
{
    tag("spacer")
}

/// Starts a builder for a `<span>` element.
pub fn span() -> (t: Tag)
    ensures
        fresh_elem(t@, "span"@),
        t@.wf(),
{
    tag("span")
}

/// Starts a builder for a `<strike>` element.
pub fn strike() -> (t: Tag)
    ensures
        fresh_elem(t@, "strike"@),
        t@.wf(),
{
    tag("strike")
}

/// Starts a builder for a `<strong>` element.
pub fn strong() -> (t: Tag)
    ensures
        fresh_elem(t@, "strong"@),
        t@.wf(),
{
    tag("strong")
}

/// Starts a builder for a `<style>` element.
pub fn style() -> (t: Tag)
    ensures
        fresh_elem(t@, "style"@),
        t@.wf(),
{
    tag("style")
}

/// Starts a builder for a `<sub>` element.
pub fn sub() -> (t: Tag)
    ensures
        fresh_elem(t@, "sub"@),
        t@.wf(),
{
    tag("sub")
}

/// Starts a builder for a `<summary>` element.
pub fn summary() -> (t: Tag)
    ensures
        fresh_elem(t@, "summary"@),
        t@.wf(),
{
    tag("summary")
}

/// Starts a builder for a `<sup>` element.
pub fn sup() -> (t: Tag)
    ensures
        fresh_elem(t@, "sup"@),
        t@.wf(),
{
    tag("sup")
}

/// Starts a builder for a `<svg>` element.
pub fn svg() -> (t: Tag)
    ensures
        fresh_elem(t@, "svg"@),
        t@.wf(),
{
    tag("svg")
}

/// Starts a builder for a `<table>` element.
pub fn table() -> (t: Tag)
    ensures
        fresh_elem(t@, "table"@),
        t@.wf(),
{
    tag("table")
}

/// Starts a builder for a `<tbody>` element.
pub fn tbody() -> (t: Tag)
    ensures
        fresh_elem(t@, "tbody"@),
        t@.wf(),
{
    tag("tbody")
}

/// Starts a builder for a `<td>` element.
pub fn td() -> (t: Tag)
    ensures
        fresh_elem(t@, "td"@),
        t@.wf(),
{
    tag("td")
}

/// Starts a builder for a `<template>` element.
pub fn template() -> (t: Tag)
    ensures
        fresh_elem(t@, "template"@),
        t@.wf(),
{
    tag("template")
}

/// Starts a builder for a `<textarea>` element.
pub fn textarea() -> (t: Tag)
    ensures
        fresh_elem(t@, "textarea"@),
        t@.wf(),
{
    tag("textarea")
}

/// Starts a builder for a `<tfoot>` element.
pub fn tfoot() -> (t: Tag)
    ensures
        fresh_elem(t@, "tfoot"@),
        t@.wf(),
{
    tag("tfoot")
}

/// Starts a builder for a `<th>` element.
pub fn th() -> (t: Tag)
    ensures
        fresh_elem(t@, "th"@),
        t@.wf(),
{
    tag("th")
}

/// Starts a builder for a `<thead>` element.
pub fn thead() -> (t: Tag)
    ensures
        fresh_elem(t@, "thead"@),
        t@.wf(),
{
    tag("thead")
}

/// Starts a builder for a `<time>` element.
pub fn time() -> (t: Tag)
    ensures
        fresh_elem(t@, "time"@),
        t@.wf(),
{
    tag("time")
}

/// Starts a builder for a `<title>` element.
pub fn title() -> (t: Tag)
    ensures
        fresh_elem(t@, "title"@),
        t@.wf(),
{
    tag("title")
}

/// Starts a builder for a `<tr>` element.
pub fn tr() -> (t: Tag)
    ensures
        fresh_elem(t@, "tr"@),
        t@.wf(),
{
    tag("tr")
}

/// Starts a builder for a `<track>` element.
pub fn track() -> (t: Tag)
    ensures
        fresh_elem(t@, "track"@),
        t@.wf(),
{
    tag("track")
}

/// Starts a builder for a `<tt>` element.
pub fn tt() -> (t: Tag)
    ensures
        fresh_elem(t@, "tt"@),
        t@.wf(),
{
    tag("tt")
}

/// Starts a builder for a `<u>` element.
pub fn u() -> (t: Tag)
    ensures
        fresh_elem(t@, "u"@),
        t@.wf(),
{
    tag("u")
}

/// Starts a builder for a `<ul>` element.
pub fn ul() -> (t: Tag)
    ensures
        fresh_elem(t@, "ul"@),
        t@.wf(),
{
    tag("ul")
}

/// Starts a builder for a `<var>` element.
pub fn var() -> (t: Tag)
    ensures
        fresh_elem(t@, "var"@),
        t@.wf(),
{
    tag("var")
}

/// Starts a builder for a `<video>` element.
pub fn video() -> (t: Tag)
    ensures
        fresh_elem(t@, "video"@),
        t@.wf(),
{
    tag("video")
}

/// Starts a builder for a `<wbr>` element.
pub fn wbr() -> (t: Tag)
    ensures
        fresh_elem(t@, "wbr"@),
        t@.wf(),
{
    tag("wbr")
}

/// Starts a builder for a `<xmp>` element.
pub fn xmp() -> (t: Tag)
    ensures
        fresh_elem(t@, "xmp"@),
        t@.wf(),
{
    tag("xmp")
}

} // verus!
