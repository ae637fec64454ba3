//! Builder-style construction of virtual UI trees, plus two widgets.
//!
//! The `vdom` module offers fluent builders for element, text and
//! component-reference nodes; a builder accumulates attributes, children and
//! listener registrations and finalizes into an immutable [`node::Node`].
//! The `components` module holds a dropdown selector's state machine and its
//! two render strategies, and a stateless table layout.  Host-specific glue
//! (the actual renderer, event plumbing) lives outside this crate; it
//! receives finalized [`node::Node`] values and converts them.

pub mod node;

pub mod decimal;

pub mod vdom;

pub mod components;
