//! Stateful widgets built on the node builders: a dropdown selector and a
//! table layout.

pub mod drop_down;

pub mod table;

pub use drop_down::DropDown;
pub use table::Table;
