//! A quick reference for the keyboard shortcuts of a line-editing shell.
//!
//! The library holds the reference data, decides which categories a set of
//! flags selects, lays each category out as a text table, and decides the
//! steps of removing the installed program.

pub mod category;
pub mod confirm;
pub mod output;
pub mod registry;
pub mod selection;
pub mod shortcut;
pub mod table;
pub mod text;
pub mod uninstall;
pub mod wrap;
