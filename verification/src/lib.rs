//! Sorting the files of one directory into subfolders, by rule.
//!
//! The crate decides and never touches the disk: a caller reads the
//! directory, hands over what it saw, and carries out the moves that come
//! back.
//!
//! - [`rules`] holds the rule table and its built-in contents, [`json`]
//!   reads a table from the rule file.
//! - [`script`] asks the rule script, [`classify`] settles a file's
//!   destination from both.
//! - [`sorter`] plans one pass over a directory, [`daemon`] names the steps
//!   of the polling loop, [`service`] describes its installation as a
//!   startup service.
//! - [`paths`] and [`text`] are the groundwork.

pub mod classify;
pub mod daemon;
pub mod json;
pub mod paths;
pub mod rules;
pub mod script;
pub mod service;
pub mod sorter;
pub mod text;
