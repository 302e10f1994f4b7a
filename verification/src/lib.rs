//! The logic of a small icon browser: a fixed catalog of themed icon names and
//! the controller that decides when a right-click copies a name to the
//! clipboard.

pub mod catalog;
pub mod controller;
pub mod history;
