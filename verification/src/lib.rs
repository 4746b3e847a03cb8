//! State machine of a terminal browser for a hierarchical remote file store.
//!
//! The crate holds the session state, its transitions on keyboard input and on
//! the completion of remote calls, the ordering and search of the entry list,
//! and a few pure helpers for rendering. Terminal, network and clipboard
//! access are left to the caller, which performs the effects that the
//! transitions ask for and reports their outcome back.
//!
//! - [`session`]: the session as a mathematical value, with every transition
//!   as a function on it and the properties that hold of all sessions.
//! - [`app`]: the session as the program holds it, and its operations.
//! - [`events`]: what a key does, and the effects it asks for.
//! - [`drive`]: what the drive loop has to do next.
//! - [`path`]: the walk up to the root that finds the path of a file.
//! - [`entry`], [`sort`]: the entries and their stable ordering.
//! - [`actions`]: the menu of actions per kind of entry.
//! - [`render`], [`layout`]: text and geometry for drawing.
//! - [`text`]: strings as sequences of characters.

pub mod actions;
pub mod app;
pub mod drive;
pub mod entry;
pub mod events;
pub mod layout;
pub mod path;
pub mod render;
pub mod session;
pub mod sort;
pub mod text;
