//! A terminal quick-search launcher core: a list of named search pages, a
//! keyboard-driven selection and query-editing state machine, a pure
//! description of each rendered frame, and the string logic that turns a
//! desktop browser identifier and a page prefix into the URL to open.

pub mod app;
pub mod browser;
pub mod config;
pub mod ui;
