//! A keyboard-driven git cheatsheet: the catalogue of commands, the
//! navigation and search state of the browser, and the text rules that turn a
//! listed command into the text that is copied to the clipboard.

pub mod app;
pub mod data;
pub mod key_laws;
pub mod keys;
pub mod laws;
pub mod layout;
pub mod search;
pub mod text;
pub mod view;
