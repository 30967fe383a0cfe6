//! Watches clipboard text for URLs on configured domains and rewrites the
//! domain in place.
//!
//! The library holds what is decided and computed on the way: the replacement
//! table ([`config`]), the URL rewriter ([`rewrite`]), the clipboard as a
//! capability and the session on it ([`clipboard`]), the reaction to a change
//! of the clipboard ([`app`]), the rules for opening the clipboard and handing
//! text to it ([`gateway`]), and the reading of window messages ([`shell`]).
//! The calls into the operating system are the program's, not the library's.

pub mod app;
pub mod clipboard;
pub mod config;
pub mod gateway;
pub mod rewrite;
pub mod shell;
