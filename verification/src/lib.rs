//! Live preview of one Markdown document.
//!
//! The crate holds the decisions of a preview server and leaves every effect
//! to its caller:
//!
//! - [`render`] turns Markdown into HTML;
//! - [`channel`] is the last-value-wins broadcast channel and its per-client
//!   subscriptions;
//! - [`detector`] is the polling change detector, which publishes the
//!   document again whenever its modification time changes;
//! - [`handler`] is one client's session on the channel;
//! - [`pipeline`] states what a run of polls publishes;
//! - [`startup`], [`page`] and [`failure`] hold what is decided when the
//!   program starts, when the page is requested and when something fails.
//!
//! Nothing here touches the file system, a clock or a socket. The caller
//! reads the file, sleeps between polls and writes to its clients, and hands
//! the library what it found.
pub mod channel;
pub mod detector;
pub mod failure;
pub mod handler;
pub mod page;
pub mod pipeline;
pub mod render;
pub mod startup;
