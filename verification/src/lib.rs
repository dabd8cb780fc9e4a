//! A live-refreshing dashboard model for the network sockets of a host.
//!
//! The crate holds the state of the dashboard and every decision it takes:
//! the selectable list of connection records, how a refresh replaces the
//! records while keeping the cursor in range, which action each stimulus of
//! the event loop leads to, and the text of every pane. Reading sockets and
//! processes from the operating system, polling the keyboard and painting
//! the terminal are left to the program that drives the library.

pub mod app;
pub mod event_loop;
pub mod record;
pub mod text;
pub mod ui;
pub mod usage;
