//! A modal terminal file browser, split into a verified core and a thin
//! unverified shell.
//!
//! The core merges terminal input with a periodic tick into one ordered
//! event stream, routes each event through a modal dispatcher over the
//! application state, keeps the preview pane fresh under a debounce, and
//! builds ordered directory snapshots. All of that logic lives here, on
//! plain values; the shell performs the actual terminal, timer and
//! filesystem calls and hands their results in.

pub mod app;
pub mod events;
pub mod snapshot;
