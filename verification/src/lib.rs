//! Interactive terminal HTTP request composer: the state machine behind an
//! interface in which a user builds a request (method, URL, headers, query
//! parameters, authorization, body), dispatches it without blocking the
//! interface, and recalls prior requests from an in-memory history stack.
//!
//! The crate verifies the interactive core: pane focus and input-mode
//! discipline, the tabbed key-value editor, the line-based body editor with
//! its JSON validation loop, the history stack and its browsing cursor, and
//! the translation of the built request into a transport-ready form.
//! Terminal painting and the wire-level HTTP call live outside this crate.

pub mod app;
pub mod body;
pub mod events;
pub mod json;
pub mod key_value;
pub mod network;
pub mod text;
