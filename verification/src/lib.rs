//! Shared-document synchronisation for an e-ink reading companion.
//!
//! One Markdown document is edited on a desktop and read on a device that can
//! only pull. The document lives in a [`state::ContentStore`]; a clipboard
//! producer ([`clipboard`]) and the editor ([`editor`], [`commands`]) write
//! to it, and the reader polls the replies of [`server`], which render the
//! document ([`render`]) afresh on every request and tell a change by the
//! fingerprint of the markup.
//!
//! What depends on other threads, on the clock or on the network is handed to
//! the functions here as plain values; for each of them the contracts say
//! exactly what is returned.

pub mod clipboard;
pub mod commands;
pub mod editor;
pub mod mode;
pub mod page;
pub mod render;
pub mod server;
pub mod state;
pub mod text;
pub mod url_processor;
