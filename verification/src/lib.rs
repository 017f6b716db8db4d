//! A library for treating an append-only messaging room as a git remote.
//!
//! The room's timeline carries two kinds of custom events: keyed ref-update
//! state events and pack-announcement message events.  The modules here hold
//! the verified core: deriving a ref table from an unordered multi-writer
//! timeline (last writer wins per ref name), the line-oriented remote-helper
//! command protocol, remote-URL bootstrap parsing, credential fallback, and
//! the push/fetch exchange sequencing.  Network and repository I/O stay
//! outside, driven through the exchange state machines.

pub mod error;
pub mod events;
pub mod pack;
pub mod protocol;
pub mod refstore;
pub mod session;
pub mod strutil;
pub mod urlwrap;
