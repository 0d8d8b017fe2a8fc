//! Command model, request builders, dispatch planning and text rendering for
//! an Outlook-style mail/calendar/contacts command-line client.
//!
//! The library holds the typed command surface, the builders that assemble
//! outgoing payloads, the dispatcher that maps each command to exactly one
//! client operation, and the renderer that projects responses into
//! deterministic text lines. Network transport and authentication live
//! outside the library.

use vstd::prelude::*;

pub mod builders;
pub mod dispatch;
pub mod domain;
pub mod render;
pub mod text;

verus! {

/// Number of items a mail, draft or event listing shows when no limit is given.
pub const DEFAULT_LIST_LIMIT: u32 = 10;

/// Number of items a contact listing shows when no limit is given.
pub const DEFAULT_CONTACT_LIMIT: u32 = 20;

} // verus!
