//! Decisions of a desktop chat host: window labels and lifecycle, tray text and menu,
//! notification gating and click routing, link checks, and flat key-value stores.

use vstd::prelude::*;

pub mod label;
pub mod notify;
pub mod store;
pub mod tray;
pub mod url;
pub mod windows;

verus! {

} // verus!
