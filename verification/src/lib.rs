//! Interactive browser over a local cache of track metadata and lyrics.
//!
//! The heart of the crate is the session state of the terminal browser:
//! a filterable list of cached tracks, a drill-down detail view with
//! scrollable lyrics, and the navigation rules that keep the selection
//! valid across every search-driven change of the result list.

use vstd::prelude::*;

pub mod config;
pub mod db;
pub mod genius;
pub mod numbers;
pub mod render;
pub mod session;
pub mod spotify;
pub mod text;
pub mod track;

pub use db::Database;
pub use db::StorageError;
pub use session::App;
pub use session::InputMode;
pub use session::Key;
pub use session::ViewMode;
pub use track::TrackInfo;

verus! {

/// The index that follows `i` in a list of `len` entries, wrapping from
/// the last entry back to the first.
pub open spec fn wrap_next(i: int, len: int) -> int {
    if i + 1 >= len {
        0
    } else {
        i + 1
    }
}

/// The index that precedes `i` in a list of `len` entries, wrapping from
/// the first entry back to the last.
pub open spec fn wrap_previous(i: int, len: int) -> int {
    if i == 0 {
        len - 1
    } else {
        i - 1
    }
}

} // verus!
