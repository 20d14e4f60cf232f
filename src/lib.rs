//! Client-side state machine of a single-page guide browser: route
//! resolution, page selection, substring search over the catalog, the
//! persisted display preference, and the message-driven update cycle.

pub mod text;
pub mod guide;
pub mod route;
pub mod page;
pub mod search;
pub mod prefs;
pub mod state;
