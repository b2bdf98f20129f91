//! A collaborative-fiction service core: users take turns appending
//! snippets to shared stories, coordinated by a turn-based lock with a
//! fairness ("cooldown") rule, an access-control gate, and a record store
//! with serializable per-record operations.

mod clock;
pub mod auth;
pub mod error;
pub mod laws;
pub mod model;
pub mod snippets;
pub mod stories;
