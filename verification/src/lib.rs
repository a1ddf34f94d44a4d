//! Core of a single-user daily-notes web service: date-keyed resource
//! resolution, ordered pattern routing, note-content semantics, and a
//! two-layer error presenter that can always answer.

pub mod clock;
pub mod date;
pub mod errors;
pub mod handler;
pub mod note;
pub mod response;
pub mod router;
