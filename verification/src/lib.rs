//! Data-integrity and lifecycle core of a hackathon submission service.
//!
//! Three entities live here: participants (`User`), events (`Event`) and
//! project submissions (`Submission`). The library owns the relational model
//! of the store — tables, key uniqueness, auto-incrementing identifiers, the
//! one-way status lifecycles Open→Closed and Draft→Submitted, and the rule
//! that a participant may hold at most one submission per event. Every
//! operation is specified and verified against that model; a boundary layer
//! around the library supplies the caller identity check and whatever
//! transport or persistence it wants.

pub mod column;
pub mod error;
pub mod event;
pub mod service;
pub mod store;
pub mod submission;
pub mod user;
