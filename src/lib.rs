//! Picks two distinct students from a CSV roster for the primary and the
//! backup duty, and renders the result or the reason the roster is refused.
//!
//! - `record`: a roster row.
//! - `roster`: reading and checking the roster.
//! - `select`: drawing the two duty-holders.
//! - `report`: the announcing lines, error messages and the whole run.
//! - `laws`: properties of rosters and draws.
pub mod record;
pub mod roster;
pub mod select;
pub mod report;
pub mod laws;
