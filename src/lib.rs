//! Seat reservation, purchase completion and ticket issuing for a movie
//! theater, with the form checks and page models around them.

pub mod validation;
pub mod ticket;
pub mod record_id;
pub mod seating;
pub mod store;
pub mod purchase;
pub mod laws;
pub mod pages;
