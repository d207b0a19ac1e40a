//! What the operations of the library are for, as laws over their inputs and
//! results: what an answer holds of a reply, what a request carries of a call,
//! and how failures, pages, texts and registrations come out.

pub mod answers;
pub mod documents;
pub mod failures;
pub mod listings;
pub mod registrations;
pub mod reports;
pub mod requests;
pub mod rows;
pub mod texts;
