//! The request handlers: each validates what was submitted, calls the
//! store, and wraps the outcome in the response envelope.

pub mod expense_controller;
pub mod income_controller;
pub mod user_controller;
