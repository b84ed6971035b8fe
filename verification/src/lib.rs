//! A verified core for a personal finance tracker: users, income records and
//! expense records, the validation of what callers submit, and the
//! owner-scoped operations that read and change the stored records.

pub mod controllers;
pub mod database;
pub mod docs;
pub mod errors;
pub mod laws;
pub mod models;
pub mod response;
pub mod services;
pub mod text;
pub mod validation;
