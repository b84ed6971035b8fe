//! The operations that read and change the stored records.

pub mod expense_service;
pub mod income_service;
pub mod user_service;
