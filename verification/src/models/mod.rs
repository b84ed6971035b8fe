//! The records kept by the tracker and the values they are made of.

pub mod decimal;
pub mod expense;
pub mod ident;
pub mod income;
pub mod time;
pub mod user;

pub use expense::{Expense, NewExpense, UpdateExpense};
pub use income::{Income, NewIncome, UpdateIncome};
pub use user::{NewUser, UpdateUser, User, UserWithIncomes};
