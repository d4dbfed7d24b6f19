//! A small verified task store: one table of Pomodoro-style tasks kept in a
//! SQLite database, exposed through four operations (list, create, update,
//! delete) whose effect on the stored rows is stated and proved against a
//! mathematical model of the table.

pub mod laws;
pub mod model;
pub mod store;
pub mod task;
