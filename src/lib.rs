//! A personal diary's data model and the guard that authenticates its owner.

pub mod decimal;
pub mod guard;
pub mod models;
