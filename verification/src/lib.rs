//! Fuses a base program and its companion overload program into one supervised artifact.

pub mod merger;
pub mod models;
pub mod policy;
pub mod supervision;
pub mod text;
