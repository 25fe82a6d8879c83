//! The protocol by which the loader of a merged artifact runs and ends its two programs.
//!
//! The loader is generated as source text and compiled into the artifact; what it decides
//! while it runs is stated here, free of processes and clocks: what a health record shows
//! at a given instant, and which action follows which event. The generated text is
//! written to take the same decisions; nothing but reading the two side by side holds
//! it to them.

pub mod health;
pub mod lifecycle;
pub mod monitor;
