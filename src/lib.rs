//! Multi-timezone clock engine: the configuration model, the time
//! calculations that turn an instant into per-zone display facts, and the
//! selection / time-offset state driven by the terminal and browser front ends.

pub mod clock;
pub mod config;
pub mod filter;
pub mod session;
pub mod share;
pub mod text;
