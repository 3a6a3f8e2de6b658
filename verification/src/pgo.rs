//! Profile-guided optimization: the instrumented build.

pub mod instrument;
