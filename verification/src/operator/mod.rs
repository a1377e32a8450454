//! Helpers for tests of a whole operator.

pub mod setup;
