//! Building blocks shared by all tests.

pub mod yaml;
