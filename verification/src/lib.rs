//! Support for integration tests of Kubernetes operators.
//!
//! The crate holds the decisions of such a test: how a cluster is named and
//! selected, what is asked of the API server and in which order, when a
//! bounded wait ends and with which result. Talking to the API server,
//! sleeping and reading the clock are left to the caller, who performs each
//! action that the library hands out and reports what came of it.

pub mod operator;
pub mod test;
