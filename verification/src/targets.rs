//! The languages that code can be generated for.

pub mod java;
