//! A small sample workspace, the kind of packages the indexer is run on:
//! shared configuration, an application state with processors, a request
//! handler, and a package with one item of each kind.

pub mod shared;
pub mod crate_a;
pub mod crate_b;
pub mod simple_test;
