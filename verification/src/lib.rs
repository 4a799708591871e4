//! Aggregation engine for Python type-stub generation.
//!
//! Descriptors for classes, enums, functions, errors and variables are
//! collected in a [`registry::Registry`], filtered by namespace and origin
//! prefixes, resolved by type identity, arranged into a tree of dotted
//! namespaces, and handed out module by module for serialization.

pub mod defs;
pub mod names;
pub mod order;
pub mod registry;
pub mod stub_info;
pub mod table;
