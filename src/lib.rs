//! A generic create / read / delete resource over one entity type.
//!
//! The library holds the decisions that such a resource makes: how an insert
//! draft is staged so that the store assigns identity, how each outcome of the
//! persistence gateway becomes a response, which routes lead to which
//! operation, and an in-memory gateway against which the resource's laws are
//! proved.
pub mod api;
pub mod draft;
pub mod laws;
pub mod store;
