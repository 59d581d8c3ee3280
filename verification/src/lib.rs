//! Core logic of a URL-shortening service.
//!
//! The library holds the request-handling decisions that must get uniqueness,
//! failure and authentication semantics right: collision-safe short-id
//! generation, the bounded-retry creation workflow, the redirect workflow with
//! its fire-and-forget click recording, the statistics read path, and the
//! shared-secret gate in front of every mutating endpoint. The backing store
//! and the HTTP transport are external collaborators: each store operation is
//! represented by a typed outcome that the surrounding process hands in, and
//! every decision taken on such an outcome is verified.

pub mod errors;
pub mod links;
pub mod store;
pub mod urlnorm;
pub mod idgen;
pub mod secret;
pub mod creation;
pub mod redirect;
pub mod update;
pub mod stats;
