//! Ingestion gateway core for an image-based object-detection workflow.
//!
//! A caller uploads an image; the gateway validates the upload, forwards the
//! bytes to an external inference service, persists the returned detections
//! under a generated identifier, schedules a content-addressed archival of the
//! original bytes, and later accepts human corrections to the stored
//! detections.
//!
//! The verified core consists of the detection data model, the
//! content-addressed key construction, the record store and blob store with
//! their exact transition specifications, and the ingestion and correction
//! workflows composed from them. The outbound HTTP, database and object-store
//! calls themselves are external collaborators; the few places where the core
//! relies on an outside computation (the SHA-256 digest, the UUID parser) are
//! isolated in trusted wrappers with documented contracts.

pub mod archive;
pub mod content;
pub mod ident;
pub mod inference;
pub mod models;
pub mod repository;
pub mod workflow;
