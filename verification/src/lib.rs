//! Decision logic of an upload, merge and download service for raw camera
//! images.
//!
//! A client submits a batch of files. The accepted ones are staged in a
//! workspace, an external tool merges them into one artifact, and the
//! artifact is later fetched by the identifier that the upload returned.
//! This crate holds every rule of that pipeline as verified code over plain
//! values; reading request bodies, writing files and running the tool are
//! left to the program around it.

pub mod config;
pub mod identifier;
pub mod ingest;
pub mod merge;
pub mod pipeline;
pub mod response;
pub mod store;
pub mod text;
pub mod theorems;
