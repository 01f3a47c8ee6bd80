//! Acquisition of template repositories and resolution of their released
//! versions.
//!
//! Every function here is pure: what touches the network or the disk is
//! described as an action for the caller to perform, and its outcome comes
//! back as an event.
pub mod errors;
pub mod git;
pub mod git_laws;
pub mod github;
pub mod json;
pub mod release;
pub mod remote;
pub mod repository;
pub mod templates;
pub mod text;
pub mod version;
