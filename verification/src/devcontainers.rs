//! Devcontainer features and the structures of their manifests.
pub mod features;
pub mod structure;
