//! Embedding and bridge layer between a host scene graph and an embedded web
//! view: resource resolution inside a sandboxed root, message routing with
//! correlated invocations, synthetic input events and surface geometry.

pub mod buttons;
pub mod config;
pub mod geometry;
pub mod input;
pub mod keys;
pub mod message;
pub mod mime;
pub mod pending;
pub mod resource;
pub mod response;
pub mod router;
pub mod sandbox;
pub mod script;
pub mod surface;
pub mod text;
pub mod tokens;
