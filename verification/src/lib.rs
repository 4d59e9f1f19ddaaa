//! A workflow-node microservice library: the handshake and execution
//! protocol between a plugin service and a workflow orchestrator.
//!
//! The library holds the protocol logic: building the outbound requests
//! (register, login, list services, confirm install), interpreting the
//! orchestrator's responses, and the inbound endpoint decisions (describe,
//! install callback, execute). All transport is left to the surrounding
//! binary, which hands responses in as plain values.

pub mod config;
pub mod herp_proxy;
pub mod json;
pub mod server;
pub mod service;
pub mod text;
