//! Decision logic of the NAT traversal comparison lab.
//!
//! The lab runs two endpoints behind separate simulated NATs and asks which
//! path they end up on. This library holds what the lab decides: which cases
//! run, what each peer does next, when an observation is accepted, and what a
//! report says. Sockets, namespaces and clocks belong to the program around it.

pub mod address;
pub mod case;
pub mod client;
pub mod client_laws;
pub mod coordinator;
pub mod document;
pub mod endpoint;
pub mod lab_laws;
pub mod no_relay;
pub mod no_relay_laws;
pub mod path;
pub mod relay;
pub mod report;
pub mod run;
pub mod server;
pub mod text;
pub mod topology;
pub mod transfer;
