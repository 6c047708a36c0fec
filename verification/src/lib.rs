//! Verified core of the `ascot` device and controller libraries.
pub mod collections;
pub mod controller;
pub mod error;
pub mod events;
pub mod firmware;
pub mod hazards;
pub mod laws;
pub mod network;
pub mod parameters;
pub mod parse;
pub mod response;
pub mod routing;
pub mod sensors;
pub mod text;
