//! The logic of a daemon that keeps a tunnel alive on a router: it
//! supervises the tunnel client's process, sets up and tears down the
//! routing through the tunnel, and watches that traffic flows.
//!
//! The library decides and never acts. Whatever touches the outside (a
//! process, a file, the network, the clock) is named as an action for the
//! caller to carry out, and the outcome comes back as a plain value. Every
//! function states what it returns, and Verus proves that it does.
pub mod auth;
pub mod config;
pub mod decimal;
pub mod json;
pub mod logger;
pub mod logs;
pub mod routing;
pub mod text;
pub mod tunnel;
pub mod webui;
