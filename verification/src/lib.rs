//! A boundary-error translation layer: every failure an operation can produce
//! is classified into a closed taxonomy, causal context is preserved as faults
//! propagate upward, and the final fault is rendered into a stable wire form
//! for a remote caller. A crash guard degrades a fatal abort inside one
//! operation to a reported failure.

pub mod basics;
pub mod commands;
pub mod config;
pub mod fault;
pub mod guard;
pub mod render;
pub mod unified;
