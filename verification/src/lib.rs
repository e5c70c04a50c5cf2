//! Verified core of the OpenClaw desktop console: the gateway process
//! supervisor's state, its bounded log, and every decision it makes
//! about starting, stopping and observing the `openclaw gateway` process.
pub mod text;
pub mod clock;
pub mod model;
pub mod process;
pub mod gateway;
pub mod lifecycle;
pub mod commands;
pub mod laws;
