//! Bridge between remote motion-control protocols and a linear-actuator
//! controller that speaks a textual motion-command language over a serial
//! line.
//!
//! The library holds the pure core of the pipeline: the two wire-format
//! decoders, the motion-command synthesizer with its distance scaling and
//! feed-rate pacing rules, the per-command step logic of the actuator
//! writer, and the terminal-error classification of the orchestrator.
//! The surrounding I/O (sockets, the serial device, task scheduling and
//! the terminal surface) lives outside the library and calls into it with
//! plain values.

pub mod config;
pub mod decimal;
pub mod encoding;
pub mod extoy_de;
pub mod server;
pub mod tcode_de;
pub mod tui;
pub mod usb;
pub mod websocket;
