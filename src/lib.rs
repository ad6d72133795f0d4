//! Command layer for a display controller driven over an abstract bus.
//!
//! A [`Controller`] owns one bus transport (an [`Interface`]) and offers one
//! method per controller command. Each method sends the command's opcode and
//! parameter bytes, or reads its response, in exactly one transport call.
//! Each transport keeps a model of the calls made on it, a [`History`] of
//! [`Exchange`]s, and the contracts of the methods are stated over the
//! history of the transport that the controller owns.

pub mod controller;
pub mod interface;
pub mod laws;
pub mod types;
pub mod wire;

pub use controller::Controller;
pub use interface::{Exchange, History, Interface, Request};
pub use types::{
    CtrlDisplay, DisplayIdentification, DisplayPowerMode, DisplayStatus, ImageFormat, MADCtl,
    MemoryAccessControl, PixelFormat, SelfDiagnosticResult, SignalMode, TearingEffect,
};
