//! A library for docking a thin "bar" window to a screen edge under an
//! X11-family window manager, cooperating with the window manager through
//! EWMH (Extended Window Manager Hints).
//!
//! The verified core of the library is the protocol-level logic of the
//! adapter layer: the strut geometry calculator, the visual/depth
//! negotiator, the atom resolution subsystem, the event translator and the
//! dock-window construction planner. A backend (outside this library)
//! owns the transport connection, performs the planned requests in order
//! and hands replies back as plain values.

pub mod atoms;
pub mod bar;
pub mod config;
pub mod dock;
pub mod error;
pub mod event;
pub mod geometry;
pub mod visual;
pub mod wire;
