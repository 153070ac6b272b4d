//! Interaction-mode controller for a click-through overlay window.
//!
//! The overlay is purely visual by default: pointer events pass through it and
//! it never takes keyboard focus. On demand it can be switched into an
//! interactive mode. The controller here decides every transition; the host
//! program performs the window calls and the event publication it asks for and
//! reports their results back.
pub mod controller;
pub mod laws;
pub mod machine;
