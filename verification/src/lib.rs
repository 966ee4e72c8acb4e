//! Core engine of a Surface Dial daemon: event normalization, long-press
//! synthesis, the controller and meta-mode state machines, the per-mode
//! dispatch logic, the haptics worker state machine with its exact HID
//! report layouts, and the virtual input-device emission model.
//!
//! Everything here is pure logic over plain values. The operating-system
//! edges (evdev reads, udev hotplug, HID writes, uinput injection, config
//! file I/O, desktop notifications) live outside the library and feed it
//! events; the library decides what to do and hands back the effects to
//! perform.

pub mod config;
pub mod controller;
pub mod controls;
pub mod device;
pub mod effects;
pub mod error;
pub mod event;
pub mod fake_input;
pub mod haptics;
