//! Protocol and lifecycle engine for a pair of emulated input devices (a
//! keyboard and a mouse) that a kernel-mode virtual bus exposes.
//!
//! The crate performs no I/O. It builds and reads the fixed-layout packets of
//! the bus, recognises the emulated devices among the children of the bus
//! node, tracks the pressed buttons and keys, and decides, step by step, what
//! the caller has to ask of the operating system next.
//!
//! - [`codec`] lays out the packets; [`wire`] and [`text`] hold what it is
//!   made of.
//! - [`identity`] reads instance ids, [`discovery`] walks the device tree.
//! - [`channel`] stands for an open device, [`input`] for what is held down,
//!   and [`manager`] joins them into one session.
//! - [`pointer`], [`cli`], [`installer`] and [`number`] serve the program
//!   around the session.

pub mod constants;
pub mod types;
pub mod status;
pub mod wire;
pub mod text;
pub mod number;
pub mod identity;
pub mod codec;
pub mod input;
pub mod channel;
pub mod discovery;
pub mod manager;
pub mod pointer;
pub mod cli;
pub mod installer;
