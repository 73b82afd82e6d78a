//! Verified core of an interactive serial-port terminal.
//!
//! The library holds the logic of the session: the bounded history of
//! device output, the translation of operator keystrokes into the bytes a
//! device expects, the composition of fixed status-bar lines, the ANSI
//! control sequences that keep those bars out of the scroll region, and
//! the state machines that drive the ingest side and the renderer side of
//! the pipeline.  The device itself and the terminal are reached only from
//! unverified glue outside this crate, which feeds plain values in and
//! carries the computed bytes out.

pub mod ansi;
pub mod frontend;
pub mod guard;
pub mod history;
pub mod ingest;
pub mod keymap;
pub mod ports;
pub mod renderer;
pub mod status;
