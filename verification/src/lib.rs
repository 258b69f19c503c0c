//! Verified core of an SPX-to-HTML conversion stage.
//!
//! The stage consumes a positioned-glyph event stream and produces HTML
//! documents plus font/CSS assets. This crate holds the event-driven state
//! machine, the canvas layout arithmetic, the wire-protocol parsing and the
//! asset manifest, each with a verified contract. File I/O, template
//! rendering and floating-point CSS formatting live with the caller, which
//! drives the machine and performs the actions it requests.

pub mod assets;
pub mod bytes;
pub mod canvas;
pub mod dict;
pub mod engine;
pub mod fonts;
pub mod html;
pub mod manifest;
pub mod paths;
pub mod protocol;
pub mod report;
