//! Configuration-resolution core for a terminal UI application.
//!
//! Turns user-editable configuration files (already parsed into plain values
//! by the surrounding binary) into immutable in-memory configuration objects:
//! a visual [`theme::Theme`] and a [`key_config::KeyConfig`].  Configuration
//! is persisted as a sparse *patch* against compiled-in defaults; loading
//! transparently migrates an older full-value file format.  Also provides the
//! pure key-hint rendering and style-resolution queries used while drawing.

pub mod args;
pub mod color;
pub mod components;
pub mod events;
pub mod key_config;
pub mod key_list;
pub mod key_symbols;
pub mod patching;
pub mod style;
pub mod theme;
