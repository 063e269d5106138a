//! Window-configuration records and their conversion into the construction
//! parameters of a windowing backend.
//!
//! A [`config::DisplayConfig`] holds window-creation preferences. It can be
//! built from defaults, read from a structured configuration document with
//! per-field defaulting ([`document`]), and converted into a fully populated
//! builder descriptor, resolving an optional fullscreen monitor identifier
//! through a [`monitor::MonitorsAccess`] capability.

pub mod config;
pub mod document;
pub mod monitor;
