//! Decides how a program links against the snappy compression library:
//! through the system registry, through a prebuilt library found on a
//! search path, or by building the bundled source, and which linker
//! directives that choice implies.

pub mod config;
pub mod platform;
pub mod strategy;
pub mod laws;
pub mod emit;
pub mod render;
