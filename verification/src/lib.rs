//! Verified core of a display-calibration client: the line protocol spoken with
//! the spot-measurement tool, the decisions of the calibration model, and the
//! command model of the pattern generator.

pub mod bytes;
pub mod decimal;
pub mod spotread;
pub mod utils;
pub mod pgen;
pub mod generators;
pub mod outside;
pub mod read_file;
pub mod calibration;
