//! The line protocol of the spot-measurement tool and the automaton that drives it.

pub mod driver;
pub mod laws;
pub mod launch;
pub mod line;
