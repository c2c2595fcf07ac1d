//! The entities of the finance domain.
pub mod entities;
