//! Spectral improvement engine: the integer, text and decision core.

pub mod text;
pub mod spectral;
pub mod renormalization;
pub mod conservation;
pub mod pde;
pub mod feedback;
pub mod trajectory;
