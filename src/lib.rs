//! The verified core of a small foreign-function surface: the error codes that
//! cross the boundary and how domain errors map onto them, the layout
//! description handed to binding generators for the two-float vector, and the
//! byte write behind the mutable-slice export.

pub mod error;
pub mod layout;
pub mod slices;

pub use error::{MyError, MyFFIError};
pub use layout::vec2_type;
pub use slices::mark_first_byte;
