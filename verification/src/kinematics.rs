//! How the joints of the arm are driven.

pub mod joints;
