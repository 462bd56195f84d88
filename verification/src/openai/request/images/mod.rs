//! The operations on images.

pub mod variation;
