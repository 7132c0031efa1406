//! Finds the image files that lie beside a given path.
//!
//! The library holds the rules of a directory scan: which directory a path
//! stands for, which entries of a listing count as images, and what is
//! reported when the directory cannot be read. Reading the file system is left
//! to the caller, who hands the listing over as plain values.

pub mod extension;
pub mod scan;
pub mod launch;
pub mod laws;
