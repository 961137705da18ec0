//! Command-line level types shared by the scanner.
pub mod scan;
