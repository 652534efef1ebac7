//! Turns raw datasheet tables (microcontroller interrupt vectors and
//! memory-mapped register descriptions) into a structured
//! peripheral/register model ready for serialization as a CMSIS-SVD
//! document.
//!
//! The crate is the data-cleaning and model-construction core: it
//! normalizes extraction-noisy tabular text (addresses, access modes,
//! reset values), discards repeated pagination headers and continuation
//! noise, and assembles the surviving rows into the fixed
//! device/peripheral/register hierarchy. Table extraction and the
//! mechanical XML writing stay outside.

pub mod datasheet;
pub mod svd;
pub mod text;
