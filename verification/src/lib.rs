//! Extraction of descriptive and technical metadata from image containers
//! and PDF documents into one normalized record.

pub mod document;
pub mod encode;
pub mod error;
pub mod extract;
pub mod image;
pub mod merge;
pub mod record;
pub mod tags;
pub mod text;
pub mod xml;
pub mod xmp;
