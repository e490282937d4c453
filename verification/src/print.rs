//! Printing of installer source documents from the project's metadata.

pub mod wxs;
