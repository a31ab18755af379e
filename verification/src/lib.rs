//! Symbol-table extraction for ELF images held in memory.
//!
//! The structural reading of the image (header fields, section headers,
//! symbol records, string-table entries) is done by `goblin`; everything
//! that decides and decodes is verified here.

pub mod elf;
pub mod error;
pub mod laws;
pub mod layout;
pub mod reader;
pub mod strings;
pub mod symbol;
