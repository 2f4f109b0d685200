//! Builds a minimal relocatable ELF object in memory: the document model, the
//! section-name string table, the section records that go to disk, and the
//! write protocol that hands them to an output sink one request at a time.

pub mod emitter;
pub mod error;
pub mod layout;
pub mod models;
mod os;
pub mod protocol;
pub mod strtab;
pub mod template;

pub use crate::template::generate;
