//! Decoder for the identification prefix of ELF files.
//!
//! The first sixteen bytes of an ELF file say how the rest of the file is to
//! be read: a four-byte magic number, the file class (32 or 64 bit), the data
//! encoding (byte order) and the version of the header. This crate decodes
//! that prefix from bytes held in memory and proves, for every input, which
//! record or which error comes out.

pub mod error;
pub mod ident;
pub mod parser;
pub mod reader;

pub use error::{ElfError, ElfResult};
pub use ident::{DataEncoding, FileClass, Ident};
pub use parser::{Elf, ElfParser};
pub use reader::ByteReader;
