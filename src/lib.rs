//! Decoding of the 64-byte file header of a 64-bit ELF object.
//!
//! `header` holds the decoded record and the classifiers that turn raw
//! numeric codes into named variants; `parser` holds the byte-level decoder.
pub mod header;
pub mod parser;

pub use header::{Class, Data, Header, Ident, Machine, OsAbi, Type, Version, ELF};
pub use parser::{
    parse_abi_version, parse_class, parse_data, parse_elf_header, parse_ident, parse_machine,
    parse_magic_number, parse_os_api, parse_type, parse_version, ParseError,
};
