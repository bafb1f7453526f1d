//! Runtime metadata of IL2CPP binaries.

pub mod a64;
pub mod bytes;
pub mod code_registration;
pub mod disassembler;
pub mod elf;
pub mod errors;
pub mod global_metadata;
pub mod metadata_registration;
pub mod object_file;
pub mod pe;
pub mod reader;
pub mod runtime_metadata;
pub mod type_names;
pub mod type_tables;
pub mod types;
pub mod x86;
