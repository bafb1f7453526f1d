//! What can go wrong while runtime metadata is read.

use vstd::prelude::*;

verus! {

/// Why a fixed-layout record could not be decoded.
#[derive(Clone, Copy, PartialEq, Eq, Debug, Structural)]
pub enum BinReadError {
    /// The data ended inside the record.
    Io,
    /// The number at file offset `pos` stands for no variant of the enumeration read there.
    NoVariantMatch { pos: u64 },
}

/// Why a stretch of AArch64 code could not be disassembled. Each variant carries the address
/// of the word that was rejected.
#[derive(Clone, Copy, PartialEq, Eq, Debug, Structural)]
pub enum A64DecodeError {
    Reserved(u64),
    Unmatched(u64),
    Unallocated(u64),
    Undefined(u64),
    EndOfInstruction(u64),
    Lost(u64),
    Unreachable(u64),
    Short(u64),
    ErrorOperands(u64),
}

/// An error found in an IL2CPP binary.
#[derive(Clone, Copy, PartialEq, Eq, Debug, Structural)]
pub enum Il2CppBinaryError {
    /// The data ended inside a field.
    Io,
    /// A fixed-layout record could not be decoded.
    BinRead(BinReadError),
    /// A string is not UTF-8.
    Utf8,
    /// The object file could not be parsed.
    Object,
    /// Code could not be disassembled.
    Disassemble(A64DecodeError),
    /// There is no `il2cpp_init` symbol.
    MissingIl2CppInit,
    /// There is no indirect call near the start of the runtime initialisation.
    MissingBlr,
    /// No segment holds this virtual address.
    VAddrConv(u64),
    /// This byte stands for no element type.
    InvalidType(u8),
}

/// Why reading stopped.
///
/// Reading takes some things for granted: that a pointer to a type names one of the listed
/// types, that code does not run off the end of the file, that a name ends in a NUL byte.
/// `Malformed` says that one of these does not hold; every other problem is an `Error`.
#[derive(Clone, Copy, PartialEq, Eq, Debug, Structural)]
pub enum ReadFailure {
    Error(Il2CppBinaryError),
    Malformed,
}

} // verus!
