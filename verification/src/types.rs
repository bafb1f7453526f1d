//! The records of the runtime metadata.

use vstd::prelude::*;

use crate::bytes;
use crate::bytes::Cursor;
use crate::errors::BinReadError;
use crate::global_metadata::{GenericParameterIndex, MethodIndex, Token, TypeDefinitionIndex};
use crate::reader::Record;

verus! {

/// Defined at `il2cpp-class-internals:570`
#[derive(Clone, Copy, PartialEq, Eq, Debug, Structural)]
pub struct Il2CppTokenAdjustorThunkPair {
    pub token: Token,
    pub adjustor_thunk: u64,
}

/// The first multiple of eight at or after `pos`.
pub open spec fn align8(pos: int) -> int {
    (pos + 7) / 8 * 8
}

impl Record for Il2CppTokenAdjustorThunkPair {
    /// The thunk stands at the next file offset behind the token that is a multiple of eight.
    open spec fn decode(data: Seq<u8>, pos: int) -> Result<(Self, int), BinReadError> {
        if bytes::fits(data, pos, 4) && bytes::fits(data, align8(pos + 4), 8) {
            Ok(
                (
                    Il2CppTokenAdjustorThunkPair {
                        token: Token(bytes::u32_at(data, pos)),
                        adjustor_thunk: bytes::u64_at(data, align8(pos + 4)),
                    },
                    align8(pos + 4) + 8,
                ),
            )
        } else {
            Err(BinReadError::Io)
        }
    }

    fn read_le(cur: &mut Cursor) -> (r: Result<Self, BinReadError>) {
        let token = match cur.read_u32() {
            Ok(token) => Token(token),
            Err(_) => return Err(BinReadError::Io),
        };
        let gap: u64 = (8 - cur.pos % 8) % 8;
        assert(cur.data.len() <= u64::MAX);
        match cur.seek_forward(gap) {
            Ok(_) => {},
            Err(_) => return Err(BinReadError::Io),
        }
        match cur.read_u64() {
            Ok(adjustor_thunk) => Ok(Il2CppTokenAdjustorThunkPair { token, adjustor_thunk }),
            Err(_) => Err(BinReadError::Io),
        }
    }
}

/// Defined at `il2cpp-class-internals:550`
#[derive(Clone, Copy, PartialEq, Eq, Debug, Structural)]
pub struct Il2CppRange {
    pub start: u32,
    pub length: u32,
}

impl Record for Il2CppRange {
    open spec fn decode(data: Seq<u8>, pos: int) -> Result<(Self, int), BinReadError> {
        if bytes::fits(data, pos, 8) {
            Ok(
                (
                    Il2CppRange {
                        start: bytes::u32_at(data, pos),
                        length: bytes::u32_at(data, pos + 4),
                    },
                    pos + 8,
                ),
            )
        } else {
            Err(BinReadError::Io)
        }
    }

    fn read_le(cur: &mut Cursor) -> (r: Result<Self, BinReadError>) {
        assert(Il2CppRange::decode(cur.data@, cur.pos as int) is Ok <==> bytes::fits(
            cur.data@,
            cur.pos as int,
            8,
        ));
        let start: u32 = match cur.read_u32() {
            Ok(start) => start,
            Err(_) => return Err(BinReadError::Io),
        };
        match cur.read_u32() {
            Ok(length) => Ok(Il2CppRange { start, length }),
            Err(_) => Err(BinReadError::Io),
        }
    }
}

/// Defined at `il2cpp-class-internals:556`
#[derive(Clone, Copy, PartialEq, Eq, Debug, Structural)]
pub struct Il2CppTokenRangePair {
    pub token: Token,
    pub range: Il2CppRange,
}

impl Record for Il2CppTokenRangePair {
    open spec fn decode(data: Seq<u8>, pos: int) -> Result<(Self, int), BinReadError> {
        if bytes::fits(data, pos, 12) {
            Ok(
                (
                    Il2CppTokenRangePair {
                        token: Token(bytes::u32_at(data, pos)),
                        range: Il2CppRange {
                            start: bytes::u32_at(data, pos + 4),
                            length: bytes::u32_at(data, pos + 8),
                        },
                    },
                    pos + 12,
                ),
            )
        } else {
            Err(BinReadError::Io)
        }
    }

    fn read_le(cur: &mut Cursor) -> (r: Result<Self, BinReadError>) {
        let token = match cur.read_u32() {
            Ok(token) => Token(token),
            Err(_) => return Err(BinReadError::Io),
        };
        match Il2CppRange::read_le(cur) {
            Ok(range) => Ok(Il2CppTokenRangePair { token, range }),
            Err(e) => Err(e),
        }
    }
}

/// Defined at `il2cpp-metadata.h:69`
#[derive(Clone, Copy, PartialEq, Eq, Debug, Structural)]
pub enum Il2CppRGCTXDataType {
    Invalid,
    Type,
    Class,
    Method,
    Array,
    Constrained,
}

/// The kind of runtime generic context data that a number stands for.
pub open spec fn rgctx_data_type(number: u64) -> Option<Il2CppRGCTXDataType> {
    if number == 0 {
        Some(Il2CppRGCTXDataType::Invalid)
    } else if number == 1 {
        Some(Il2CppRGCTXDataType::Type)
    } else if number == 2 {
        Some(Il2CppRGCTXDataType::Class)
    } else if number == 3 {
        Some(Il2CppRGCTXDataType::Method)
    } else if number == 4 {
        Some(Il2CppRGCTXDataType::Array)
    } else if number == 5 {
        Some(Il2CppRGCTXDataType::Constrained)
    } else {
        None
    }
}

impl Record for Il2CppRGCTXDataType {
    /// A 64-bit number.
    open spec fn decode(data: Seq<u8>, pos: int) -> Result<(Self, int), BinReadError> {
        if bytes::fits(data, pos, 8) {
            match rgctx_data_type(bytes::u64_at(data, pos)) {
                Some(ty) => Ok((ty, pos + 8)),
                None => Err(BinReadError::NoVariantMatch { pos: pos as u64 }),
            }
        } else {
            Err(BinReadError::Io)
        }
    }

    fn read_le(cur: &mut Cursor) -> (r: Result<Self, BinReadError>) {
        let pos: u64 = cur.pos;
        match cur.read_u64() {
            Ok(number) => match number {
                0 => Ok(Il2CppRGCTXDataType::Invalid),
                1 => Ok(Il2CppRGCTXDataType::Type),
                2 => Ok(Il2CppRGCTXDataType::Class),
                3 => Ok(Il2CppRGCTXDataType::Method),
                4 => Ok(Il2CppRGCTXDataType::Array),
                5 => Ok(Il2CppRGCTXDataType::Constrained),
                _ => Err(BinReadError::NoVariantMatch { pos }),
            },
            Err(_) => Err(BinReadError::Io),
        }
    }
}

/// A runtime generic context.
///
/// Defined at `il2cpp-metadata.h:92`
#[derive(Clone, Copy, PartialEq, Eq, Debug, Structural)]
pub struct Il2CppRGCTXDefinition {
    pub ty: Il2CppRGCTXDataType,
    pub data: u64,
}

impl Record for Il2CppRGCTXDefinition {
    open spec fn decode(data: Seq<u8>, pos: int) -> Result<(Self, int), BinReadError> {
        match Il2CppRGCTXDataType::decode(data, pos) {
            Ok((ty, _)) => if bytes::fits(data, pos, 16) {
                Ok((Il2CppRGCTXDefinition { ty, data: bytes::u64_at(data, pos + 8) }, pos + 16))
            } else {
                Err(BinReadError::Io)
            },
            Err(e) => Err(e),
        }
    }

    fn read_le(cur: &mut Cursor) -> (r: Result<Self, BinReadError>) {
        let ty = match Il2CppRGCTXDataType::read_le(cur) {
            Ok(ty) => ty,
            Err(e) => return Err(e),
        };
        match cur.read_u64() {
            Ok(data) => Ok(Il2CppRGCTXDefinition { ty, data }),
            Err(_) => Err(BinReadError::Io),
        }
    }
}

/// Defined at `il2cpp-runtime-metadata.h:11`
#[derive(Debug)]
pub struct Il2CppArrayType {
    pub elem_ty: usize,
    pub rank: u8,
    pub sizes: Vec<u32>,
    pub lower_bounds: Vec<u32>,
}

/// The mathematical value of an [`Il2CppArrayType`].
#[verifier::ext_equal]
pub struct ArrayTypeView {
    pub elem_ty: usize,
    pub rank: u8,
    pub sizes: Seq<u32>,
    pub lower_bounds: Seq<u32>,
}

impl View for Il2CppArrayType {
    type V = ArrayTypeView;

    open spec fn view(&self) -> ArrayTypeView {
        ArrayTypeView {
            elem_ty: self.elem_ty,
            rank: self.rank,
            sizes: self.sizes@,
            lower_bounds: self.lower_bounds@,
        }
    }
}

/// The values of a list of array types.
pub open spec fn array_type_views(array_types: Seq<Il2CppArrayType>) -> Seq<ArrayTypeView> {
    array_types.map_values(|a: Il2CppArrayType| a@)
}

/// Corresponds to element type signatures.
/// See ECMA-335, II.23.1.16
///
/// Defined at `il2cpp-blob.h:6`
#[derive(Clone, Copy, PartialEq, Eq, Hash, Debug, Structural)]
pub enum Il2CppTypeEnum {
    /// End of list
    End,
    /// System.Void (void)
    Void,
    /// System.Boolean (bool)
    Boolean,
    /// System.Char (char)
    Char,
    /// System.SByte (sbyte)
    I1,
    /// System.Byte (byte)
    U1,
    /// System.Int16 (short)
    I2,
    /// System.UInt16 (ushort)
    U2,
    /// System.Int32 (int)
    I4,
    /// System.UInt32 (uint)
    U4,
    /// System.Int64 (long)
    I8,
    /// System.UInt64 (ulong)
    U8,
    /// System.Single (float)
    R4,
    /// System.Double (double)
    R8,
    /// System.String (string)
    String,
    Ptr,
    Byref,
    Valuetype,
    Class,
    /// Class generic parameter
    Var,
    Array,
    Genericinst,
    /// System.TypedReference
    Typedbyref,
    /// System.IntPtr
    I,
    /// System.UIntPtr
    U,
    Fnptr,
    /// System.Object (object)
    Object,
    /// Single-dimensioned zero-based array type
    Szarray,
    /// Method generic parameter
    Mvar,
    /// Required modifier
    CmodReqd,
    /// Optional modifier
    CmodOpt,
    Internal,
    Modifier,
    /// Sentinel for vararg method signature
    Sentinel,
    /// Denotes a local variable points to a pinned object
    Pinned,
    /// Used in custom attributes to specify an enum
    Enum,
}

/// The byte that stands for an element type.
pub open spec fn type_code(ty: Il2CppTypeEnum) -> u8 {
    match ty {
        Il2CppTypeEnum::End => 0x00,
        Il2CppTypeEnum::Void => 0x01,
        Il2CppTypeEnum::Boolean => 0x02,
        Il2CppTypeEnum::Char => 0x03,
        Il2CppTypeEnum::I1 => 0x04,
        Il2CppTypeEnum::U1 => 0x05,
        Il2CppTypeEnum::I2 => 0x06,
        Il2CppTypeEnum::U2 => 0x07,
        Il2CppTypeEnum::I4 => 0x08,
        Il2CppTypeEnum::U4 => 0x09,
        Il2CppTypeEnum::I8 => 0x0a,
        Il2CppTypeEnum::U8 => 0x0b,
        Il2CppTypeEnum::R4 => 0x0c,
        Il2CppTypeEnum::R8 => 0x0d,
        Il2CppTypeEnum::String => 0x0e,
        Il2CppTypeEnum::Ptr => 0x0f,
        Il2CppTypeEnum::Byref => 0x10,
        Il2CppTypeEnum::Valuetype => 0x11,
        Il2CppTypeEnum::Class => 0x12,
        Il2CppTypeEnum::Var => 0x13,
        Il2CppTypeEnum::Array => 0x14,
        Il2CppTypeEnum::Genericinst => 0x15,
        Il2CppTypeEnum::Typedbyref => 0x16,
        Il2CppTypeEnum::I => 0x18,
        Il2CppTypeEnum::U => 0x19,
        Il2CppTypeEnum::Fnptr => 0x1b,
        Il2CppTypeEnum::Object => 0x1c,
        Il2CppTypeEnum::Szarray => 0x1d,
        Il2CppTypeEnum::Mvar => 0x1e,
        Il2CppTypeEnum::CmodReqd => 0x1f,
        Il2CppTypeEnum::CmodOpt => 0x20,
        Il2CppTypeEnum::Internal => 0x21,
        Il2CppTypeEnum::Modifier => 0x40,
        Il2CppTypeEnum::Sentinel => 0x41,
        Il2CppTypeEnum::Pinned => 0x45,
        Il2CppTypeEnum::Enum => 0x55,
    }
}

/// The element type that a byte stands for.
pub open spec fn type_of_code(code: u8) -> Option<Il2CppTypeEnum> {
    if exists|ty: Il2CppTypeEnum| type_code(ty) == code {
        Some(choose|ty: Il2CppTypeEnum| type_code(ty) == code)
    } else {
        None
    }
}

impl Il2CppTypeEnum {
    /// The element type that a byte stands for.
    pub fn from_ty(ty: u8) -> (r: Option<Self>)
        ensures
            r == type_of_code(ty),
            match r {
                Some(e) => type_code(e) == ty,
                None => forall|e: Il2CppTypeEnum| type_code(e) != ty,
            },
    {
        let r = Self::find_code(ty);
        proof {
            if let Some(e) = r {
                law_type_codes_distinct(e, type_of_code(ty).unwrap());
            }
        }
        r
    }

    /// Finds the element type with this byte.
    fn find_code(ty: u8) -> (r: Option<Self>)
        ensures
            match r {
                Some(e) => type_code(e) == ty,
                None => forall|e: Il2CppTypeEnum| type_code(e) != ty,
            },
    {
        Some(match ty {
            0x00 => Il2CppTypeEnum::End,
            0x01 => Il2CppTypeEnum::Void,
            0x02 => Il2CppTypeEnum::Boolean,
            0x03 => Il2CppTypeEnum::Char,
            0x04 => Il2CppTypeEnum::I1,
            0x05 => Il2CppTypeEnum::U1,
            0x06 => Il2CppTypeEnum::I2,
            0x07 => Il2CppTypeEnum::U2,
            0x08 => Il2CppTypeEnum::I4,
            0x09 => Il2CppTypeEnum::U4,
            0x0a => Il2CppTypeEnum::I8,
            0x0b => Il2CppTypeEnum::U8,
            0x0c => Il2CppTypeEnum::R4,
            0x0d => Il2CppTypeEnum::R8,
            0x0e => Il2CppTypeEnum::String,
            0x0f => Il2CppTypeEnum::Ptr,
            0x10 => Il2CppTypeEnum::Byref,
            0x11 => Il2CppTypeEnum::Valuetype,
            0x12 => Il2CppTypeEnum::Class,
            0x13 => Il2CppTypeEnum::Var,
            0x14 => Il2CppTypeEnum::Array,
            0x15 => Il2CppTypeEnum::Genericinst,
            0x16 => Il2CppTypeEnum::Typedbyref,
            0x18 => Il2CppTypeEnum::I,
            0x19 => Il2CppTypeEnum::U,
            0x1b => Il2CppTypeEnum::Fnptr,
            0x1c => Il2CppTypeEnum::Object,
            0x1d => Il2CppTypeEnum::Szarray,
            0x1e => Il2CppTypeEnum::Mvar,
            0x1f => Il2CppTypeEnum::CmodReqd,
            0x20 => Il2CppTypeEnum::CmodOpt,
            0x21 => Il2CppTypeEnum::Internal,
            0x40 => Il2CppTypeEnum::Modifier,
            0x41 => Il2CppTypeEnum::Sentinel,
            0x45 => Il2CppTypeEnum::Pinned,
            0x55 => Il2CppTypeEnum::Enum,
            _ => return None,
        })
    }
}

/// The byte of an element type stands for that element type.
pub proof fn law_type_code_reads_back(ty: Il2CppTypeEnum)
    ensures
        type_of_code(type_code(ty)) == Some(ty),
{
    law_type_codes_distinct(ty, type_of_code(type_code(ty)).unwrap());
}

/// No two element types share a byte.
pub proof fn law_type_codes_distinct(a: Il2CppTypeEnum, b: Il2CppTypeEnum)
    requires
        type_code(a) == type_code(b),
    ensures
        a == b,
{
}

#[derive(Clone, Copy, PartialEq, Eq, Hash, Debug, Structural)]
pub enum TypeData {
    TypeDefinitionIndex(TypeDefinitionIndex),
    /// For [`Il2CppTypeEnum::Ptr`] and [`Il2CppTypeEnum::Szarray`]
    TypeIndex(usize),
    /// For [`Il2CppTypeEnum::Var`] and [`Il2CppTypeEnum::Mvar`]
    GenericParameterIndex(GenericParameterIndex),
    /// For [`Il2CppTypeEnum::Genericinst`]
    GenericClassIndex(usize),
    /// For [`Il2CppTypeEnum::Array`]
    ArrayType(usize),
}

/// Defined at `il2cpp-runtime-metadata.h:48`
#[derive(Clone, Copy, PartialEq, Eq, Hash, Debug, Structural)]
pub struct Il2CppType {
    pub data: TypeData,
    /// Param attributes or field flags. See `il2cpp-tabledef.h`
    pub attrs: u16,
    pub ty: Il2CppTypeEnum,
    pub byref: bool,
    /// valid when included in a local var signature
    pub pinned: bool,
    pub valuetype: bool,
}

/// A generic class instantiation.
///
/// Defined at `il2cpp-runtime-metadata.h:40`
#[derive(Clone, Copy, PartialEq, Eq, Debug, Structural)]
pub struct Il2CppGenericClass {
    /// The generic type definition.
    ///
    /// Indices into the [`Il2CppMetadataRegistration::types`] field.
    pub type_index: usize,
    /// A context that contains the type instantiation doesn't contain any method instantiation.
    pub context: Il2CppGenericContext,
}

/// Defined at `il2cpp-runtime-metadata.h:27`
#[derive(Clone, Copy, PartialEq, Eq, Debug, Structural)]
pub struct Il2CppGenericContext {
    /// Indices into the [`Il2CppMetadataRegistration::generic_insts`] field
    pub class_inst_idx: Option<usize>,
    /// Indices into the [`Il2CppMetadataRegistration::generic_insts`] field
    pub method_inst_idx: Option<usize>,
}

/// A generic method instantiation.
///
/// It is not possible for both `class_inst_index` and `method_inst_index` to
/// be invalid since if both the class and method are not generic, you cannot
/// make a generic instance.
///
/// Defined at `il2cpp-metadata.h:67`
#[derive(Clone, Copy, PartialEq, Eq, Debug, Structural)]
pub struct Il2CppMethodSpec {
    /// The method definition.
    pub method_definition_index: MethodIndex,
    /// The class generic argument list (if class is generic).
    ///
    /// Indices into the [`Il2CppMetadataRegistration::generic_insts`] field
    pub class_inst_index: u32,
    /// The method generic argument list (if method is generic).
    ///
    /// Indices into the [`Il2CppMetadataRegistration::generic_insts`] field
    pub method_inst_index: u32,
}

impl Record for Il2CppMethodSpec {
    open spec fn decode(data: Seq<u8>, pos: int) -> Result<(Self, int), BinReadError> {
        if bytes::fits(data, pos, 12) {
            Ok(
                (
                    Il2CppMethodSpec {
                        method_definition_index: MethodIndex { index: bytes::u32_at(data, pos) },
                        class_inst_index: bytes::u32_at(data, pos + 4),
                        method_inst_index: bytes::u32_at(data, pos + 8),
                    },
                    pos + 12,
                ),
            )
        } else {
            Err(BinReadError::Io)
        }
    }

    fn read_le(cur: &mut Cursor) -> (r: Result<Self, BinReadError>) {
        let method_definition_index = match cur.read_u32() {
            Ok(index) => MethodIndex::new(index),
            Err(_) => return Err(BinReadError::Io),
        };
        let class_inst_index: u32 = match cur.read_u32() {
            Ok(index) => index,
            Err(_) => return Err(BinReadError::Io),
        };
        match cur.read_u32() {
            Ok(method_inst_index) => Ok(
                Il2CppMethodSpec { method_definition_index, class_inst_index, method_inst_index },
            ),
            Err(_) => Err(BinReadError::Io),
        }
    }
}

/// A list of types used for a generic instantiation.
///
/// Defined at `il2cpp-runtime-metadata.h:21`
#[derive(Debug)]
pub struct Il2CppGenericInst {
    /// Indices into the [`Il2CppMetadataRegistration::types`] field
    pub types: Vec<usize>,
}

impl View for Il2CppGenericInst {
    type V = Seq<usize>;

    open spec fn view(&self) -> Seq<usize> {
        self.types@
    }
}

/// The values of a list of generic instantiations.
pub open spec fn generic_inst_views(insts: Seq<Il2CppGenericInst>) -> Seq<Seq<usize>> {
    insts.map_values(|inst: Il2CppGenericInst| inst@)
}

#[derive(Clone, Copy, PartialEq, Eq, Debug, Structural)]
pub struct GenericMethodIndices {
    /// Index for the [`Il2CppCodeRegistration::generic_method_pointers`] field
    pub method_index: u32,
    /// Index for the [`Il2CppCodeRegistration::invoker_pointers`] field
    pub invoker_index: u32,
    /// Index for the [`Il2CppCodeRegistration::generic_adjustor_thunks`] field (optional)
    pub adjustor_thunk_index: u32,
}

/// Defined at `il2cpp-metadata.h:105`
#[derive(Clone, Copy, PartialEq, Eq, Debug, Structural)]
pub struct Il2CppGenericMethodFunctionsDefinitions {
    /// Index for [`Il2CppMetadataRegistration::method_specs`]
    pub generic_method_index: u32,
    pub indices: GenericMethodIndices,
}

impl Record for GenericMethodIndices {
    open spec fn decode(data: Seq<u8>, pos: int) -> Result<(Self, int), BinReadError> {
        if bytes::fits(data, pos, 12) {
            Ok(
                (
                    GenericMethodIndices {
                        method_index: bytes::u32_at(data, pos),
                        invoker_index: bytes::u32_at(data, pos + 4),
                        adjustor_thunk_index: bytes::u32_at(data, pos + 8),
                    },
                    pos + 12,
                ),
            )
        } else {
            Err(BinReadError::Io)
        }
    }

    fn read_le(cur: &mut Cursor) -> (r: Result<Self, BinReadError>) {
        assert(GenericMethodIndices::decode(cur.data@, cur.pos as int) is Ok <==> bytes::fits(
            cur.data@,
            cur.pos as int,
            12,
        ));
        let method_index: u32 = match cur.read_u32() {
            Ok(index) => index,
            Err(_) => return Err(BinReadError::Io),
        };
        let invoker_index: u32 = match cur.read_u32() {
            Ok(index) => index,
            Err(_) => return Err(BinReadError::Io),
        };
        match cur.read_u32() {
            Ok(adjustor_thunk_index) => Ok(
                GenericMethodIndices { method_index, invoker_index, adjustor_thunk_index },
            ),
            Err(_) => Err(BinReadError::Io),
        }
    }
}

impl Record for Il2CppGenericMethodFunctionsDefinitions {
    open spec fn decode(data: Seq<u8>, pos: int) -> Result<(Self, int), BinReadError> {
        if bytes::fits(data, pos, 16) {
            Ok(
                (
                    Il2CppGenericMethodFunctionsDefinitions {
                        generic_method_index: bytes::u32_at(data, pos),
                        indices: GenericMethodIndices {
                            method_index: bytes::u32_at(data, pos + 4),
                            invoker_index: bytes::u32_at(data, pos + 8),
                            adjustor_thunk_index: bytes::u32_at(data, pos + 12),
                        },
                    },
                    pos + 16,
                ),
            )
        } else {
            Err(BinReadError::Io)
        }
    }

    fn read_le(cur: &mut Cursor) -> (r: Result<Self, BinReadError>) {
        let generic_method_index: u32 = match cur.read_u32() {
            Ok(index) => index,
            Err(_) => return Err(BinReadError::Io),
        };
        match GenericMethodIndices::read_le(cur) {
            Ok(indices) => Ok(
                Il2CppGenericMethodFunctionsDefinitions { generic_method_index, indices },
            ),
            Err(e) => Err(e),
        }
    }
}

/// Compiler calculated values
///
/// Defined at `il2cpp-class-internals:475`
#[derive(Clone, Copy, PartialEq, Eq, Debug, Structural)]
pub struct Il2CppTypeDefinitionSizes {
    pub instance_size: u32,
    pub native_size: i32,
    pub static_fields_size: u32,
    pub thread_static_fields_size: u32,
}

/// The two's complement value of a 32-bit word.
pub open spec fn signed_word(word: u32) -> int {
    if word < 0x8000_0000 {
        word as int
    } else {
        word - 0x1_0000_0000
    }
}

/// Reads a 32-bit word as two's complement.
fn to_signed(word: u32) -> (r: i32)
    ensures
        r == signed_word(word),
{
    assert(word < 0x8000_0000 ==> word as i32 == word) by (bit_vector);
    assert(word >= 0x8000_0000 ==> word as i32 == word - 0x1_0000_0000) by (bit_vector);
    #[verifier::truncate]
    let r: i32 = word as i32;
    r
}

impl Record for Il2CppTypeDefinitionSizes {
    open spec fn decode(data: Seq<u8>, pos: int) -> Result<(Self, int), BinReadError> {
        if bytes::fits(data, pos, 16) {
            Ok(
                (
                    Il2CppTypeDefinitionSizes {
                        instance_size: bytes::u32_at(data, pos),
                        native_size: signed_word(bytes::u32_at(data, pos + 4)) as i32,
                        static_fields_size: bytes::u32_at(data, pos + 8),
                        thread_static_fields_size: bytes::u32_at(data, pos + 12),
                    },
                    pos + 16,
                ),
            )
        } else {
            Err(BinReadError::Io)
        }
    }

    fn read_le(cur: &mut Cursor) -> (r: Result<Self, BinReadError>) {
        let instance_size: u32 = match cur.read_u32() {
            Ok(size) => size,
            Err(_) => return Err(BinReadError::Io),
        };
        let native_size: i32 = match cur.read_u32() {
            Ok(size) => to_signed(size),
            Err(_) => return Err(BinReadError::Io),
        };
        let static_fields_size: u32 = match cur.read_u32() {
            Ok(size) => size,
            Err(_) => return Err(BinReadError::Io),
        };
        match cur.read_u32() {
            Ok(thread_static_fields_size) => Ok(
                Il2CppTypeDefinitionSizes {
                    instance_size,
                    native_size,
                    static_fields_size,
                    thread_static_fields_size,
                },
            ),
            Err(_) => Err(BinReadError::Io),
        }
    }
}

// ---------------------------------------------------------------------------------------------
// Where the fields of records stand
// ---------------------------------------------------------------------------------------------

/// A range is two 32-bit numbers.
pub proof fn law_range_fields(data: Seq<u8>, pos: int)
    requires
        0 <= pos,
    ensures
        pos + 8 > data.len() ==> Il2CppRange::decode(data, pos) == Err::<
            (Il2CppRange, int),
            BinReadError,
        >(BinReadError::Io),
        pos + 8 <= data.len() ==> (Il2CppRange::decode(data, pos) matches Ok((r, end)) && {
            &&& end == pos + 8
            &&& r.start == bytes::u32_at(data, pos)
            &&& r.length == bytes::u32_at(data, pos + 4)
        }),
{
}

/// A token and a range stand one behind the other.
pub proof fn law_token_range_fields(data: Seq<u8>, pos: int)
    requires
        0 <= pos,
    ensures
        pos + 12 > data.len() ==> Il2CppTokenRangePair::decode(data, pos) == Err::<
            (Il2CppTokenRangePair, int),
            BinReadError,
        >(BinReadError::Io),
        pos + 12 <= data.len() ==> (Il2CppTokenRangePair::decode(data, pos) matches Ok((r, end))
            && {
            &&& end == pos + 12
            &&& r.token.0 == bytes::u32_at(data, pos)
            &&& Il2CppRange::decode(data, pos + 4) == Ok::<(Il2CppRange, int), BinReadError>(
                (r.range, end),
            )
        }),
{
}

/// A thunk stands behind its token, at the first file offset from there on that eight divides.
pub proof fn law_thunk_fields(data: Seq<u8>, pos: int, at: int)
    requires
        0 <= pos,
        pos + 4 <= at < pos + 12,
        at % 8 == 0,
    ensures
        at + 8 > data.len() ==> Il2CppTokenAdjustorThunkPair::decode(data, pos) == Err::<
            (Il2CppTokenAdjustorThunkPair, int),
            BinReadError,
        >(BinReadError::Io),
        at + 8 <= data.len() ==> (Il2CppTokenAdjustorThunkPair::decode(data, pos) matches Ok(
            (r, end),
        ) && {
            &&& end == at + 8
            &&& r.token.0 == bytes::u32_at(data, pos)
            &&& r.adjustor_thunk == bytes::u64_at(data, at)
        }),
{
}

/// The number of each kind of runtime generic context data is its place in the enumeration.
pub open spec fn rgctx_number(ty: Il2CppRGCTXDataType) -> u64 {
    match ty {
        Il2CppRGCTXDataType::Invalid => 0,
        Il2CppRGCTXDataType::Type => 1,
        Il2CppRGCTXDataType::Class => 2,
        Il2CppRGCTXDataType::Method => 3,
        Il2CppRGCTXDataType::Array => 4,
        Il2CppRGCTXDataType::Constrained => 5,
    }
}

/// A kind of runtime generic context data is read from its number, as 64 bits. Any number that
/// no kind has is an error, which says where it stands.
pub proof fn law_rgctx_kind(data: Seq<u8>, pos: int)
    requires
        0 <= pos,
    ensures
        pos + 8 > data.len() ==> Il2CppRGCTXDataType::decode(data, pos) == Err::<
            (Il2CppRGCTXDataType, int),
            BinReadError,
        >(BinReadError::Io),
        pos + 8 <= data.len() && bytes::u64_at(data, pos) <= 5 ==> (Il2CppRGCTXDataType::decode(
            data,
            pos,
        ) matches Ok((ty, end)) && end == pos + 8 && rgctx_number(ty) == bytes::u64_at(
            data,
            pos,
        )),
        pos + 8 <= data.len() && bytes::u64_at(data, pos) > 5 ==> Il2CppRGCTXDataType::decode(
            data,
            pos,
        ) == Err::<(Il2CppRGCTXDataType, int), BinReadError>(
            BinReadError::NoVariantMatch { pos: pos as u64 },
        ),
{
}

/// A runtime generic context is a kind and a word.
pub proof fn law_rgctx_fields(data: Seq<u8>, pos: int)
    requires
        0 <= pos,
    ensures
        match Il2CppRGCTXDataType::decode(data, pos) {
            Err(e) => Il2CppRGCTXDefinition::decode(data, pos) == Err::<
                (Il2CppRGCTXDefinition, int),
                BinReadError,
            >(e),
            Ok((ty, _)) => {
                &&& pos + 16 > data.len() ==> Il2CppRGCTXDefinition::decode(data, pos) == Err::<
                    (Il2CppRGCTXDefinition, int),
                    BinReadError,
                >(BinReadError::Io)
                &&& pos + 16 <= data.len() ==> (Il2CppRGCTXDefinition::decode(data, pos) matches Ok(
                    (r, end),
                ) && end == pos + 16 && r.ty == ty && r.data == bytes::u64_at(data, pos + 8))
            },
        },
{
}

/// A method specification is three 32-bit numbers.
pub proof fn law_method_spec_fields(data: Seq<u8>, pos: int)
    requires
        0 <= pos,
    ensures
        pos + 12 > data.len() ==> Il2CppMethodSpec::decode(data, pos) == Err::<
            (Il2CppMethodSpec, int),
            BinReadError,
        >(BinReadError::Io),
        pos + 12 <= data.len() ==> (Il2CppMethodSpec::decode(data, pos) matches Ok((r, end)) && {
            &&& end == pos + 12
            &&& r.method_definition_index.index == bytes::u32_at(data, pos)
            &&& r.class_inst_index == bytes::u32_at(data, pos + 4)
            &&& r.method_inst_index == bytes::u32_at(data, pos + 8)
        }),
{
}

/// The indices of a generic method are three 32-bit numbers.
pub proof fn law_method_indices_fields(data: Seq<u8>, pos: int)
    requires
        0 <= pos,
    ensures
        pos + 12 > data.len() ==> GenericMethodIndices::decode(data, pos) == Err::<
            (GenericMethodIndices, int),
            BinReadError,
        >(BinReadError::Io),
        pos + 12 <= data.len() ==> (GenericMethodIndices::decode(data, pos) matches Ok((r, end))
            && {
            &&& end == pos + 12
            &&& r.method_index == bytes::u32_at(data, pos)
            &&& r.invoker_index == bytes::u32_at(data, pos + 4)
            &&& r.adjustor_thunk_index == bytes::u32_at(data, pos + 8)
        }),
{
}

/// A generic method has its number before its indices.
pub proof fn law_generic_method_fields(data: Seq<u8>, pos: int)
    requires
        0 <= pos,
    ensures
        pos + 16 > data.len() ==> Il2CppGenericMethodFunctionsDefinitions::decode(data, pos)
            == Err::<(Il2CppGenericMethodFunctionsDefinitions, int), BinReadError>(
            BinReadError::Io,
        ),
        pos + 16 <= data.len() ==> (Il2CppGenericMethodFunctionsDefinitions::decode(
            data,
            pos,
        ) matches Ok((r, end)) && {
            &&& end == pos + 16
            &&& r.generic_method_index == bytes::u32_at(data, pos)
            &&& GenericMethodIndices::decode(data, pos + 4) == Ok::<
                (GenericMethodIndices, int),
                BinReadError,
            >((r.indices, end))
        }),
{
}

/// The sizes of a type definition are four 32-bit numbers, of which the second is signed.
pub proof fn law_sizes_fields(data: Seq<u8>, pos: int)
    requires
        0 <= pos,
    ensures
        pos + 16 > data.len() ==> Il2CppTypeDefinitionSizes::decode(data, pos) == Err::<
            (Il2CppTypeDefinitionSizes, int),
            BinReadError,
        >(BinReadError::Io),
        pos + 16 <= data.len() ==> (Il2CppTypeDefinitionSizes::decode(data, pos) matches Ok(
            (r, end),
        ) && {
            &&& end == pos + 16
            &&& r.instance_size == bytes::u32_at(data, pos)
            &&& bytes::u32_at(data, pos + 4) == if r.native_size >= 0 {
                r.native_size as int
            } else {
                r.native_size + 0x1_0000_0000
            }
            &&& r.static_fields_size == bytes::u32_at(data, pos + 8)
            &&& r.thread_static_fields_size == bytes::u32_at(data, pos + 12)
        }),
{
}

/// A byte stands for an element type exactly if it is one of those up to `0x21`, without `0x17` and
/// `0x1a`, or one of four above.
pub proof fn law_known_codes(code: u8)
    ensures
        type_of_code(code) is Some <==> {
            ||| code <= 0x21 && code != 0x17 && code != 0x1a
            ||| code == 0x40 || code == 0x41
            ||| code == 0x45
            ||| code == 0x55
        },
        type_of_code(code) matches Some(ty) ==> type_code(ty) == code,
{
    assert(type_code(Il2CppTypeEnum::End) == 0x00);
    assert(type_code(Il2CppTypeEnum::Void) == 0x01);
    assert(type_code(Il2CppTypeEnum::Boolean) == 0x02);
    assert(type_code(Il2CppTypeEnum::Char) == 0x03);
    assert(type_code(Il2CppTypeEnum::I1) == 0x04);
    assert(type_code(Il2CppTypeEnum::U1) == 0x05);
    assert(type_code(Il2CppTypeEnum::I2) == 0x06);
    assert(type_code(Il2CppTypeEnum::U2) == 0x07);
    assert(type_code(Il2CppTypeEnum::I4) == 0x08);
    assert(type_code(Il2CppTypeEnum::U4) == 0x09);
    assert(type_code(Il2CppTypeEnum::I8) == 0x0a);
    assert(type_code(Il2CppTypeEnum::U8) == 0x0b);
    assert(type_code(Il2CppTypeEnum::R4) == 0x0c);
    assert(type_code(Il2CppTypeEnum::R8) == 0x0d);
    assert(type_code(Il2CppTypeEnum::String) == 0x0e);
    assert(type_code(Il2CppTypeEnum::Ptr) == 0x0f);
    assert(type_code(Il2CppTypeEnum::Byref) == 0x10);
    assert(type_code(Il2CppTypeEnum::Valuetype) == 0x11);
    assert(type_code(Il2CppTypeEnum::Class) == 0x12);
    assert(type_code(Il2CppTypeEnum::Var) == 0x13);
    assert(type_code(Il2CppTypeEnum::Array) == 0x14);
    assert(type_code(Il2CppTypeEnum::Genericinst) == 0x15);
    assert(type_code(Il2CppTypeEnum::Typedbyref) == 0x16);
    assert(type_code(Il2CppTypeEnum::I) == 0x18);
    assert(type_code(Il2CppTypeEnum::U) == 0x19);
    assert(type_code(Il2CppTypeEnum::Fnptr) == 0x1b);
    assert(type_code(Il2CppTypeEnum::Object) == 0x1c);
    assert(type_code(Il2CppTypeEnum::Szarray) == 0x1d);
    assert(type_code(Il2CppTypeEnum::Mvar) == 0x1e);
    assert(type_code(Il2CppTypeEnum::CmodReqd) == 0x1f);
    assert(type_code(Il2CppTypeEnum::CmodOpt) == 0x20);
    assert(type_code(Il2CppTypeEnum::Internal) == 0x21);
    assert(type_code(Il2CppTypeEnum::Modifier) == 0x40);
    assert(type_code(Il2CppTypeEnum::Sentinel) == 0x41);
    assert(type_code(Il2CppTypeEnum::Pinned) == 0x45);
    assert(type_code(Il2CppTypeEnum::Enum) == 0x55);
}

/// The values of array types and of generic instantiations are their fields.
pub proof fn law_views(arrays: Seq<Il2CppArrayType>, insts: Seq<Il2CppGenericInst>)
    ensures
        array_type_views(arrays).len() == arrays.len(),
        forall|i: int|
            0 <= i < arrays.len() ==> {
                &&& (#[trigger] array_type_views(arrays)[i]).elem_ty == arrays[i].elem_ty
                &&& array_type_views(arrays)[i].rank == arrays[i].rank
                &&& array_type_views(arrays)[i].sizes == arrays[i].sizes@
                &&& array_type_views(arrays)[i].lower_bounds == arrays[i].lower_bounds@
            },
        generic_inst_views(insts).len() == insts.len(),
        forall|i: int|
            0 <= i < insts.len() ==> #[trigger] generic_inst_views(insts)[i] == insts[i].types@,
{
}

} // verus!
