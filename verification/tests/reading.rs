//! Small pieces: strings, addresses, records, element types and names.

use binread::BinReaderExt;
use il2cpp_runtime::a64::{analyze_reg_rel, A64Imm, A64Insn, A64Op, A64Operand, Effect, X0, X1};
use il2cpp_runtime::bytes::{read_u64_at, Cursor};
use il2cpp_runtime::code_registration::Il2CppCodeRegistration;
use il2cpp_runtime::errors::{BinReadError, Il2CppBinaryError, ReadFailure};
use il2cpp_runtime::global_metadata::{
    GenericParameterIndex, GlobalMetadata, Il2CppGenericParameter, Il2CppTypeDefinition, Token,
    TypeDefinitionIndex,
};
use il2cpp_runtime::metadata_registration::Il2CppMetadataRegistration;
use il2cpp_runtime::object_file::{
    addr_in_bss, try_vaddr_conv, vaddr_conv, ObjectFile, Section, Segment,
};
use il2cpp_runtime::reader::{
    get_str, read_arr, read_len_arr, read_len_arr_nullable, strlen, ObjectReader, Record,
};
use il2cpp_runtime::runtime_metadata::{Metadata, RuntimeMetadata};
use il2cpp_runtime::types::{
    Il2CppArrayType, Il2CppGenericClass, Il2CppGenericContext, Il2CppGenericInst,
    Il2CppRGCTXDataType, Il2CppRange, Il2CppTokenAdjustorThunkPair, Il2CppType,
    Il2CppTypeDefinitionSizes, Il2CppTypeEnum, TypeData,
};
use il2cpp_runtime::x86::{find_nth_reference, X86Insn, X86Operand};

fn object(segments: Vec<Segment>) -> ObjectFile {
    ObjectFile {
        segments,
        bss: None,
        dynamic_symbols: Vec::new(),
        dynamic_relocations: None,
        exports: None,
    }
}

fn segment(address: u64, size: u64, file_offset: u64) -> Segment {
    Segment { address, size, file_offset }
}

// ---------------------------------------------------------------------------------------------
// Strings and addresses
// ---------------------------------------------------------------------------------------------

#[test]
fn strlen_stops_at_the_first_nul() {
    assert_eq!(strlen(b"abc\0def\0", 0), 3);
    assert_eq!(strlen(b"abc\0def\0", 2), 1);
    assert_eq!(strlen(b"abc\0def\0", 3), 0);
    assert_eq!(strlen(b"abc\0def\0", 4), 3);
}

#[test]
fn get_str_decodes_utf8() {
    assert_eq!(get_str(b"x\xc3\xa9\xe2\x82\xac\0", 0), Ok("x\u{e9}\u{20ac}"));
    assert_eq!(get_str(b"x\0", 1), Ok(""));
    assert_eq!(get_str(b"x\xc3\0", 0), Err(Il2CppBinaryError::Utf8));
}

#[test]
fn first_segment_that_holds_an_address_decides() {
    let file = object(vec![
        segment(0x1000, 0x100, 0x10),
        segment(0x1080, 0x100, 0x5000),
        segment(0x3000, 0, 0x9000),
    ]);
    assert_eq!(vaddr_conv(&file, 0x1000), Ok(0x10));
    assert_eq!(vaddr_conv(&file, 0x10ff), Ok(0x10f));
    assert_eq!(vaddr_conv(&file, 0x1100), Ok(0x5080));
    assert_eq!(vaddr_conv(&file, 0x1180), Err(Il2CppBinaryError::VAddrConv(0x1180)));
    assert_eq!(vaddr_conv(&file, 0xfff), Err(Il2CppBinaryError::VAddrConv(0xfff)));
    assert_eq!(vaddr_conv(&file, 0x3000), Err(Il2CppBinaryError::VAddrConv(0x3000)));
}

#[test]
fn offsets_in_a_segment_keep_their_distance() {
    let file = object(vec![segment(0x1000, 0x100, 0x40)]);
    let a = vaddr_conv(&file, 0x1007).unwrap();
    let b = vaddr_conv(&file, 0x1023).unwrap();
    assert_eq!(b - a, 0x1c);
}

#[test]
fn offset_without_a_number_is_malformed() {
    let file = object(vec![segment(0, 0x100, u64::MAX - 1)]);
    assert_eq!(try_vaddr_conv(&file, 1), Ok(u64::MAX));
    assert_eq!(try_vaddr_conv(&file, 2), Err(ReadFailure::Malformed));
    assert_eq!(
        try_vaddr_conv(&file, 0x100),
        Err(ReadFailure::Error(Il2CppBinaryError::VAddrConv(0x100)))
    );
}

#[test]
fn bss_holds_its_addresses() {
    let mut file = object(Vec::new());
    assert!(!addr_in_bss(&file, 0x10));
    file.bss = Some(Section { address: 0x10, size: 2 });
    assert!(!addr_in_bss(&file, 0xf));
    assert!(addr_in_bss(&file, 0x10));
    assert!(addr_in_bss(&file, 0x11));
    assert!(!addr_in_bss(&file, 0x12));
}

// ---------------------------------------------------------------------------------------------
// Numbers, records and arrays
// ---------------------------------------------------------------------------------------------

#[test]
fn cursor_reads_little_endian() {
    let data: Vec<u8> = (1..=20).collect();
    let mut cur = Cursor { data: &data, pos: 0 };
    assert_eq!(cur.read_u8(), Ok(1));
    assert_eq!(cur.read_u16(), Ok(0x0302));
    assert_eq!(cur.read_u32(), Ok(0x0706_0504));
    assert_eq!(cur.read_u64(), Ok(0x0f0e_0d0c_0b0a_0908));
    assert_eq!(cur.pos, 15);
    assert_eq!(cur.read_u64(), Err(Il2CppBinaryError::Io));
    assert_eq!(cur.skip_u128(), Err(Il2CppBinaryError::Io));
    assert_eq!(cur.pos, 15);
    assert_eq!(cur.seek_forward(100), Ok(()));
    assert_eq!(cur.pos, 115);
    assert_eq!(cur.read_u8(), Err(Il2CppBinaryError::Io));
    assert_eq!(cur.seek_forward(u64::MAX), Err(Il2CppBinaryError::Io));
    assert_eq!(read_u64_at(&data, 2), 0x0a09_0807_0605_0403);
}

#[test]
fn thunk_is_aligned_in_the_file() {
    let mut data = vec![0; 40];
    data[4] = 1;
    data[8] = 2;
    let mut cur = Cursor { data: &data, pos: 4 };
    assert_eq!(
        Il2CppTokenAdjustorThunkPair::read_le(&mut cur),
        Ok(Il2CppTokenAdjustorThunkPair { token: Token(1), adjustor_thunk: 2 })
    );
    assert_eq!(cur.pos, 16);
    data[16] = 3;
    data[24] = 4;
    let mut cur = Cursor { data: &data, pos: 16 };
    assert_eq!(
        Il2CppTokenAdjustorThunkPair::read_le(&mut cur),
        Ok(Il2CppTokenAdjustorThunkPair { token: Token(3), adjustor_thunk: 4 })
    );
    assert_eq!(cur.pos, 32);
}

#[test]
fn records_fail_at_the_end_of_the_data() {
    let mut cur = Cursor { data: &[1, 0, 0, 0, 2, 0, 0], pos: 0 };
    assert_eq!(Il2CppRange::read_le(&mut cur), Err(BinReadError::Io));
    let mut cur = Cursor { data: &[1, 0, 0, 0, 2, 0, 0, 0], pos: 0 };
    assert_eq!(Il2CppRange::read_le(&mut cur), Ok(Il2CppRange { start: 1, length: 2 }));
}

#[test]
fn context_kinds_have_numbers() {
    let kinds = [
        Il2CppRGCTXDataType::Invalid,
        Il2CppRGCTXDataType::Type,
        Il2CppRGCTXDataType::Class,
        Il2CppRGCTXDataType::Method,
        Il2CppRGCTXDataType::Array,
        Il2CppRGCTXDataType::Constrained,
    ];
    for (i, kind) in kinds.iter().enumerate() {
        let data = (i as u64).to_le_bytes();
        let mut cur = Cursor { data: &data, pos: 0 };
        assert_eq!(Il2CppRGCTXDataType::read_le(&mut cur), Ok(*kind));
    }
    let data = 0x1_0000_0000u64.to_le_bytes();
    let mut cur = Cursor { data: &data, pos: 0 };
    assert_eq!(
        Il2CppRGCTXDataType::read_le(&mut cur),
        Err(BinReadError::NoVariantMatch { pos: 0 })
    );
}

#[test]
fn native_size_is_signed() {
    let mut data = Vec::new();
    for word in [1u32, 0x8000_0000, 3, 4] {
        data.extend(word.to_le_bytes());
    }
    let mut cur = Cursor { data: &data, pos: 0 };
    assert_eq!(
        Il2CppTypeDefinitionSizes::read_le(&mut cur),
        Ok(Il2CppTypeDefinitionSizes {
            instance_size: 1,
            native_size: i32::MIN,
            static_fields_size: 3,
            thread_static_fields_size: 4,
        })
    );
}

#[test]
fn array_elements_stand_behind_one_another() {
    let file = object(vec![segment(0x100, 0x100, 0)]);
    let mut data = vec![0xff; 4];
    for word in [1u64, 2, 3] {
        data.extend(word.to_le_bytes());
    }
    let reader = ObjectReader::new(&file, &data);
    assert_eq!(read_arr::<u64>(&reader, 0x104, 3), Ok(vec![1, 2, 3]));
    assert_eq!(read_arr::<u32>(&reader, 0x104, 4), Ok(vec![1, 0, 2, 0]));
    assert_eq!(
        read_arr::<u64>(&reader, 0x104, 4),
        Err(ReadFailure::Error(Il2CppBinaryError::BinRead(BinReadError::Io)))
    );
    assert_eq!(
        read_arr::<u64>(&reader, 0x99, 1),
        Err(ReadFailure::Error(Il2CppBinaryError::VAddrConv(0x99)))
    );
    assert_eq!(read_arr::<u64>(&reader, 0x99, 0), Ok(vec![]));
}

#[test]
fn counted_array_moves_the_cursor_behind_its_header() {
    let file = object(vec![segment(0x100, 0x100, 0)]);
    let mut data = Vec::new();
    data.extend(1u64.to_le_bytes());
    data.extend(0x120u64.to_le_bytes());
    data.extend(0u64.to_le_bytes());
    data.extend(0x99u64.to_le_bytes());
    data.extend(0x77u64.to_le_bytes());
    let reader = ObjectReader::new(&file, &data);
    let mut cur = reader.make_cur(0x100).unwrap();
    assert_eq!(read_len_arr::<u64>(&reader, &mut cur), Ok(vec![0x77]));
    assert_eq!(cur.pos, 16);
    assert_eq!(read_len_arr::<u64>(&reader, &mut cur), Ok(vec![]));
    assert_eq!(cur.pos, 32);
}

#[test]
fn empty_array_at_the_end_needs_no_address() {
    let file = object(vec![segment(0x100, 0x100, 0)]);
    let data = [0, 0, 0, 0];
    let reader = ObjectReader::new(&file, &data);
    let mut cur = reader.make_cur(0x100).unwrap();
    assert_eq!(read_len_arr::<u64>(&reader, &mut cur), Ok(vec![]));
    assert_eq!(cur.pos, 16);
    assert_eq!(
        read_len_arr::<u64>(&reader, &mut cur),
        Err(ReadFailure::Error(Il2CppBinaryError::Io))
    );
}

#[test]
fn cursor_stands_behind_the_header_of_an_unreadable_array() {
    let file = object(vec![segment(0x100, 0x100, 0)]);
    let mut data = vec![0xff; 4];
    data.extend(2u32.to_le_bytes());
    data.extend(0xffff_ffffu32.to_le_bytes());
    data.extend(0x99u64.to_le_bytes());
    let reader = ObjectReader::new(&file, &data);
    let error = ReadFailure::Error(Il2CppBinaryError::VAddrConv(0x99));
    let mut cur = reader.make_cur(0x104).unwrap();
    assert_eq!(read_len_arr::<u64>(&reader, &mut cur), Err(error));
    assert_eq!(cur.pos, 20);
    let mut cur = reader.make_cur(0x104).unwrap();
    assert_eq!(read_len_arr_nullable(&reader, &mut cur), Err(error));
    assert_eq!(cur.pos, 20);
}

#[test]
fn numbers_read_as_binread_reads_them() {
    let file = object(vec![segment(0x100, 0x100, 0)]);
    let data: Vec<u8> = (0x80..0x9b).collect();
    let reader = ObjectReader::new(&file, &data);
    let mut words = std::io::Cursor::new(&data[..]);
    let expected: Vec<u64> = (0..3).map(|_| words.read_le().unwrap()).collect();
    assert_eq!(read_arr::<u64>(&reader, 0x100, 3), Ok(expected));
    let missing: binread::BinResult<u64> = words.read_le();
    assert!(matches!(missing, Err(binread::Error::Io(_))));
    assert_eq!(
        read_arr::<u64>(&reader, 0x118, 1),
        Err(ReadFailure::Error(Il2CppBinaryError::BinRead(BinReadError::Io)))
    );
    let mut halves = std::io::Cursor::new(&data[..]);
    let expected: Vec<u32> = (0..6).map(|_| halves.read_le().unwrap()).collect();
    assert_eq!(read_arr::<u32>(&reader, 0x100, 6), Ok(expected));
}

#[test]
fn array_in_bss_is_zeros() {
    let mut file = object(vec![segment(0x100, 0x100, 0)]);
    file.bss = Some(Section { address: 0x5000, size: 8 });
    let mut data = Vec::new();
    data.extend(3u64.to_le_bytes());
    data.extend(0x5007u64.to_le_bytes());
    let reader = ObjectReader::new(&file, &data);
    let mut cur = reader.make_cur(0x100).unwrap();
    assert_eq!(read_len_arr_nullable(&reader, &mut cur), Ok(vec![0, 0, 0]));
    let mut cur = reader.make_cur(0x100).unwrap();
    assert_eq!(
        read_len_arr::<u64>(&reader, &mut cur),
        Err(ReadFailure::Error(Il2CppBinaryError::VAddrConv(0x5007)))
    );
}

#[test]
fn string_through_an_address() {
    let file = object(vec![segment(0x100, 0x100, 0)]);
    let reader = ObjectReader::new(&file, b"ab\0cd");
    assert_eq!(reader.get_str(0x101), Ok("b"));
    assert_eq!(reader.get_str(0x103), Err(ReadFailure::Malformed));
    assert_eq!(reader.get_str(0x120), Err(ReadFailure::Malformed));
    assert_eq!(
        reader.get_str(0x20),
        Err(ReadFailure::Error(Il2CppBinaryError::VAddrConv(0x20)))
    );
}

// ---------------------------------------------------------------------------------------------
// Element types and names
// ---------------------------------------------------------------------------------------------

const CODES: [(u8, Il2CppTypeEnum); 36] = [
    (0x00, Il2CppTypeEnum::End),
    (0x01, Il2CppTypeEnum::Void),
    (0x02, Il2CppTypeEnum::Boolean),
    (0x03, Il2CppTypeEnum::Char),
    (0x04, Il2CppTypeEnum::I1),
    (0x05, Il2CppTypeEnum::U1),
    (0x06, Il2CppTypeEnum::I2),
    (0x07, Il2CppTypeEnum::U2),
    (0x08, Il2CppTypeEnum::I4),
    (0x09, Il2CppTypeEnum::U4),
    (0x0a, Il2CppTypeEnum::I8),
    (0x0b, Il2CppTypeEnum::U8),
    (0x0c, Il2CppTypeEnum::R4),
    (0x0d, Il2CppTypeEnum::R8),
    (0x0e, Il2CppTypeEnum::String),
    (0x0f, Il2CppTypeEnum::Ptr),
    (0x10, Il2CppTypeEnum::Byref),
    (0x11, Il2CppTypeEnum::Valuetype),
    (0x12, Il2CppTypeEnum::Class),
    (0x13, Il2CppTypeEnum::Var),
    (0x14, Il2CppTypeEnum::Array),
    (0x15, Il2CppTypeEnum::Genericinst),
    (0x16, Il2CppTypeEnum::Typedbyref),
    (0x18, Il2CppTypeEnum::I),
    (0x19, Il2CppTypeEnum::U),
    (0x1b, Il2CppTypeEnum::Fnptr),
    (0x1c, Il2CppTypeEnum::Object),
    (0x1d, Il2CppTypeEnum::Szarray),
    (0x1e, Il2CppTypeEnum::Mvar),
    (0x1f, Il2CppTypeEnum::CmodReqd),
    (0x20, Il2CppTypeEnum::CmodOpt),
    (0x21, Il2CppTypeEnum::Internal),
    (0x40, Il2CppTypeEnum::Modifier),
    (0x41, Il2CppTypeEnum::Sentinel),
    (0x45, Il2CppTypeEnum::Pinned),
    (0x55, Il2CppTypeEnum::Enum),
];

#[test]
fn element_type_codes() {
    for code in 0..=255 {
        let expected = CODES.iter().find(|(c, _)| *c == code).map(|(_, ty)| *ty);
        assert_eq!(Il2CppTypeEnum::from_ty(code), expected);
    }
}

fn ty(ty: Il2CppTypeEnum, data: TypeData) -> Il2CppType {
    Il2CppType { data, attrs: 0, ty, byref: false, pinned: false, valuetype: false }
}

fn definition(index: u32) -> TypeData {
    TypeData::TypeDefinitionIndex(TypeDefinitionIndex::new(index))
}

fn parameter(index: u32) -> TypeData {
    TypeData::GenericParameterIndex(GenericParameterIndex::new(index))
}

fn metadata(types: Vec<Il2CppType>) -> Metadata {
    Metadata {
        global_metadata: GlobalMetadata {
            type_definitions: vec![Il2CppTypeDefinition {
                full_name: "Game.Map".to_string(),
                field_count: 0,
            }],
            generic_parameters: vec![Il2CppGenericParameter { name: "TKey".to_string() }],
        },
        runtime_metadata: RuntimeMetadata {
            code_registration: Il2CppCodeRegistration {
                reverse_pinvoke_wrappers: vec![],
                generic_method_pointers: vec![],
                generic_adjustor_thunks: vec![],
                invoker_pointers: vec![],
                unresolved_indirect_call_pointers: vec![],
                code_gen_modules: vec![],
            },
            metadata_registration: Il2CppMetadataRegistration {
                generic_classes: vec![
                    Il2CppGenericClass {
                        type_index: 0,
                        context: Il2CppGenericContext {
                            class_inst_idx: Some(0),
                            method_inst_idx: None,
                        },
                    },
                    Il2CppGenericClass {
                        type_index: 0,
                        context: Il2CppGenericContext {
                            class_inst_idx: None,
                            method_inst_idx: Some(0),
                        },
                    },
                    Il2CppGenericClass {
                        type_index: 0,
                        context: Il2CppGenericContext {
                            class_inst_idx: Some(1),
                            method_inst_idx: None,
                        },
                    },
                ],
                generic_insts: vec![
                    Il2CppGenericInst { types: vec![1, 2, 1] },
                    Il2CppGenericInst { types: vec![] },
                ],
                generic_method_table: vec![],
                types,
                array_types: vec![
                    Il2CppArrayType { elem_ty: 1, rank: 1, sizes: vec![], lower_bounds: vec![] },
                    Il2CppArrayType { elem_ty: 1, rank: 3, sizes: vec![], lower_bounds: vec![] },
                    Il2CppArrayType { elem_ty: 1, rank: 0, sizes: vec![], lower_bounds: vec![] },
                ],
                method_specs: vec![],
                field_offsets: None,
                type_definition_sizes: None,
            },
        },
    }
}

fn basic_types() -> Vec<Il2CppType> {
    vec![
        ty(Il2CppTypeEnum::Class, definition(0)),
        ty(Il2CppTypeEnum::I4, definition(0)),
        ty(Il2CppTypeEnum::Var, parameter(0)),
    ]
}

#[test]
fn fixed_names() {
    let metadata = metadata(Vec::new());
    let names = [
        (Il2CppTypeEnum::Void, "System.Void"),
        (Il2CppTypeEnum::Boolean, "System.Boolean"),
        (Il2CppTypeEnum::Char, "System.Char"),
        (Il2CppTypeEnum::I1, "System.SByte"),
        (Il2CppTypeEnum::U1, "System.Byte"),
        (Il2CppTypeEnum::I2, "System.Int16"),
        (Il2CppTypeEnum::U2, "System.UInt16"),
        (Il2CppTypeEnum::I4, "System.Int32"),
        (Il2CppTypeEnum::U4, "System.UInt32"),
        (Il2CppTypeEnum::I8, "System.Int64"),
        (Il2CppTypeEnum::U8, "System.UInt64"),
        (Il2CppTypeEnum::R4, "System.Single"),
        (Il2CppTypeEnum::R8, "System.Double"),
        (Il2CppTypeEnum::String, "System.String"),
        (Il2CppTypeEnum::Typedbyref, "System.TypedReference"),
        (Il2CppTypeEnum::I, "System.IntPtr"),
        (Il2CppTypeEnum::U, "System.UIntPtr"),
        (Il2CppTypeEnum::Object, "System.Object"),
        (Il2CppTypeEnum::Sentinel, "<<SENTINEL>>"),
    ];
    for (element, name) in names {
        assert_eq!(ty(element, definition(99)).full_name(&metadata), name);
    }
}

#[test]
fn types_without_a_name_are_labelled() {
    let metadata = metadata(Vec::new());
    for (_, element) in CODES {
        let name = ty(element, TypeData::ArrayType(7)).try_full_name(&metadata);
        match element {
            Il2CppTypeEnum::Array => assert_eq!(name, None),
            Il2CppTypeEnum::End
            | Il2CppTypeEnum::Ptr
            | Il2CppTypeEnum::Byref
            | Il2CppTypeEnum::Valuetype
            | Il2CppTypeEnum::Class
            | Il2CppTypeEnum::Var
            | Il2CppTypeEnum::Genericinst
            | Il2CppTypeEnum::Fnptr
            | Il2CppTypeEnum::Szarray
            | Il2CppTypeEnum::Mvar
            | Il2CppTypeEnum::CmodReqd
            | Il2CppTypeEnum::CmodOpt
            | Il2CppTypeEnum::Internal
            | Il2CppTypeEnum::Modifier
            | Il2CppTypeEnum::Pinned
            | Il2CppTypeEnum::Enum => assert_eq!(name, Some(format!("({:?}?)", element))),
            _ => assert!(name.is_some()),
        }
    }
    assert_eq!(
        ty(Il2CppTypeEnum::Array, definition(0)).full_name(&metadata),
        "(Array?)".to_string()
    );
}

#[test]
fn composite_names() {
    let metadata = metadata(basic_types());
    let name = |element, data| ty(element, data).full_name(&metadata);
    assert_eq!(name(Il2CppTypeEnum::Class, definition(0)), "Game.Map");
    assert_eq!(name(Il2CppTypeEnum::Valuetype, definition(0)), "Game.Map");
    assert_eq!(name(Il2CppTypeEnum::Var, parameter(0)), "TKey");
    assert_eq!(name(Il2CppTypeEnum::Mvar, parameter(0)), "TKey");
    assert_eq!(name(Il2CppTypeEnum::Ptr, TypeData::TypeIndex(2)), "TKey*");
    assert_eq!(name(Il2CppTypeEnum::Szarray, TypeData::TypeIndex(0)), "Game.Map[]");
    assert_eq!(name(Il2CppTypeEnum::Array, TypeData::ArrayType(0)), "System.Int32[]");
    assert_eq!(name(Il2CppTypeEnum::Array, TypeData::ArrayType(1)), "System.Int32[,,]");
    assert_eq!(
        name(Il2CppTypeEnum::Genericinst, TypeData::GenericClassIndex(0)),
        "Game.Map<System.Int32, TKey, System.Int32>"
    );
    assert_eq!(
        name(Il2CppTypeEnum::Genericinst, TypeData::GenericClassIndex(2)),
        "Game.Map<>"
    );
}

#[test]
fn types_that_cannot_be_named() {
    let metadata = metadata(basic_types());
    let name = |element, data| ty(element, data).try_full_name(&metadata);
    assert_eq!(name(Il2CppTypeEnum::Class, definition(1)), None);
    assert_eq!(name(Il2CppTypeEnum::Mvar, parameter(1)), None);
    assert_eq!(name(Il2CppTypeEnum::Ptr, TypeData::TypeIndex(3)), None);
    assert_eq!(name(Il2CppTypeEnum::Szarray, TypeData::TypeIndex(usize::MAX)), None);
    assert_eq!(name(Il2CppTypeEnum::Array, TypeData::ArrayType(2)), None);
    assert_eq!(name(Il2CppTypeEnum::Genericinst, TypeData::GenericClassIndex(1)), None);
    assert_eq!(name(Il2CppTypeEnum::Genericinst, TypeData::GenericClassIndex(3)), None);
}

#[test]
fn deep_names_need_every_listed_type() {
    let mut types = vec![ty(Il2CppTypeEnum::U1, definition(0))];
    for i in 0..40 {
        types.push(ty(Il2CppTypeEnum::Ptr, TypeData::TypeIndex(i)));
    }
    let last = types[40];
    let metadata = metadata(types);
    assert_eq!(last.full_name(&metadata), format!("System.Byte{}", "*".repeat(40)));
}

#[test]
fn endless_types_cannot_be_named() {
    let metadata = metadata(vec![
        ty(Il2CppTypeEnum::Ptr, TypeData::TypeIndex(1)),
        ty(Il2CppTypeEnum::Szarray, TypeData::TypeIndex(0)),
    ]);
    let types = &metadata.runtime_metadata.metadata_registration.types;
    assert_eq!(types[0].try_full_name(&metadata), None);
    assert_eq!(types[1].try_full_name(&metadata), None);
}

#[test]
fn flags_do_not_show_in_names() {
    let metadata = metadata(basic_types());
    let plain = ty(Il2CppTypeEnum::Ptr, TypeData::TypeIndex(1));
    let flagged = Il2CppType { attrs: 0xffff, byref: true, pinned: true, valuetype: true, ..plain };
    assert_eq!(flagged.full_name(&metadata), plain.full_name(&metadata));
}

// ---------------------------------------------------------------------------------------------
// Instructions
// ---------------------------------------------------------------------------------------------

fn a64(op: A64Op, operands: Vec<A64Operand>) -> A64Insn {
    A64Insn { op, operands }
}

fn page(reg: u32, value: u64) -> A64Insn {
    a64(A64Op::Adrp, vec![A64Operand::Reg(reg), A64Operand::Label(A64Imm::Unsigned(value))])
}

fn offset(rd: u32, rn: u32, value: u64) -> A64Insn {
    a64(
        A64Op::Add,
        vec![
            A64Operand::Reg(rd),
            A64Operand::Reg(rn),
            A64Operand::Imm64(A64Imm::Unsigned(value)),
        ],
    )
}

fn load(rt: u32, rn: u32, value: i64) -> A64Insn {
    a64(
        A64Op::Ldr,
        vec![
            A64Operand::Reg(rt),
            A64Operand::MemOffset { reg: rn, offset: A64Imm::Signed(value) },
        ],
    )
}

#[test]
fn registers_are_followed() {
    let file = object(vec![segment(0x2000, 0x100, 0)]);
    let mut data = vec![0; 16];
    data.extend(0x1234_5678_9abcu64.to_le_bytes());
    let insns = vec![
        page(X0, 0x1000),
        offset(X0, X0, 0x24),
        page(X1, 0x2020),
        load(X1, X1, -0x10),
        offset(7, 7, 1),
        load(8, 8, 1),
        offset(9, X0, 1),
        load(10, X1, 0),
    ];
    let regs = analyze_reg_rel(&file, &data, &insns).unwrap();
    assert_eq!(regs.len(), 2);
    assert_eq!(regs[&X0], 0x1024);
    assert_eq!(regs[&X1], 0x1234_5678_9abc);
}

#[test]
fn sums_wrap_around() {
    let file = object(vec![segment(0, 0x100, 0)]);
    let mut data = vec![0; 8];
    data.extend(77u64.to_le_bytes());
    let insns =
        vec![page(3, u64::MAX), offset(3, 3, 2), page(4, u64::MAX), load(4, 4, 9)];
    let regs = analyze_reg_rel(&file, &data, &insns).unwrap();
    assert_eq!(regs[&3], 1);
    assert_eq!(regs[&4], 77);
}

#[test]
fn loads_from_nowhere_are_malformed() {
    let file = object(vec![segment(0x2000, 0x100, 0)]);
    let data = [0; 16];
    let outside = vec![page(3, 0x1000), load(3, 3, 0)];
    assert_eq!(analyze_reg_rel(&file, &data, &outside).unwrap_err(), ReadFailure::Malformed);
    let past_the_end = vec![page(3, 0x2000), load(3, 3, 9)];
    assert_eq!(analyze_reg_rel(&file, &data, &past_the_end).unwrap_err(), ReadFailure::Malformed);
}

#[test]
fn effects_of_instructions() {
    assert_eq!(page(3, 5).effect(), Effect::Page { reg: 3, value: 5 });
    assert_eq!(offset(3, 3, 5).effect(), Effect::Offset { reg: 3, value: 5 });
    assert_eq!(offset(3, 4, 5).effect(), Effect::Nothing);
    assert_eq!(load(3, 3, -5).effect(), Effect::Load { reg: 3, offset: -5 });
    assert_eq!(load(3, 4, 5).effect(), Effect::Nothing);
    let signed = a64(
        A64Op::Adrp,
        vec![A64Operand::Reg(3), A64Operand::Label(A64Imm::Signed(5))],
    );
    assert_eq!(signed.effect(), Effect::Nothing);
    assert_eq!(a64(A64Op::Adrp, vec![A64Operand::Reg(3)]).effect(), Effect::Nothing);
    assert_eq!(a64(A64Op::Add, vec![]).effect(), Effect::Nothing);
    assert_eq!(a64(A64Op::Ldr, vec![A64Operand::Other]).effect(), Effect::Nothing);
    assert_eq!(a64(A64Op::Other, page(3, 5).operands).effect(), Effect::Nothing);
}

#[test]
fn calls_of_instructions() {
    let label = || vec![A64Operand::Label(A64Imm::Unsigned(9))];
    assert_eq!(a64(A64Op::Bl, label()).bl_target(), Some(9));
    assert_eq!(a64(A64Op::Blr, label()).bl_target(), None);
    assert_eq!(a64(A64Op::Bl, vec![]).bl_target(), None);
    assert_eq!(a64(A64Op::Bl, vec![A64Operand::Label(A64Imm::Signed(9))]).bl_target(), None);
    assert_eq!(a64(A64Op::Blr, vec![A64Operand::Reg(4)]).blr_register(), Some(4));
    assert_eq!(a64(A64Op::Bl, vec![A64Operand::Reg(4)]).blr_register(), None);
    assert_eq!(a64(A64Op::Blr, label()).blr_register(), None);
}

fn x86(mnemonic: &str, operands: Vec<X86Operand>) -> X86Insn {
    X86Insn {
        mnemonic: Some(mnemonic.to_string()),
        address: 0x1000,
        len: 7,
        operands: Some(operands),
    }
}

fn memory(base: Option<&str>, disp: i64) -> X86Operand {
    X86Operand::Memory { base: base.map(String::from), disp }
}

#[test]
fn references_relative_to_the_instruction_pointer() {
    let insns = vec![
        x86("lea", vec![memory(Some("rip"), 0x10), X86Operand::Other]),
        x86("lea", vec![memory(Some("rip"), -0x2000)]),
    ];
    assert_eq!(find_nth_reference(&insns, "lea", 1, false), Some(0x1017));
    assert_eq!(
        find_nth_reference(&insns, "lea", 2, false),
        Some(0x1007u64.wrapping_sub(0x2000))
    );
    assert_eq!(find_nth_reference(&insns, "lea", 3, false), None);
    assert_eq!(find_nth_reference(&insns, "mov", 1, false), None);
}

#[test]
fn references_behind_the_instruction_are_looked_at() {
    let insns = vec![
        x86("nop", vec![]),
        x86("call", vec![X86Operand::Other]),
        x86("nop", vec![]),
        x86("mov", vec![memory(Some("rax"), 1)]),
        x86("push", vec![X86Operand::Immediate(-1)]),
        x86("call", vec![X86Operand::Immediate(5)]),
    ];
    assert_eq!(find_nth_reference(&insns, "call", 1, true), Some(u64::MAX));
    assert_eq!(find_nth_reference(&insns, "call", 2, true), Some(5));
    assert_eq!(find_nth_reference(&insns, "call", 1, false), None);
}

#[test]
fn references_that_cannot_be_told() {
    let no_base = vec![
        x86("lea", vec![memory(None, 1)]),
        x86("nop", vec![memory(Some("rip"), 1)]),
    ];
    assert_eq!(find_nth_reference(&no_base, "lea", 1, true), None);
    let mut no_name = x86("nop", vec![]);
    no_name.mnemonic = None;
    let insns = vec![no_name, x86("lea", vec![memory(Some("rip"), 1)])];
    assert_eq!(find_nth_reference(&insns, "lea", 1, true), None);
    let mut no_operands = x86("lea", vec![]);
    no_operands.operands = None;
    let insns = vec![no_operands, x86("nop", vec![memory(Some("rip"), 1)])];
    assert_eq!(find_nth_reference(&insns, "lea", 1, true), None);
}
