//! Whole files: the two registrations, and the way to them through ELF and PE code.

use il2cpp_runtime::a64::{A64Imm, A64Insn, A64Op, A64Operand};
use il2cpp_runtime::elf::{process_relocations, ElfProgress, ElfStage};
use il2cpp_runtime::errors::{A64DecodeError, BinReadError, Il2CppBinaryError, ReadFailure};
use il2cpp_runtime::global_metadata::{
    GenericParameterIndex, GlobalMetadata, Il2CppGenericParameter, Il2CppTypeDefinition,
    MethodIndex, Token, TypeDefinitionIndex,
};
use il2cpp_runtime::code_registration::Il2CppCodeRegistration;
use il2cpp_runtime::metadata_registration::Il2CppMetadataRegistration;
use il2cpp_runtime::object_file::{
    DynamicRelocation, Encoding, Export, ObjectFile, Section, Segment, Symbol, Target,
};
use il2cpp_runtime::pe::{find_registration, nth_call, nth_lea, nth_mov};
use il2cpp_runtime::runtime_metadata::{Metadata, RuntimeMetadata};
use il2cpp_runtime::types::{
    GenericMethodIndices, Il2CppGenericClass, Il2CppGenericContext,
    Il2CppGenericMethodFunctionsDefinitions, Il2CppMethodSpec, Il2CppRGCTXDataType,
    Il2CppRGCTXDefinition, Il2CppRange, Il2CppTokenAdjustorThunkPair, Il2CppTokenRangePair,
    Il2CppType, Il2CppTypeDefinitionSizes, Il2CppTypeEnum, TypeData,
};

/// A file under construction. What is put into it lies at addresses from `base` on, and at file
/// offsets from `start` on.
struct Builder {
    data: Vec<u8>,
    base: u64,
    start: usize,
}

impl Builder {
    fn new(base: u64, header: Vec<u8>) -> Builder {
        Builder { start: header.len(), data: header, base }
    }

    fn place(&mut self, len: usize) -> u64 {
        while self.data.len() % 8 != 0 {
            self.data.push(0);
        }
        let addr = self.base + (self.data.len() - self.start) as u64;
        self.data.resize(self.data.len() + len, 0);
        addr
    }

    fn offset(&self, addr: u64) -> usize {
        (addr - self.base) as usize + self.start
    }

    fn put(&mut self, addr: u64, bytes: &[u8]) {
        let at = self.offset(addr);
        self.data[at..at + bytes.len()].copy_from_slice(bytes);
    }

    fn put8(&mut self, addr: u64, v: u8) {
        self.put(addr, &[v]);
    }

    fn put16(&mut self, addr: u64, v: u16) {
        self.put(addr, &v.to_le_bytes());
    }

    fn put32(&mut self, addr: u64, v: u32) {
        self.put(addr, &v.to_le_bytes());
    }

    fn put64(&mut self, addr: u64, v: u64) {
        self.put(addr, &v.to_le_bytes());
    }

    fn bytes(&mut self, bytes: &[u8]) -> u64 {
        let addr = self.place(bytes.len());
        self.put(addr, bytes);
        addr
    }

    fn words32(&mut self, words: &[u32]) -> u64 {
        let addr = self.place(4 * words.len());
        for (i, w) in words.iter().enumerate() {
            self.put32(addr + 4 * i as u64, *w);
        }
        addr
    }

    fn words64(&mut self, words: &[u64]) -> u64 {
        let addr = self.place(8 * words.len());
        for (i, w) in words.iter().enumerate() {
            self.put64(addr + 8 * i as u64, *w);
        }
        addr
    }

    fn counted(&mut self, addr: u64, count: u32, ptr: u64) {
        self.put32(addr, count);
        self.put64(addr + 8, ptr);
    }

    fn ty(&mut self, data: u64, attrs: u16, ty: u8, bits: u8) -> u64 {
        let addr = self.place(12);
        self.set_ty(addr, data, attrs, ty, bits);
        addr
    }

    fn set_ty(&mut self, addr: u64, data: u64, attrs: u16, ty: u8, bits: u8) {
        self.put64(addr, data);
        self.put16(addr + 8, attrs);
        self.put8(addr + 10, ty);
        self.put8(addr + 11, bits);
    }

    fn object(&self) -> ObjectFile {
        ObjectFile {
            segments: vec![Segment {
                address: self.base,
                size: 0x10_0000,
                file_offset: self.start as u64,
            }],
            bss: None,
            dynamic_symbols: Vec::new(),
            dynamic_relocations: None,
            exports: None,
        }
    }
}

fn global_metadata() -> GlobalMetadata {
    GlobalMetadata {
        type_definitions: vec![
            Il2CppTypeDefinition { full_name: "Game.Player".to_string(), field_count: 2 },
            Il2CppTypeDefinition { full_name: "Game.List".to_string(), field_count: 3 },
        ],
        generic_parameters: vec![Il2CppGenericParameter { name: "T".to_string() }],
    }
}

/// Puts a metadata registration into a file.
fn add_metadata(b: &mut Builder) -> u64 {
    let int = b.ty(0, 0x11, 0x08, 0x00);
    let ptr = b.ty(int, 0, 0x0f, 0x20);
    let sizes = b.words32(&[3]);
    let bounds = b.words32(&[7, 8]);
    let array_type = b.place(32);
    b.put64(array_type, ptr);
    b.put8(array_type + 8, 2);
    b.put8(array_type + 9, 1);
    b.put8(array_type + 10, 2);
    b.put64(array_type + 16, sizes);
    b.put64(array_type + 24, bounds);
    let array = b.ty(array_type, 0, 0x14, 0x40);
    let same_array = b.ty(array_type, 0, 0x14, 0x80);
    let list = b.ty(1, 0, 0x12, 0);
    let var = b.ty(0xffff_0000_0000, 0, 0x13, 0);
    let inst = b.place(16);
    let inst_types = b.words64(&[int, var]);
    b.counted(inst, 2, inst_types);
    let class = b.words64(&[list, inst, 0]);
    let generic = b.ty(class, 0, 0x15, 0);
    let classes = b.words64(&[class]);
    let insts = b.words64(&[inst]);
    let types = b.words64(&[int, ptr, array, same_array, list, var, generic]);
    let methods = b.words32(&[9, 10, 11, 12, 13, 14, 15, 16]);
    let specs = b.words32(&[1, 2, 3]);
    let offsets = b.words32(&[0x10, 0x18]);
    let offset_ptrs = b.words64(&[offsets, 0]);
    let sizes = b.words32(&[0x20, 0xffff_ffff, 4, 5]);
    let size_ptrs = b.words64(&[sizes]);
    let registration = b.place(112);
    b.counted(registration, 1, classes);
    b.counted(registration + 16, 1, insts);
    b.counted(registration + 32, 2, methods);
    b.counted(registration + 48, 7, types);
    b.counted(registration + 64, 1, specs);
    b.counted(registration + 80, 2, offset_ptrs);
    b.counted(registration + 96, 1, size_ptrs);
    registration
}

fn definition(index: u32) -> TypeData {
    TypeData::TypeDefinitionIndex(TypeDefinitionIndex { index })
}

fn check_metadata(reg: &Il2CppMetadataRegistration) {
    let plain = |data: TypeData, ty: Il2CppTypeEnum| Il2CppType {
        data,
        attrs: 0,
        ty,
        byref: false,
        pinned: false,
        valuetype: false,
    };
    assert_eq!(reg.types.len(), 7);
    assert_eq!(reg.types[0], Il2CppType { attrs: 0x11, ..plain(definition(0), Il2CppTypeEnum::I4) });
    assert_eq!(
        reg.types[1],
        Il2CppType { byref: true, ..plain(TypeData::TypeIndex(0), Il2CppTypeEnum::Ptr) }
    );
    assert_eq!(
        reg.types[2],
        Il2CppType {
            byref: true,
            pinned: true,
            ..plain(TypeData::ArrayType(0), Il2CppTypeEnum::Array)
        }
    );
    assert_eq!(
        reg.types[3],
        Il2CppType {
            byref: true,
            pinned: true,
            valuetype: true,
            ..plain(TypeData::ArrayType(0), Il2CppTypeEnum::Array)
        }
    );
    assert_eq!(reg.types[4], plain(definition(1), Il2CppTypeEnum::Class));
    assert_eq!(
        reg.types[5],
        plain(
            TypeData::GenericParameterIndex(GenericParameterIndex { index: 0 }),
            Il2CppTypeEnum::Var
        )
    );
    assert_eq!(reg.types[6], plain(TypeData::GenericClassIndex(0), Il2CppTypeEnum::Genericinst));
    assert_eq!(reg.array_types.len(), 1);
    assert_eq!(reg.array_types[0].elem_ty, 1);
    assert_eq!(reg.array_types[0].rank, 2);
    assert_eq!(reg.array_types[0].sizes, vec![3]);
    assert_eq!(reg.array_types[0].lower_bounds, vec![7, 8]);
    assert_eq!(
        reg.generic_classes,
        vec![Il2CppGenericClass {
            type_index: 4,
            context: Il2CppGenericContext { class_inst_idx: Some(0), method_inst_idx: None },
        }]
    );
    assert_eq!(reg.generic_insts.len(), 1);
    assert_eq!(reg.generic_insts[0].types, vec![0, 5]);
    assert_eq!(
        reg.generic_method_table,
        vec![
            Il2CppGenericMethodFunctionsDefinitions {
                generic_method_index: 9,
                indices: GenericMethodIndices {
                    method_index: 10,
                    invoker_index: 11,
                    adjustor_thunk_index: 12,
                },
            },
            Il2CppGenericMethodFunctionsDefinitions {
                generic_method_index: 13,
                indices: GenericMethodIndices {
                    method_index: 14,
                    invoker_index: 15,
                    adjustor_thunk_index: 16,
                },
            },
        ]
    );
    assert_eq!(
        reg.method_specs,
        vec![Il2CppMethodSpec {
            method_definition_index: MethodIndex { index: 1 },
            class_inst_index: 2,
            method_inst_index: 3,
        }]
    );
}

fn check_layout(reg: &Il2CppMetadataRegistration) {
    assert_eq!(reg.field_offsets, Some(vec![vec![0x10, 0x18], vec![]]));
    assert_eq!(
        reg.type_definition_sizes,
        Some(vec![Il2CppTypeDefinitionSizes {
            instance_size: 0x20,
            native_size: -1,
            static_fields_size: 4,
            thread_static_fields_size: 5,
        }])
    );
}

fn check_no_layout(reg: &Il2CppMetadataRegistration) {
    assert_eq!(reg.field_offsets, None);
    assert_eq!(reg.type_definition_sizes, None);
}

/// Puts a code registration into a file.
fn add_code(b: &mut Builder) -> u64 {
    let name = b.bytes(b"Game.dll\0");
    let methods = b.words64(&[0x111, 0x222]);
    let thunk = b.place(16);
    b.put32(thunk, 0x0600_0001);
    b.put64(thunk + 8, 0x333);
    let invokers = b.words32(&[4, 5]);
    let ranges = b.words32(&[0x0200_0002, 6, 7]);
    let contexts = b.words64(&[3, 0x444, 5, 0x555]);
    let module = b.place(96);
    b.put64(module, name);
    b.counted(module + 8, 2, methods);
    b.counted(module + 24, 1, thunk);
    b.put64(module + 40, invokers);
    b.counted(module + 64, 1, ranges);
    b.counted(module + 80, 2, contexts);
    let wrappers = b.words64(&[1, 2, 3]);
    let generic = b.words64(&[4, 5]);
    let thunks = b.words64(&[6, 7]);
    let pointers = b.words64(&[8]);
    let unresolved = b.words64(&[9, 10]);
    let modules = b.words64(&[module]);
    let registration = b.place(136);
    b.counted(registration, 3, wrappers);
    b.counted(registration + 16, 2, generic);
    b.put64(registration + 32, thunks);
    b.counted(registration + 40, 1, pointers);
    b.counted(registration + 56, 2, unresolved);
    b.counted(registration + 120, 1, modules);
    registration
}

fn check_code(reg: &Il2CppCodeRegistration) {
    assert_eq!(reg.reverse_pinvoke_wrappers, vec![1, 2, 3]);
    assert_eq!(reg.generic_method_pointers, vec![4, 5]);
    assert_eq!(reg.generic_adjustor_thunks, vec![6, 7]);
    assert_eq!(reg.invoker_pointers, vec![8]);
    assert_eq!(reg.unresolved_indirect_call_pointers, vec![9, 10]);
    assert_eq!(reg.code_gen_modules.len(), 1);
    let module = &reg.code_gen_modules[0];
    assert_eq!(module.name, "Game.dll");
    assert_eq!(module.method_pointers, vec![0x111, 0x222]);
    assert_eq!(
        module.adjustor_thunks,
        vec![Il2CppTokenAdjustorThunkPair { token: Token(0x0600_0001), adjustor_thunk: 0x333 }]
    );
    assert_eq!(module.invoker_indices, vec![4, 5]);
    assert_eq!(
        module.rgctx_ranges,
        vec![Il2CppTokenRangePair {
            token: Token(0x0200_0002),
            range: Il2CppRange { start: 6, length: 7 },
        }]
    );
    assert_eq!(
        module.rgctxs,
        vec![
            Il2CppRGCTXDefinition { ty: Il2CppRGCTXDataType::Method, data: 0x444 },
            Il2CppRGCTXDefinition { ty: Il2CppRGCTXDataType::Constrained, data: 0x555 },
        ]
    );
}

// ---------------------------------------------------------------------------------------------
// Registrations
// ---------------------------------------------------------------------------------------------

#[test]
fn metadata_registration_reads() {
    let mut b = Builder::new(0x1_0000, vec![0xcc; 24]);
    let addr = add_metadata(&mut b);
    let reg =
        Il2CppMetadataRegistration::read(&b.object(), &b.data, addr, &global_metadata()).unwrap();
    check_metadata(&reg);
    check_layout(&reg);
}

#[test]
fn code_registration_reads() {
    let mut b = Builder::new(0x1_0000, vec![0xcc; 24]);
    let addr = add_code(&mut b);
    let reg = Il2CppCodeRegistration::read(&b.object(), &b.data, addr).unwrap();
    check_code(&reg);
}

#[test]
fn method_pointers_in_bss_are_zeros() {
    let mut b = Builder::new(0x1_0000, Vec::new());
    let addr = add_code(&mut b);
    let mut object = b.object();
    let module = {
        let at = b.offset(addr + 128);
        let list = u64::from_le_bytes(b.data[at..at + 8].try_into().unwrap());
        let at = b.offset(list);
        u64::from_le_bytes(b.data[at..at + 8].try_into().unwrap())
    };
    let bss = 0xdead_0000;
    b.put64(module + 16, bss + 0xff);
    object.bss = Some(Section { address: bss, size: 0x100 });
    let reg = Il2CppCodeRegistration::read(&object, &b.data, addr).unwrap();
    assert_eq!(reg.code_gen_modules[0].method_pointers, vec![0, 0]);
    b.put64(module + 16, bss + 0x100);
    assert_eq!(
        Il2CppCodeRegistration::read(&object, &b.data, addr).unwrap_err(),
        ReadFailure::Error(Il2CppBinaryError::VAddrConv(bss + 0x100))
    );
}

#[test]
fn address_listed_twice_has_its_last_position() {
    let mut b = Builder::new(0x1_0000, Vec::new());
    let int = b.ty(0, 0, 0x08, 0);
    let ptr = b.ty(int, 0, 0x0f, 0);
    let types = b.words64(&[int, int, ptr]);
    let registration = b.place(112);
    b.counted(registration + 48, 3, types);
    let reg =
        Il2CppMetadataRegistration::read(&b.object(), &b.data, registration, &global_metadata())
            .unwrap();
    assert_eq!(reg.types[0], reg.types[1]);
    assert_eq!(reg.types[2].data, TypeData::TypeIndex(1));
}

#[test]
fn array_types_at_different_addresses_are_kept_apart() {
    let mut b = Builder::new(0x1_0000, Vec::new());
    let int = b.ty(0, 0, 0x08, 0);
    let first = b.place(32);
    b.put64(first, int);
    b.put8(first + 8, 1);
    let second = b.place(32);
    b.put64(second, int);
    b.put8(second + 8, 1);
    let a = b.ty(first, 0, 0x14, 0);
    let c = b.ty(second, 0, 0x14, 0);
    let d = b.ty(first, 0, 0x14, 0);
    let types = b.words64(&[int, a, c, d]);
    let registration = b.place(112);
    b.counted(registration + 48, 4, types);
    let reg =
        Il2CppMetadataRegistration::read(&b.object(), &b.data, registration, &global_metadata())
            .unwrap();
    assert_eq!(reg.array_types.len(), 2);
    assert_eq!(reg.types[1].data, TypeData::ArrayType(0));
    assert_eq!(reg.types[2].data, TypeData::ArrayType(1));
    assert_eq!(reg.types[3].data, TypeData::ArrayType(0));
}

#[test]
fn unlisted_type_pointer_is_malformed() {
    let mut b = Builder::new(0x1_0000, Vec::new());
    let int = b.ty(0, 0, 0x08, 0);
    let ptr = b.ty(int, 0, 0x0f, 0);
    let types = b.words64(&[ptr]);
    let registration = b.place(112);
    b.counted(registration + 48, 1, types);
    assert_eq!(
        Il2CppMetadataRegistration::read(&b.object(), &b.data, registration, &global_metadata())
            .unwrap_err(),
        ReadFailure::Malformed
    );
}

#[test]
fn unknown_element_type_is_an_error() {
    let mut b = Builder::new(0x1_0000, Vec::new());
    let bad = b.ty(0, 0, 0x17, 0);
    let types = b.words64(&[bad]);
    let registration = b.place(112);
    b.counted(registration + 48, 1, types);
    assert_eq!(
        Il2CppMetadataRegistration::read(&b.object(), &b.data, registration, &global_metadata())
            .unwrap_err(),
        ReadFailure::Error(Il2CppBinaryError::InvalidType(0x17))
    );
}

#[test]
fn truncated_field_is_an_io_error() {
    let mut b = Builder::new(0x1_0000, Vec::new());
    let registration = b.place(14);
    b.put32(registration, 1);
    assert_eq!(
        Il2CppMetadataRegistration::read(&b.object(), &b.data, registration, &global_metadata())
            .unwrap_err(),
        ReadFailure::Error(Il2CppBinaryError::Io)
    );
}

#[test]
fn truncated_array_is_a_record_error() {
    let mut b = Builder::new(0x1_0000, Vec::new());
    let registration = b.place(112);
    let list = b.words64(&[1]);
    b.counted(registration, 2, list);
    assert_eq!(
        Il2CppMetadataRegistration::read(&b.object(), &b.data, registration, &global_metadata())
            .unwrap_err(),
        ReadFailure::Error(Il2CppBinaryError::BinRead(BinReadError::Io))
    );
}

#[test]
fn unknown_context_kind_is_a_record_error() {
    let mut b = Builder::new(0x1_0000, vec![0; 8]);
    let name = b.bytes(b"A.dll\0");
    let contexts = b.words64(&[6, 0]);
    let module = b.place(96);
    b.put64(module, name);
    b.counted(module + 80, 1, contexts);
    let modules = b.words64(&[module]);
    let registration = b.place(136);
    b.counted(registration + 120, 1, modules);
    let pos = b.offset(contexts) as u64;
    assert_eq!(
        Il2CppCodeRegistration::read(&b.object(), &b.data, registration).unwrap_err(),
        ReadFailure::Error(Il2CppBinaryError::BinRead(BinReadError::NoVariantMatch { pos }))
    );
}

#[test]
fn module_name_must_be_utf8() {
    let mut b = Builder::new(0x1_0000, Vec::new());
    let name = b.bytes(b"\xff\xfe\0");
    let module = b.place(96);
    b.put64(module, name);
    let modules = b.words64(&[module]);
    let registration = b.place(136);
    b.counted(registration + 120, 1, modules);
    assert_eq!(
        Il2CppCodeRegistration::read(&b.object(), &b.data, registration).unwrap_err(),
        ReadFailure::Error(Il2CppBinaryError::Utf8)
    );
}

#[test]
fn offsets_beyond_the_type_definitions_are_malformed() {
    let mut b = Builder::new(0x1_0000, Vec::new());
    let offsets = b.words32(&[1, 2]);
    let ptrs = b.words64(&[0, 0, offsets]);
    let registration = b.place(112);
    b.counted(registration + 80, 3, ptrs);
    assert_eq!(
        Il2CppMetadataRegistration::read(&b.object(), &b.data, registration, &global_metadata())
            .unwrap_err(),
        ReadFailure::Malformed
    );
}

#[test]
fn names_of_registered_types() {
    let mut b = Builder::new(0x1_0000, Vec::new());
    let code = add_code(&mut b);
    let metadata = add_metadata(&mut b);
    let runtime_metadata = RuntimeMetadata::read_registrations(
        &b.object(),
        &b.data,
        code,
        metadata,
        &global_metadata(),
    )
    .unwrap();
    check_code(&runtime_metadata.code_registration);
    check_metadata(&runtime_metadata.metadata_registration);
    check_layout(&runtime_metadata.metadata_registration);
    let metadata = Metadata { global_metadata: global_metadata(), runtime_metadata };
    let names: Vec<String> = metadata
        .runtime_metadata
        .metadata_registration
        .types
        .iter()
        .map(|ty| ty.full_name(&metadata))
        .collect();
    assert_eq!(
        names,
        vec![
            "System.Int32",
            "System.Int32*",
            "System.Int32*[,]",
            "System.Int32*[,]",
            "Game.List",
            "T",
            "Game.List<System.Int32, T>",
        ]
    );
}

// ---------------------------------------------------------------------------------------------
// ELF
// ---------------------------------------------------------------------------------------------

const NOP: u32 = 0xd503_201f;

fn bl(from: u64, to: u64) -> u32 {
    0x9400_0000 | ((to.wrapping_sub(from) >> 2) as u32 & 0x03ff_ffff)
}

fn blr(reg: u32) -> u32 {
    0xd63f_0000 | reg << 5
}

fn adrp(reg: u32, from: u64, to: u64) -> u32 {
    let pages = (to >> 12).wrapping_sub(from >> 12) as u32;
    0x9000_0000 | (pages & 3) << 29 | (pages >> 2 & 0x7_ffff) << 5 | reg
}

fn add(rd: u32, rn: u32, imm: u64) -> u32 {
    0x9100_0000 | (imm as u32 & 0xfff) << 10 | rn << 5 | rd
}

fn ldr(rt: u32, rn: u32, imm: u64) -> u32 {
    0xf940_0000 | ((imm / 8) as u32 & 0xfff) << 10 | rn << 5 | rt
}

/// Decodes the few instructions that these files hold.
fn decode(code: &[u8], addr: u64) -> Result<Vec<A64Insn>, A64DecodeError> {
    let mut insns = Vec::new();
    for (i, chunk) in code.chunks(4).enumerate() {
        let at = addr + 4 * i as u64;
        let word = match chunk.try_into() {
            Ok(bytes) => u32::from_le_bytes(bytes),
            Err(_) => return Err(A64DecodeError::Short(at)),
        };
        let rd = word & 31;
        let rn = word >> 5 & 31;
        let imm12 = (word >> 10 & 0xfff) as u64;
        let (op, operands) = if word == NOP {
            (A64Op::Other, vec![])
        } else if word >> 26 == 0x25 {
            let distance = (((word & 0x03ff_ffff) << 6) as i32 >> 4) as i64;
            let target = at.wrapping_add_signed(distance);
            (A64Op::Bl, vec![A64Operand::Label(A64Imm::Unsigned(target))])
        } else if word & 0xffff_fc1f == 0xd63f_0000 {
            (A64Op::Blr, vec![A64Operand::Reg(rn)])
        } else if word & 0x9f00_0000 == 0x9000_0000 {
            let pages = (word >> 29 & 3 | (word >> 5 & 0x7_ffff) << 2) as u64;
            let page = (at & !0xfff).wrapping_add(pages << 12);
            (A64Op::Adrp, vec![A64Operand::Reg(rd), A64Operand::Label(A64Imm::Unsigned(page))])
        } else if word >> 22 == 0x244 {
            (
                A64Op::Add,
                vec![
                    A64Operand::Reg(rd),
                    A64Operand::Reg(rn),
                    A64Operand::Imm64(A64Imm::Unsigned(imm12)),
                ],
            )
        } else if word >> 22 == 0x3e5 {
            (
                A64Op::Ldr,
                vec![
                    A64Operand::Reg(rd),
                    A64Operand::MemOffset { reg: rn, offset: A64Imm::Signed(imm12 as i64 * 8) },
                ],
            )
        } else {
            return Err(A64DecodeError::Unallocated(at));
        };
        insns.push(A64Insn { op, operands });
    }
    Ok(insns)
}

/// Reads an ELF file to the end.
fn read_elf(object: &ObjectFile, data: &[u8]) -> Result<RuntimeMetadata, ReadFailure> {
    finish(object, data, RuntimeMetadata::read_elf_runtime(object, data))
}

fn finish(
    object: &ObjectFile,
    data: &[u8],
    start: ElfProgress,
) -> Result<RuntimeMetadata, ReadFailure> {
    let global_metadata = global_metadata();
    let mut progress = start;
    loop {
        match progress {
            ElfProgress::Done(result) => return result,
            ElfProgress::Decode(reader) => {
                let reply = decode(&reader.code, reader.addr);
                progress = reader.resume(object, data, &global_metadata, reply);
            }
        }
    }
}

struct ElfCode {
    init: u64,
    runtime_init: u64,
    slot: u64,
    metadata: u64,
}

/// Puts the code into a file that leads to its registrations. The address of the metadata
/// registration stands in a slot that a relocation fills.
fn add_elf_code(b: &mut Builder) -> ElfCode {
    let code = add_code(b);
    let metadata = add_metadata(b);
    let slot = b.words64(&[0]);
    let function = b.place(28);
    let words = [
        adrp(0, function, code),
        NOP,
        adrp(1, function + 8, slot),
        add(0, 0, code & 0xfff),
        ldr(1, 1, slot & 0xfff),
        add(0, 5, 1),
        NOP,
    ];
    for (i, word) in words.iter().enumerate() {
        b.put32(function + 4 * i as u64, *word);
    }
    let runtime_init = b.place(24);
    let words = [
        NOP,
        adrp(9, runtime_init + 4, function),
        bl(runtime_init + 8, function),
        add(9, 9, function & 0xfff),
        blr(9),
        blr(3),
    ];
    for (i, word) in words.iter().enumerate() {
        b.put32(runtime_init + 4 * i as u64, *word);
    }
    let init = b.place(16);
    let words = [bl(init, function), NOP, bl(init + 8, runtime_init), bl(init + 12, init)];
    for (i, word) in words.iter().enumerate() {
        b.put32(init + 4 * i as u64, *word);
    }
    ElfCode { init, runtime_init, slot, metadata }
}

fn relocation(address: u64, addend: i64) -> DynamicRelocation {
    DynamicRelocation { address, encoding: Encoding::Generic, target: Target::Absolute, addend }
}

fn elf_object(b: &Builder, code: &ElfCode) -> ObjectFile {
    let mut object = b.object();
    object.dynamic_symbols = vec![
        Symbol { name: None, address: 1 },
        Symbol { name: Some("il2cpp_shutdown".to_string()), address: 2 },
        Symbol { name: Some("il2cpp_init".to_string()), address: code.init },
        Symbol { name: Some("il2cpp_init".to_string()), address: 3 },
    ];
    object.dynamic_relocations = Some(vec![
        DynamicRelocation {
            address: 0,
            encoding: Encoding::Other,
            target: Target::Absolute,
            addend: 1,
        },
        DynamicRelocation {
            address: 0,
            encoding: Encoding::Generic,
            target: Target::Symbol,
            addend: 1,
        },
        relocation(code.slot, code.metadata as i64),
    ]);
    object
}

#[test]
fn elf_file_reads() {
    let mut b = Builder::new(0x12_3000, vec![0xaa; 64]);
    let code = add_elf_code(&mut b);
    let metadata = read_elf(&elf_object(&b, &code), &b.data).unwrap();
    check_code(&metadata.code_registration);
    check_metadata(&metadata.metadata_registration);
    check_layout(&metadata.metadata_registration);
}

#[test]
fn elf_reading_begins_at_il2cpp_init() {
    let mut b = Builder::new(0x12_3000, vec![0xaa; 64]);
    let code = add_elf_code(&mut b);
    let object = elf_object(&b, &code);
    let reader = match RuntimeMetadata::read_elf_runtime(&object, &b.data) {
        ElfProgress::Decode(reader) => reader,
        ElfProgress::Done(_) => panic!("reading ended at once"),
    };
    let offset = b.offset(code.init) as u64;
    assert_eq!(reader.addr, code.init);
    assert_eq!(reader.stage, ElfStage::Init { addr: code.init, offset, index: 0, skip: 1 });
    let at = offset as usize;
    assert_eq!(reader.code, b.data[at..at + 4].to_vec());
    let slot = b.offset(code.slot);
    assert_eq!(reader.relocated[slot..slot + 8], code.metadata.to_le_bytes());
    let reply = decode(&reader.code, reader.addr);
    match reader.resume(&object, &b.data, &global_metadata(), reply) {
        ElfProgress::Decode(next) => {
            assert_eq!(next.addr, code.init + 4);
            assert_eq!(next.stage, ElfStage::Init { addr: code.init, offset, index: 1, skip: 0 });
        }
        ElfProgress::Done(_) => panic!("reading ended at the first call"),
    }
}

#[test]
fn elf_without_init_is_an_error() {
    let b = Builder::new(0x1000, vec![0; 8]);
    let mut object = b.object();
    object.dynamic_symbols = vec![Symbol { name: Some("il2cpp_in".to_string()), address: 0 }];
    assert_eq!(
        read_elf(&object, &b.data).unwrap_err(),
        ReadFailure::Error(Il2CppBinaryError::MissingIl2CppInit)
    );
}

#[test]
fn elf_init_outside_the_segments_is_an_error() {
    let b = Builder::new(0x1000, vec![0; 8]);
    let mut object = b.object();
    object.dynamic_symbols = vec![Symbol { name: Some("il2cpp_init".to_string()), address: 5 }];
    assert_eq!(
        read_elf(&object, &b.data).unwrap_err(),
        ReadFailure::Error(Il2CppBinaryError::VAddrConv(5))
    );
}

#[test]
fn elf_code_that_runs_off_the_end_is_malformed() {
    let mut b = Builder::new(0x1000, Vec::new());
    let init = b.words32(&[NOP, NOP]);
    let mut object = b.object();
    object.dynamic_symbols = vec![Symbol { name: Some("il2cpp_init".to_string()), address: init }];
    assert_eq!(read_elf(&object, &b.data).unwrap_err(), ReadFailure::Malformed);
}

#[test]
fn elf_code_that_does_not_decode_is_an_error() {
    let mut b = Builder::new(0x1000, Vec::new());
    let init = b.words32(&[NOP, 0]);
    let mut object = b.object();
    object.dynamic_symbols = vec![Symbol { name: Some("il2cpp_init".to_string()), address: init }];
    assert_eq!(
        read_elf(&object, &b.data).unwrap_err(),
        ReadFailure::Error(Il2CppBinaryError::Disassemble(A64DecodeError::Unallocated(init + 4)))
    );
}

fn elf_with_blr_after(nops: usize) -> (Builder, ObjectFile) {
    let mut b = Builder::new(0x1000, Vec::new());
    let init = b.place(8);
    let mut words = vec![NOP; nops];
    words.push(blr(9));
    let runtime_init = b.words32(&words);
    b.put32(init, bl(init, init));
    b.put32(init + 4, bl(init + 4, runtime_init));
    let mut object = b.object();
    object.dynamic_symbols = vec![Symbol { name: Some("il2cpp_init".to_string()), address: init }];
    (b, object)
}

#[test]
fn elf_without_blr_in_reach_is_an_error() {
    let (b, object) = elf_with_blr_after(200);
    assert_eq!(
        read_elf(&object, &b.data).unwrap_err(),
        ReadFailure::Error(Il2CppBinaryError::MissingBlr)
    );
}

#[test]
fn elf_blr_through_an_unknown_register_is_malformed() {
    let (b, object) = elf_with_blr_after(199);
    assert_eq!(read_elf(&object, &b.data).unwrap_err(), ReadFailure::Malformed);
}

#[test]
fn elf_empty_reply_is_malformed() {
    let (b, object) = elf_with_blr_after(1);
    match RuntimeMetadata::read_elf_runtime(&object, &b.data) {
        ElfProgress::Decode(reader) => {
            match reader.resume(&object, &b.data, &global_metadata(), Ok(Vec::new())) {
                ElfProgress::Done(result) => {
                    assert_eq!(result.unwrap_err(), ReadFailure::Malformed)
                }
                ElfProgress::Decode(_) => panic!("reading went on"),
            }
        }
        ElfProgress::Done(_) => panic!("reading ended at once"),
    }
}

#[test]
fn elf_registration_outside_the_segments_is_an_error() {
    let mut b = Builder::new(0x12_3000, Vec::new());
    let code = add_elf_code(&mut b);
    let mut object = elf_object(&b, &code);
    object.dynamic_relocations = Some(vec![relocation(code.slot, 0x77)]);
    assert_eq!(
        read_elf(&object, &b.data).unwrap_err(),
        ReadFailure::Error(Il2CppBinaryError::VAddrConv(0x77))
    );
}

#[test]
fn elf_load_outside_the_segments_is_malformed() {
    let mut b = Builder::new(0x12_3000, Vec::new());
    let code = add_elf_code(&mut b);
    b.put32(code.runtime_init + 12, ldr(9, 9, 0));
    b.put32(code.runtime_init + 4, adrp(9, code.runtime_init + 4, 0x80_0000));
    assert_eq!(
        read_elf(&elf_object(&b, &code), &b.data).unwrap_err(),
        ReadFailure::Malformed
    );
}

#[test]
fn relocations_are_applied_in_order() {
    let mut b = Builder::new(0x1000, Vec::new());
    let place = b.words64(&[0x1111, 0x2222, 0x3333]);
    let mut object = b.object();
    object.dynamic_relocations = Some(vec![
        relocation(place, 7),
        relocation(place + 8, -2),
        relocation(place, 0x0102_0304_0506_0708),
    ]);
    let data = process_relocations(&object, &b.data).unwrap();
    assert_eq!(data[0..8], [8, 7, 6, 5, 4, 3, 2, 1]);
    assert_eq!(data[8..16], [0xfe, 0xff, 0xff, 0xff, 0xff, 0xff, 0xff, 0xff]);
    assert_eq!(data[16..], 0x3333u64.to_le_bytes());
}

#[test]
fn relocation_past_the_end_grows_the_data() {
    let b = Builder::new(0x1000, Vec::new());
    let mut object = b.object();
    object.dynamic_relocations = Some(vec![relocation(0x1004, 9)]);
    let data = process_relocations(&object, &[1, 2]).unwrap();
    assert_eq!(data, vec![1, 2, 0, 0, 9, 0, 0, 0, 0, 0, 0, 0]);
}

#[test]
fn relocation_outside_the_segments_is_an_error() {
    let b = Builder::new(0x1000, Vec::new());
    let mut object = b.object();
    object.dynamic_relocations = Some(vec![relocation(0xfff, 9)]);
    assert_eq!(
        process_relocations(&object, &[1, 2]).unwrap_err(),
        ReadFailure::Error(Il2CppBinaryError::VAddrConv(0xfff))
    );
}

#[test]
fn no_relocations_leave_the_data_alone() {
    let b = Builder::new(0x1000, Vec::new());
    assert_eq!(process_relocations(&b.object(), &[1, 2]).unwrap(), vec![1, 2]);
}

/// The bytes of an ELF file: one segment that holds the whole file from `base` on, the dynamic
/// symbols, two relocations and a `.bss` section.
fn elf_file(base: u64, body: &[u8], init: u64, slot: u64, addend: u64) -> Vec<u8> {
    let mut file = body.to_vec();
    let section = |name: u32, ty: u32, addr: u64, at: u64, size: u64, link: u32, entry: u64| {
        let mut header = Vec::new();
        header.extend(name.to_le_bytes());
        header.extend(ty.to_le_bytes());
        header.extend(0u64.to_le_bytes());
        header.extend(addr.to_le_bytes());
        header.extend(at.to_le_bytes());
        header.extend(size.to_le_bytes());
        header.extend(link.to_le_bytes());
        header.extend(1u32.to_le_bytes());
        header.extend(8u64.to_le_bytes());
        header.extend(entry.to_le_bytes());
        header
    };
    let names = b"\0.shstrtab\0.dynsym\0.dynstr\0.rela.dyn\0.bss\0";
    let names_at = file.len() as u64;
    file.extend(names);
    let strings = b"\0il2cpp_init\0";
    let strings_at = file.len() as u64;
    file.extend(strings);
    while file.len() % 8 != 0 {
        file.push(0);
    }
    let symbols_at = file.len() as u64;
    file.extend([0; 24]);
    file.extend(1u32.to_le_bytes());
    file.extend([0x12, 0]);
    file.extend(1u16.to_le_bytes());
    file.extend(init.to_le_bytes());
    file.extend(0u64.to_le_bytes());
    let relocations_at = file.len() as u64;
    file.extend(slot.to_le_bytes());
    file.extend(1027u64.to_le_bytes());
    file.extend(addend.to_le_bytes());
    file.extend(slot.to_le_bytes());
    file.extend((1u64 << 32 | 257).to_le_bytes());
    file.extend(5u64.to_le_bytes());
    let sections_at = file.len() as u64;
    file.extend([0; 64]);
    file.extend(section(1, 3, 0, names_at, names.len() as u64, 0, 0));
    file.extend(section(11, 11, 0, symbols_at, 48, 3, 24));
    file.extend(section(19, 3, 0, strings_at, strings.len() as u64, 0, 0));
    file.extend(section(27, 4, 0, relocations_at, 48, 2, 24));
    file.extend(section(37, 8, 0xb550_0000, 0, 0x40, 0, 0));

    let len = file.len() as u64;
    let mut header = vec![0x7f, b'E', b'L', b'F', 2, 1, 1, 0, 0, 0, 0, 0, 0, 0, 0, 0];
    header.extend(3u16.to_le_bytes());
    header.extend(183u16.to_le_bytes());
    header.extend(1u32.to_le_bytes());
    header.extend(0u64.to_le_bytes());
    header.extend(64u64.to_le_bytes());
    header.extend(sections_at.to_le_bytes());
    header.extend(0u32.to_le_bytes());
    for half in [64u16, 56, 1, 64, 6, 1] {
        header.extend(half.to_le_bytes());
    }
    header.extend(1u32.to_le_bytes());
    header.extend(5u32.to_le_bytes());
    for word in [ELF_HEADER as u64, base, base, len - ELF_HEADER as u64, 0x2_0000, 8] {
        header.extend(word.to_le_bytes());
    }
    file[..ELF_HEADER].copy_from_slice(&header);
    file
}

const ELF_HEADER: usize = 120;

#[test]
fn elf_bytes_parse() {
    let base = 0x12_3000;
    let file = elf_file(base, &[0; 160], base + 8, base + 16, 0x99);
    let object = ObjectFile::parse(&file).unwrap();
    assert_eq!(
        object.segments,
        vec![Segment { address: base, size: 0x2_0000, file_offset: ELF_HEADER as u64 }]
    );
    assert_eq!(object.bss, Some(Section { address: 0xb550_0000, size: 0x40 }));
    let symbols: Vec<(Option<String>, u64)> =
        object.dynamic_symbols.iter().map(|s| (s.name.clone(), s.address)).collect();
    assert_eq!(
        symbols,
        vec![(Some(String::new()), 0), (Some("il2cpp_init".to_string()), base + 8)]
    );
    assert_eq!(
        object.dynamic_relocations,
        Some(vec![
            relocation(base + 16, 0x99),
            DynamicRelocation {
                address: base + 16,
                encoding: Encoding::Generic,
                target: Target::Symbol,
                addend: 5,
            },
        ])
    );
}

#[test]
fn elf_bytes_read() {
    let base = 0x12_3000;
    let mut b = Builder::new(base, vec![0; ELF_HEADER]);
    let code = add_elf_code(&mut b);
    let file = elf_file(base, &b.data, code.init, code.slot, code.metadata);
    let (object, start) = RuntimeMetadata::read_elf(&file).unwrap();
    let metadata = finish(&object, &file, start).unwrap();
    check_code(&metadata.code_registration);
    check_metadata(&metadata.metadata_registration);
    check_layout(&metadata.metadata_registration);
}

#[test]
fn bytes_of_no_object_file_are_an_error() {
    assert_eq!(ObjectFile::parse(b"no object file").unwrap_err(), Il2CppBinaryError::Object);
    assert_eq!(RuntimeMetadata::read_elf(b"").unwrap_err(), Il2CppBinaryError::Object);
    assert_eq!(
        RuntimeMetadata::read_pe(b"MZ", &global_metadata()).unwrap_err(),
        Il2CppBinaryError::Object
    );
    assert_eq!(
        RuntimeMetadata::try_read_pe(b"MZ", &global_metadata()).unwrap_err(),
        ReadFailure::Error(Il2CppBinaryError::Object)
    );
}

// ---------------------------------------------------------------------------------------------
// PE
// ---------------------------------------------------------------------------------------------

/// Appends instructions to code that will stand at `addr`.
struct X86Code {
    addr: u64,
    bytes: Vec<u8>,
}

impl X86Code {
    fn at(addr: u64) -> X86Code {
        X86Code { addr, bytes: Vec::new() }
    }

    fn rip(&mut self, opcode: &[u8], target: u64) -> &mut X86Code {
        let next = self.addr + (self.bytes.len() + opcode.len() + 4) as u64;
        self.bytes.extend(opcode);
        self.bytes.extend((target.wrapping_sub(next) as i64 as i32).to_le_bytes());
        self
    }

    fn call(&mut self, target: u64) -> &mut X86Code {
        self.rip(&[0xe8], target)
    }

    fn call_through(&mut self, target: u64) -> &mut X86Code {
        self.rip(&[0xff, 0x15], target)
    }

    fn lea_rcx(&mut self, target: u64) -> &mut X86Code {
        self.rip(&[0x48, 0x8d, 0x0d], target)
    }

    fn mov_rax(&mut self, target: u64) -> &mut X86Code {
        self.rip(&[0x48, 0x8b, 0x05], target)
    }

    fn raw(&mut self, bytes: &[u8]) -> &mut X86Code {
        self.bytes.extend(bytes);
        self
    }
}

/// Puts the code into a file that leads to its registrations, and gives the address of
/// `il2cpp_init`.
fn add_pe_code(b: &mut Builder) -> u64 {
    let code = add_code(b);
    let metadata = add_metadata(b);
    let function = b.place(64);
    let mut text = X86Code::at(function);
    text.raw(&[0x90]).lea_rcx(0x40).lea_rcx(metadata).raw(&[0x90]).lea_rcx(code).raw(&[0xc3]);
    b.put(function, &text.bytes);
    let slot = b.words64(&[function]);
    let runtime_init = b.place(128);
    let mut text = X86Code::at(runtime_init);
    for _ in 0..14 {
        text.call(function);
    }
    text.raw(&[0x90]).call_through(slot).call(1).raw(&[0xc3]);
    b.put(runtime_init, &text.bytes);
    let init = b.place(32);
    let mut text = X86Code::at(init);
    text.raw(&[0x48, 0x83, 0xec, 0x28]).call(0x50).call(runtime_init).call(0x60).raw(&[0xc3]);
    b.put(init, &text.bytes);
    init
}

fn pe_object(b: &Builder, init: u64) -> ObjectFile {
    let mut object = b.object();
    object.exports = Some(vec![
        Export { name: b"\xff".to_vec(), address: 1 },
        Export { name: b"il2cpp_init_utf16".to_vec(), address: 2 },
        Export { name: b"il2cpp_init".to_vec(), address: init },
        Export { name: b"il2cpp_init".to_vec(), address: 3 },
    ]);
    object
}

#[test]
fn pe_file_reads() {
    let mut b = Builder::new(0x18_0000_1000, vec![0xcc; 40]);
    let init = add_pe_code(&mut b);
    let object = pe_object(&b, init);
    let metadata =
        RuntimeMetadata::try_read_pe_runtime(&object, &b.data, &global_metadata()).unwrap();
    check_code(&metadata.code_registration);
    check_metadata(&metadata.metadata_registration);
    check_no_layout(&metadata.metadata_registration);
    let again = RuntimeMetadata::read_pe_runtime(&object, &b.data, &global_metadata()).unwrap();
    check_code(&again.code_registration);
    check_metadata(&again.metadata_registration);
    check_no_layout(&again.metadata_registration);
}

#[test]
fn pe_registrations_are_found() {
    let mut b = Builder::new(0x18_0000_1000, Vec::new());
    let code = add_code(&mut b);
    let metadata = add_metadata(&mut b);
    let mut b = Builder::new(0x18_0000_1000, Vec::new());
    let init = add_pe_code(&mut b);
    assert_eq!(find_registration(&pe_object(&b, init), &b.data), Ok((code, metadata)));
}

#[test]
fn pe_without_readable_exports_is_an_error() {
    let b = Builder::new(0x1000, vec![0; 8]);
    assert_eq!(
        find_registration(&b.object(), &b.data),
        Err(ReadFailure::Error(Il2CppBinaryError::Object))
    );
}

#[test]
fn pe_without_init_is_an_error() {
    let b = Builder::new(0x1000, vec![0; 8]);
    let mut object = b.object();
    object.exports = Some(vec![Export { name: b"il2cpp_shutdown".to_vec(), address: 0 }]);
    assert_eq!(
        find_registration(&object, &b.data),
        Err(ReadFailure::Error(Il2CppBinaryError::MissingIl2CppInit))
    );
}

#[test]
fn pe_init_outside_the_segments_is_an_error() {
    let b = Builder::new(0x1000, vec![0; 8]);
    assert_eq!(
        find_registration(&pe_object(&b, 7), &b.data),
        Err(ReadFailure::Error(Il2CppBinaryError::VAddrConv(7)))
    );
}

#[test]
fn pe_registration_function_outside_the_segments_is_malformed() {
    let mut b = Builder::new(0x18_0000_1000, Vec::new());
    let init = add_pe_code(&mut b);
    let function = b.data.windows(8).position(|w| w[0] == 0x90 && w[1] == 0x48).unwrap() as u64
        + 0x18_0000_1000;
    let slot = b.data.windows(8).position(|w| w == function.to_le_bytes()).unwrap();
    b.data[slot..slot + 8].copy_from_slice(&7u64.to_le_bytes());
    assert_eq!(
        find_registration(&pe_object(&b, init), &b.data),
        Err(ReadFailure::Malformed)
    );
    assert_eq!(
        RuntimeMetadata::try_read_pe_runtime(
            &pe_object(&b, init),
            &b.data,
            &global_metadata()
        )
        .unwrap_err(),
        ReadFailure::Malformed
    );
}

#[test]
fn calls_are_counted() {
    let mut b = Builder::new(0x1000, Vec::new());
    let mut text = X86Code::at(0x1000);
    text.call(0x1234).raw(&[0xff, 0xd0]).mov_rax(0x2000).call(0x5678).raw(&[0xc3]);
    let addr = b.bytes(&text.bytes);
    let object = b.object();
    assert_eq!(nth_call(&object, &b.data, addr, 1), Ok(0x1234));
    // The second call goes through a register; what follows it is looked at up to the next call.
    assert_eq!(nth_call(&object, &b.data, addr, 2), Ok(0x2000));
    assert_eq!(nth_call(&object, &b.data, addr, 3), Ok(0x5678));
    assert_eq!(nth_call(&object, &b.data, addr, 4), Err(ReadFailure::Malformed));
    assert_eq!(
        nth_call(&object, &b.data, 0xfff, 1),
        Err(ReadFailure::Error(Il2CppBinaryError::VAddrConv(0xfff)))
    );
    assert_eq!(nth_call(&object, &b.data, 0x1100, 1), Err(ReadFailure::Malformed));
}

#[test]
fn calls_are_looked_for_up_to_a_limit() {
    let mut b = Builder::new(0x1000, Vec::new());
    let mut text = X86Code::at(0x1000);
    text.raw(&vec![0x90; 4095]).call(0x1234).call(0x5678);
    let addr = b.bytes(&text.bytes);
    assert_eq!(nth_call(&b.object(), &b.data, addr, 1), Ok(0x1234));
    assert_eq!(nth_call(&b.object(), &b.data, addr, 2), Err(ReadFailure::Malformed));
}

#[test]
fn leas_are_counted() {
    let mut b = Builder::new(0x4000, Vec::new());
    let mut text = X86Code::at(0x4000);
    text.lea_rcx(0x1000).raw(&[0x48, 0x8d, 0x43, 0x08]).call(0x7777).lea_rcx(0x9000);
    let addr = b.bytes(&text.bytes);
    let object = b.object();
    assert_eq!(nth_lea(&object, &b.data, addr, 1), Ok(0x1000));
    // The second one is relative to a register, and the call behind it has a number.
    assert_eq!(nth_lea(&object, &b.data, addr, 2), Err(ReadFailure::Malformed));
    assert_eq!(nth_lea(&object, &b.data, addr, 3), Ok(0x9000));
}

#[test]
fn movs_are_counted() {
    let mut b = Builder::new(0x4000, Vec::new());
    let mut text = X86Code::at(0x4000);
    text.raw(&[0xb8, 0x2a, 0, 0, 0]).mov_rax(0x4100).raw(&[0xc3]);
    let addr = b.bytes(&text.bytes);
    let object = b.object();
    assert_eq!(nth_mov(&object, &b.data, addr, 1), Ok(42));
    assert_eq!(nth_mov(&object, &b.data, addr, 2), Ok(0x4100));
}

/// The bytes of a PE file with one section, which starts at file offset `PE_HEADER`.
fn pe_file(base: u64, body: &[u8], init: u64) -> Vec<u8> {
    let rva = |addr: u64| (addr - base) as u32;
    let mut b = Builder { data: body.to_vec(), base: base + 0x1000, start: PE_HEADER };
    let exports = b.place(40);
    let name = b.bytes(b"GameAssembly.dll\0");
    let symbol = b.bytes(b"il2cpp_init\0");
    let names = b.words32(&[rva(symbol)]);
    let functions = b.words32(&[rva(init)]);
    let ordinals = b.bytes(&[0, 0]);
    let fields = [0, 0, 0, rva(name), 1, 1, 1, rva(functions), rva(names), rva(ordinals)];
    for (i, field) in fields.iter().enumerate() {
        b.put32(exports + 4 * i as u64, *field);
    }
    let len = (b.data.len() - PE_HEADER) as u32;
    let mut header = vec![0; PE_HEADER];
    let mut put = |at: usize, bytes: &[u8]| header[at..at + bytes.len()].copy_from_slice(bytes);
    put(0, b"MZ");
    put(0x3c, &0x40u32.to_le_bytes());
    put(0x40, b"PE\0\0");
    put(0x44, &0x8664u16.to_le_bytes());
    put(0x46, &1u16.to_le_bytes());
    put(0x54, &240u16.to_le_bytes());
    put(0x56, &0x2022u16.to_le_bytes());
    put(0x58, &0x20bu16.to_le_bytes());
    put(0x58 + 24, &base.to_le_bytes());
    put(0x58 + 32, &0x1000u32.to_le_bytes());
    put(0x58 + 36, &0x200u32.to_le_bytes());
    put(0x58 + 56, &0x10_0000u32.to_le_bytes());
    put(0x58 + 60, &(PE_HEADER as u32).to_le_bytes());
    put(0x58 + 108, &16u32.to_le_bytes());
    put(0x58 + 112, &rva(exports).to_le_bytes());
    put(0x58 + 116, &(len - (rva(exports) - 0x1000)).to_le_bytes());
    put(0x148, b".text\0\0\0");
    put(0x150, &len.to_le_bytes());
    put(0x154, &0x1000u32.to_le_bytes());
    put(0x158, &len.to_le_bytes());
    put(0x15c, &(PE_HEADER as u32).to_le_bytes());
    b.data[..PE_HEADER].copy_from_slice(&header);
    b.data
}

const PE_HEADER: usize = 0x200;

#[test]
fn pe_bytes_parse() {
    let base = 0x1_8000_0000;
    let file = pe_file(base, &vec![0; PE_HEADER + 0x40], base + 0x1020);
    let object = ObjectFile::parse(&file).unwrap();
    assert_eq!(
        object.segments,
        vec![Segment {
            address: base + 0x1000,
            size: (file.len() - PE_HEADER) as u64,
            file_offset: PE_HEADER as u64,
        }]
    );
    assert_eq!(object.bss, None);
    assert_eq!(object.dynamic_relocations, None);
    let exports: Vec<(Vec<u8>, u64)> =
        object.exports.unwrap().into_iter().map(|e| (e.name, e.address)).collect();
    assert_eq!(exports, vec![(b"il2cpp_init".to_vec(), base + 0x1020)]);
}

#[test]
fn pe_bytes_read() {
    let base = 0x1_8000_0000;
    let mut b = Builder::new(base + 0x1000, vec![0; PE_HEADER]);
    let init = add_pe_code(&mut b);
    let file = pe_file(base, &b.data, init);
    let metadata = RuntimeMetadata::try_read_pe(&file, &global_metadata()).unwrap();
    check_code(&metadata.code_registration);
    check_metadata(&metadata.metadata_registration);
    check_no_layout(&metadata.metadata_registration);
    let again = RuntimeMetadata::read_pe(&file, &global_metadata()).unwrap();
    check_code(&again.code_registration);
    check_metadata(&again.metadata_registration);
    check_no_layout(&again.metadata_registration);
}
