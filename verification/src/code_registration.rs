//! The code registration, which lists the compiled code of a program.

use vstd::prelude::*;

use crate::bytes;
use crate::errors::{Il2CppBinaryError, ReadFailure};
use crate::object_file;
use crate::object_file::ObjectFile;
use crate::reader;
use crate::reader::{read_arr, read_len_arr, read_len_arr_nullable, Image, ObjectReader};
use crate::type_tables;
use crate::types::{Il2CppRGCTXDefinition, Il2CppTokenAdjustorThunkPair, Il2CppTokenRangePair};

verus! {

/// Defined at `il2cpp-class-internals:582`
#[derive(Debug)]
pub struct Il2CppCodeGenModule {
    /// Module names have `.dll` at the end
    pub name: String,
    pub method_pointers: Vec<u64>,
    pub adjustor_thunks: Vec<Il2CppTokenAdjustorThunkPair>,
    pub invoker_indices: Vec<u32>,
    pub rgctx_ranges: Vec<Il2CppTokenRangePair>,
    pub rgctxs: Vec<Il2CppRGCTXDefinition>,
}

/// The mathematical value of an [`Il2CppCodeGenModule`].
#[verifier::ext_equal]
pub struct CodeGenModuleView {
    pub name: Seq<char>,
    pub method_pointers: Seq<u64>,
    pub adjustor_thunks: Seq<Il2CppTokenAdjustorThunkPair>,
    pub invoker_indices: Seq<u32>,
    pub rgctx_ranges: Seq<Il2CppTokenRangePair>,
    pub rgctxs: Seq<Il2CppRGCTXDefinition>,
}

impl View for Il2CppCodeGenModule {
    type V = CodeGenModuleView;

    open spec fn view(&self) -> CodeGenModuleView {
        CodeGenModuleView {
            name: self.name@,
            method_pointers: self.method_pointers@,
            adjustor_thunks: self.adjustor_thunks@,
            invoker_indices: self.invoker_indices@,
            rgctx_ranges: self.rgctx_ranges@,
            rgctxs: self.rgctxs@,
        }
    }
}

/// Defined at `il2cpp-class-internals:603`
#[derive(Debug)]
pub struct Il2CppCodeRegistration {
    pub reverse_pinvoke_wrappers: Vec<u64>,
    pub generic_method_pointers: Vec<u64>,
    pub generic_adjustor_thunks: Vec<u64>,
    pub invoker_pointers: Vec<u64>,
    pub unresolved_indirect_call_pointers: Vec<u64>,
    pub code_gen_modules: Vec<Il2CppCodeGenModule>,
}

/// The mathematical value of an [`Il2CppCodeRegistration`].
#[verifier::ext_equal]
pub struct CodeRegistrationView {
    pub reverse_pinvoke_wrappers: Seq<u64>,
    pub generic_method_pointers: Seq<u64>,
    pub generic_adjustor_thunks: Seq<u64>,
    pub invoker_pointers: Seq<u64>,
    pub unresolved_indirect_call_pointers: Seq<u64>,
    pub code_gen_modules: Seq<CodeGenModuleView>,
}

/// The values of a list of modules.
pub open spec fn module_views(modules: Seq<Il2CppCodeGenModule>) -> Seq<CodeGenModuleView> {
    modules.map_values(|m: Il2CppCodeGenModule| m@)
}

impl View for Il2CppCodeRegistration {
    type V = CodeRegistrationView;

    open spec fn view(&self) -> CodeRegistrationView {
        CodeRegistrationView {
            reverse_pinvoke_wrappers: self.reverse_pinvoke_wrappers@,
            generic_method_pointers: self.generic_method_pointers@,
            generic_adjustor_thunks: self.generic_adjustor_thunks@,
            invoker_pointers: self.invoker_pointers@,
            unresolved_indirect_call_pointers: self.unresolved_indirect_call_pointers@,
            code_gen_modules: module_views(self.code_gen_modules@),
        }
    }
}

/// The module at `vaddr`. Behind the address of its name stand its method pointers and adjustor
/// thunks, the address of one invoker index per method pointer, sixteen bytes that are not
/// looked at, and its runtime generic contexts.
pub open spec fn module_at(img: Image, vaddr: u64) -> Result<CodeGenModuleView, ReadFailure> {
    match object_file::locate(img.segments, vaddr) {
        Err(e) => Err(e),
        Ok(start) => {
            let pos = start as int;
            if !bytes::fits(img.data, pos, 8) {
                Err(reader::io_failure())
            } else {
                match reader::string_at(img, bytes::u64_at(img.data, pos)) {
                    Err(e) => Err(e),
                    Ok(name) => match reader::nullable_array(img, pos + 8) {
                        Err(e) => Err(e),
                        Ok(method_pointers) => module_tail_at(img, pos, name, method_pointers),
                    },
                }
            }
        },
    }
}

/// What stands behind the method pointers of the module at offset `pos`.
pub open spec fn module_tail_at(
    img: Image,
    pos: int,
    name: Seq<char>,
    method_pointers: Seq<u64>,
) -> Result<CodeGenModuleView, ReadFailure> {
    match reader::counted_array::<Il2CppTokenAdjustorThunkPair>(img, pos + 24) {
        Err(e) => Err(e),
        Ok(adjustor_thunks) => if !bytes::fits(img.data, pos + 40, 8) {
            Err(reader::io_failure())
        } else {
            match reader::array_at::<u32>(
                img,
                bytes::u64_at(img.data, pos + 40),
                method_pointers.len(),
            ) {
                Err(e) => Err(e),
                Ok(invoker_indices) => if !bytes::fits(img.data, pos + 48, 16) {
                    Err(reader::io_failure())
                } else {
                    match reader::counted_array::<Il2CppTokenRangePair>(img, pos + 64) {
                        Err(e) => Err(e),
                        Ok(rgctx_ranges) => match reader::counted_array::<Il2CppRGCTXDefinition>(
                            img,
                            pos + 80,
                        ) {
                            Err(e) => Err(e),
                            Ok(rgctxs) => Ok(
                                CodeGenModuleView {
                                    name,
                                    method_pointers,
                                    adjustor_thunks,
                                    invoker_indices,
                                    rgctx_ranges,
                                    rgctxs,
                                },
                            ),
                        },
                    }
                },
            }
        },
    }
}

/// A module has one invoker index per method pointer.
pub proof fn law_module_invokers(img: Image, vaddr: u64)
    requires
        module_at(img, vaddr) is Ok,
    ensures
        module_at(img, vaddr).unwrap().invoker_indices.len() == module_at(
            img,
            vaddr,
        ).unwrap().method_pointers.len(),
{
    let pos = object_file::locate(img.segments, vaddr).unwrap() as int;
    let module = module_at(img, vaddr).unwrap();
    reader::law_array_length::<u32>(
        img,
        bytes::u64_at(img.data, pos + 40),
        module.method_pointers.len(),
    );
}

/// How the module at each listed address reads.
pub open spec fn module_reads(img: Image, addrs: Seq<u64>) -> spec_fn(int) -> Result<
    CodeGenModuleView,
    ReadFailure,
> {
    |i: int| module_at(img, addrs[i])
}

/// The code registration at `vaddr`.
pub open spec fn code_registration_at(img: Image, vaddr: u64) -> Result<
    CodeRegistrationView,
    ReadFailure,
> {
    match object_file::locate(img.segments, vaddr) {
        Err(e) => Err(e),
        Ok(start) => {
            let pos = start as int;
            match reader::counted_array::<u64>(img, pos) {
                Err(e) => Err(e),
                Ok(reverse_pinvoke_wrappers) => match reader::counted_array::<u64>(img, pos + 16) {
                    Err(e) => Err(e),
                    Ok(generic_method_pointers) => if !bytes::fits(img.data, pos + 32, 8) {
                        Err(reader::io_failure())
                    } else {
                        match reader::array_at::<u64>(
                            img,
                            bytes::u64_at(img.data, pos + 32),
                            generic_method_pointers.len(),
                        ) {
                            Err(e) => Err(e),
                            Ok(generic_adjustor_thunks) => code_registration_tail_at(
                                img,
                                pos,
                                reverse_pinvoke_wrappers,
                                generic_method_pointers,
                                generic_adjustor_thunks,
                            ),
                        }
                    },
                },
            }
        },
    }
}

/// A code registration has one adjustor thunk per generic method pointer, and each of its
/// modules one invoker index per method pointer.
pub proof fn law_code_registration_lengths(img: Image, vaddr: u64)
    requires
        code_registration_at(img, vaddr) is Ok,
    ensures
        ({
            let reg = code_registration_at(img, vaddr).unwrap();
            &&& reg.generic_adjustor_thunks.len() == reg.generic_method_pointers.len()
            &&& forall|i: int|
                0 <= i < reg.code_gen_modules.len() ==> (
                #[trigger] reg.code_gen_modules[i]).invoker_indices.len()
                    == reg.code_gen_modules[i].method_pointers.len()
        }),
{
    let pos = object_file::locate(img.segments, vaddr).unwrap() as int;
    let reg = code_registration_at(img, vaddr).unwrap();
    reader::law_array_length::<u64>(
        img,
        bytes::u64_at(img.data, pos + 32),
        reg.generic_method_pointers.len(),
    );
    let addrs = reader::counted_array::<u64>(img, pos + 120).unwrap();
    let f = module_reads(img, addrs);
    type_tables::lemma_collect_items(addrs.len(), f);
    assert forall|i: int| 0 <= i < reg.code_gen_modules.len() implies (
    #[trigger] reg.code_gen_modules[i]).invoker_indices.len()
        == reg.code_gen_modules[i].method_pointers.len() by {
        assert(f(i) == Ok::<CodeGenModuleView, ReadFailure>(reg.code_gen_modules[i]));
        law_module_invokers(img, addrs[i]);
    }
}

/// What stands behind the generic methods of the code registration at offset `pos`: invokers,
/// unresolved calls and two addresses that are not followed, interop data and runtime factories
/// that are read but not kept, and the addresses of the modules.
pub open spec fn code_registration_tail_at(
    img: Image,
    pos: int,
    reverse_pinvoke_wrappers: Seq<u64>,
    generic_method_pointers: Seq<u64>,
    generic_adjustor_thunks: Seq<u64>,
) -> Result<CodeRegistrationView, ReadFailure> {
    match reader::counted_array::<u64>(img, pos + 40) {
        Err(e) => Err(e),
        Ok(invoker_pointers) => match reader::counted_array::<u64>(img, pos + 56) {
            Err(e) => Err(e),
            Ok(unresolved) => if !bytes::fits(img.data, pos + 72, 16) {
                Err(reader::io_failure())
            } else {
                match reader::counted_array::<u64>(img, pos + 88) {
                    Err(e) => Err(e),
                    Ok(_) => match reader::counted_array::<u64>(img, pos + 104) {
                        Err(e) => Err(e),
                        Ok(_) => match reader::counted_array::<u64>(img, pos + 120) {
                            Err(e) => Err(e),
                            Ok(addrs) => match type_tables::collect(
                                addrs.len(),
                                module_reads(img, addrs),
                            ) {
                                Err(e) => Err(e),
                                Ok(code_gen_modules) => Ok(
                                    CodeRegistrationView {
                                        reverse_pinvoke_wrappers,
                                        generic_method_pointers,
                                        generic_adjustor_thunks,
                                        invoker_pointers,
                                        unresolved_indirect_call_pointers: unresolved,
                                        code_gen_modules,
                                    },
                                ),
                            },
                        },
                    },
                }
            },
        },
    }
}

impl Il2CppCodeGenModule {
    /// Reads the module at virtual address `vaddr`.
    pub fn read(reader: &ObjectReader, vaddr: u64) -> (r: Result<Self, ReadFailure>)
        ensures
            match r {
                Ok(module) => module_at(reader@, vaddr) == Ok::<CodeGenModuleView, ReadFailure>(
                    module@,
                ),
                Err(e) => module_at(reader@, vaddr) == Err::<CodeGenModuleView, ReadFailure>(e),
            },
    {
        let mut cur = match reader.make_cur(vaddr) {
            Ok(cur) => cur,
            Err(e) => return Err(e),
        };
        let name_addr: u64 = match cur.read_u64() {
            Ok(addr) => addr,
            Err(e) => return Err(ReadFailure::Error(e)),
        };
        let name: String = match reader.get_str(name_addr) {
            Ok(name) => name.to_owned(),
            Err(e) => return Err(e),
        };
        let method_pointers: Vec<u64> = match read_len_arr_nullable(reader, &mut cur) {
            Ok(list) => list,
            Err(e) => return Err(e),
        };
        let adjustor_thunks = match read_len_arr(reader, &mut cur) {
            Ok(list) => list,
            Err(e) => return Err(e),
        };
        let addr: u64 = match cur.read_u64() {
            Ok(addr) => addr,
            Err(e) => return Err(ReadFailure::Error(e)),
        };
        let invoker_indices: Vec<u32> = match read_arr(reader, addr, method_pointers.len()) {
            Ok(list) => list,
            Err(e) => return Err(e),
        };
        match cur.skip_u128() {
            Ok(_) => {},
            Err(e) => return Err(ReadFailure::Error(e)),
        }
        let rgctx_ranges = match read_len_arr(reader, &mut cur) {
            Ok(list) => list,
            Err(e) => return Err(e),
        };
        let rgctxs = match read_len_arr(reader, &mut cur) {
            Ok(list) => list,
            Err(e) => return Err(e),
        };
        Ok(
            Il2CppCodeGenModule {
                name,
                method_pointers,
                adjustor_thunks,
                invoker_indices,
                rgctx_ranges,
                rgctxs,
            },
        )
    }
}

/// Reads the modules at the listed addresses.
fn read_modules(reader: &ObjectReader, addrs: &Vec<u64>) -> (r: Result<
    Vec<Il2CppCodeGenModule>,
    ReadFailure,
>)
    ensures
        match r {
            Ok(list) => type_tables::collect(addrs@.len(), module_reads(reader@, addrs@)) == Ok::<
                Seq<CodeGenModuleView>,
                ReadFailure,
            >(module_views(list@)),
            Err(e) => type_tables::collect(addrs@.len(), module_reads(reader@, addrs@)) == Err::<
                Seq<CodeGenModuleView>,
                ReadFailure,
            >(e),
        },
{
    let ghost f = module_reads(reader@, addrs@);
    let mut list: Vec<Il2CppCodeGenModule> = Vec::with_capacity(addrs.len());
    let mut i: usize = 0;
    assert(module_views(list@) =~= Seq::empty());
    while i < addrs.len()
        invariant
            i <= addrs@.len(),
            f == module_reads(reader@, addrs@),
            type_tables::collect(i as nat, f) == Ok::<Seq<CodeGenModuleView>, ReadFailure>(
                module_views(list@),
            ),
        decreases addrs@.len() - i,
    {
        match Il2CppCodeGenModule::read(reader, addrs[i]) {
            Ok(module) => {
                let ghost known = module_views(list@);
                list.push(module);
                assert(module_views(list@) =~= known.push(module@));
            },
            Err(e) => {
                proof {
                    type_tables::lemma_collect_stop((i + 1) as nat, addrs@.len(), f);
                }
                return Err(e);
            },
        }
        i += 1;
    }
    Ok(list)
}

impl Il2CppCodeRegistration {
    /// Reads the code registration at virtual address `addr`.
    pub fn read(object: &ObjectFile, data: &[u8], addr: u64) -> (r: Result<Self, ReadFailure>)
        ensures
            ({
                let img = Image { segments: object.segments@, bss: object.bss, data: data@ };
                match r {
                    Ok(registration) => code_registration_at(img, addr) == Ok::<
                        CodeRegistrationView,
                        ReadFailure,
                    >(registration@),
                    Err(e) => code_registration_at(img, addr) == Err::<
                        CodeRegistrationView,
                        ReadFailure,
                    >(e),
                }
            }),
    {
        let reader = ObjectReader::new(object, data);
        let mut cur = match reader.make_cur(addr) {
            Ok(cur) => cur,
            Err(e) => return Err(e),
        };
        let reverse_pinvoke_wrappers: Vec<u64> = match read_len_arr(&reader, &mut cur) {
            Ok(list) => list,
            Err(e) => return Err(e),
        };
        let generic_method_pointers: Vec<u64> = match read_len_arr(&reader, &mut cur) {
            Ok(list) => list,
            Err(e) => return Err(e),
        };
        let thunks_addr: u64 = match cur.read_u64() {
            Ok(addr) => addr,
            Err(e) => return Err(ReadFailure::Error(e)),
        };
        let generic_adjustor_thunks: Vec<u64> = match read_arr(
            &reader,
            thunks_addr,
            generic_method_pointers.len(),
        ) {
            Ok(list) => list,
            Err(e) => return Err(e),
        };
        let invoker_pointers: Vec<u64> = match read_len_arr(&reader, &mut cur) {
            Ok(list) => list,
            Err(e) => return Err(e),
        };
        let unresolved_virtual_call_pointers: Vec<u64> = match read_len_arr(&reader, &mut cur) {
            Ok(list) => list,
            Err(e) => return Err(e),
        };
        // The addresses of the unresolved instance and static calls.
        match cur.read_u64() {
            Ok(_) => {},
            Err(e) => return Err(ReadFailure::Error(e)),
        }
        match cur.read_u64() {
            Ok(_) => {},
            Err(e) => return Err(ReadFailure::Error(e)),
        }
        let interop_data: Result<Vec<u64>, ReadFailure> = read_len_arr(&reader, &mut cur);
        match interop_data {
            Ok(_) => {},
            Err(e) => return Err(e),
        }
        let factory_table: Result<Vec<u64>, ReadFailure> = read_len_arr(&reader, &mut cur);
        match factory_table {
            Ok(_) => {},
            Err(e) => return Err(e),
        }
        let module_addrs: Vec<u64> = match read_len_arr(&reader, &mut cur) {
            Ok(list) => list,
            Err(e) => return Err(e),
        };
        let code_gen_modules = match read_modules(&reader, &module_addrs) {
            Ok(list) => list,
            Err(e) => return Err(e),
        };
        Ok(
            Il2CppCodeRegistration {
                reverse_pinvoke_wrappers,
                generic_method_pointers,
                generic_adjustor_thunks,
                invoker_pointers,
                unresolved_indirect_call_pointers: unresolved_virtual_call_pointers,
                code_gen_modules,
            },
        )
    }
}

// ---------------------------------------------------------------------------------------------
// Where the parts of a registration stand
// ---------------------------------------------------------------------------------------------

/// A module is the address of its name, its method pointers, its adjustor thunks, the address of
/// its invoker indices, of which there is one per method pointer, sixteen bytes that do not
/// matter, the ranges of its runtime generic contexts and those contexts. It can be read exactly
/// if all of these can be.
pub proof fn law_module(img: Image, vaddr: u64, pos: u64, m: CodeGenModuleView)
    requires
        object_file::locate(img.segments, vaddr) == Ok::<u64, ReadFailure>(pos),
    ensures
        module_at(img, vaddr) == Ok::<CodeGenModuleView, ReadFailure>(m) <==> {
            &&& pos + 64 <= img.data.len()
            &&& reader::string_at(img, bytes::u64_at(img.data, pos as int)) == Ok::<
                Seq<char>,
                ReadFailure,
            >(m.name)
            &&& reader::nullable_array(img, pos + 8) == Ok::<Seq<u64>, ReadFailure>(
                m.method_pointers,
            )
            &&& reader::counted_array::<Il2CppTokenAdjustorThunkPair>(img, pos + 24) == Ok::<
                Seq<Il2CppTokenAdjustorThunkPair>,
                ReadFailure,
            >(m.adjustor_thunks)
            &&& reader::array_at::<u32>(
                img,
                bytes::u64_at(img.data, pos + 40),
                m.method_pointers.len(),
            ) == Ok::<Seq<u32>, ReadFailure>(m.invoker_indices)
            &&& reader::counted_array::<Il2CppTokenRangePair>(img, pos + 64) == Ok::<
                Seq<Il2CppTokenRangePair>,
                ReadFailure,
            >(m.rgctx_ranges)
            &&& reader::counted_array::<Il2CppRGCTXDefinition>(img, pos + 80) == Ok::<
                Seq<Il2CppRGCTXDefinition>,
                ReadFailure,
            >(m.rgctxs)
        },
{
}

/// The parts of a module are read one after the other, and the first that fails stops it.
pub proof fn law_module_fails(img: Image, vaddr: u64, pos: u64)
    requires
        object_file::locate(img.segments, vaddr) == Ok::<u64, ReadFailure>(pos),
    ensures
        ({
            let r = module_at(img, vaddr);
            let io = Err::<CodeGenModuleView, ReadFailure>(
                ReadFailure::Error(Il2CppBinaryError::Io),
            );
            let len = img.data.len();
            let a = reader::string_at(img, bytes::u64_at(img.data, pos as int));
            let b = reader::nullable_array(img, pos + 8);
            let c = reader::counted_array::<Il2CppTokenAdjustorThunkPair>(img, pos + 24);
            let d = reader::array_at::<u32>(
                img,
                bytes::u64_at(img.data, pos + 40),
                b.unwrap().len(),
            );
            let e = reader::counted_array::<Il2CppTokenRangePair>(img, pos + 64);
            let f = reader::counted_array::<Il2CppRGCTXDefinition>(img, pos + 80);
            &&& pos + 8 > len ==> r == io
            &&& pos + 8 <= len && a is Err ==> r is Err && r->Err_0 == a->Err_0
            &&& pos + 8 <= len && a is Ok && b is Err ==> r is Err && r->Err_0 == b->Err_0
            &&& pos + 8 <= len && a is Ok && b is Ok && c is Err ==> r is Err && r->Err_0
                == c->Err_0
            &&& pos + 8 <= len && a is Ok && b is Ok && c is Ok && pos + 48 > len ==> r == io
            &&& pos + 48 <= len && a is Ok && b is Ok && c is Ok && d is Err ==> r is Err
                && r->Err_0 == d->Err_0
            &&& pos + 48 <= len < pos + 64 && a is Ok && b is Ok && c is Ok && d is Ok ==> r == io
            &&& pos + 64 <= len && a is Ok && b is Ok && c is Ok && d is Ok && e is Err ==> r is Err
                && r->Err_0 == e->Err_0
            &&& pos + 64 <= len && a is Ok && b is Ok && c is Ok && d is Ok && e is Ok && f is Err
                ==> r is Err && r->Err_0 == f->Err_0
        }),
{
}

/// A code registration is its reverse P/Invoke wrappers, its generic method pointers, the address
/// of one adjustor thunk per generic method pointer, its invokers and its unresolved calls, two
/// words that do not matter, two arrays that are read and not kept, and the addresses of its
/// modules. The modules are those at these addresses, in their order. It can be read exactly if
/// all of these can be.
pub proof fn law_code_registration(
    img: Image,
    vaddr: u64,
    pos: u64,
    addrs: Seq<u64>,
    reg: CodeRegistrationView,
)
    requires
        object_file::locate(img.segments, vaddr) == Ok::<u64, ReadFailure>(pos),
        reader::counted_array::<u64>(img, pos + 120) == Ok::<Seq<u64>, ReadFailure>(addrs),
    ensures
        code_registration_at(img, vaddr) == Ok::<CodeRegistrationView, ReadFailure>(reg) <==> {
            &&& reader::counted_array::<u64>(img, pos as int) == Ok::<Seq<u64>, ReadFailure>(
                reg.reverse_pinvoke_wrappers,
            )
            &&& reader::counted_array::<u64>(img, pos + 16) == Ok::<Seq<u64>, ReadFailure>(
                reg.generic_method_pointers,
            )
            &&& pos + 88 <= img.data.len()
            &&& reader::array_at::<u64>(
                img,
                bytes::u64_at(img.data, pos + 32),
                reg.generic_method_pointers.len(),
            ) == Ok::<Seq<u64>, ReadFailure>(reg.generic_adjustor_thunks)
            &&& reader::counted_array::<u64>(img, pos + 40) == Ok::<Seq<u64>, ReadFailure>(
                reg.invoker_pointers,
            )
            &&& reader::counted_array::<u64>(img, pos + 56) == Ok::<Seq<u64>, ReadFailure>(
                reg.unresolved_indirect_call_pointers,
            )
            &&& reader::counted_array::<u64>(img, pos + 88) is Ok
            &&& reader::counted_array::<u64>(img, pos + 104) is Ok
            &&& reg.code_gen_modules.len() == addrs.len()
            &&& forall|i: int|
                0 <= i < addrs.len() ==> module_at(img, addrs[i]) == Ok::<
                    CodeGenModuleView,
                    ReadFailure,
                >(#[trigger] reg.code_gen_modules[i])
        },
{
    let f = module_reads(img, addrs);
    type_tables::law_collect(addrs.len(), f);
    if type_tables::collect(addrs.len(), f) is Ok {
        let list = type_tables::collect(addrs.len(), f).unwrap();
        assert forall|i: int| 0 <= i < addrs.len() implies module_at(img, addrs[i]) == Ok::<
            CodeGenModuleView,
            ReadFailure,
        >(#[trigger] list[i]) by {
            assert(f(i) == Ok::<CodeGenModuleView, ReadFailure>(list[i]));
        }
        if reg.code_gen_modules.len() == addrs.len() && forall|i: int|
            0 <= i < addrs.len() ==> module_at(img, addrs[i]) == Ok::<
                CodeGenModuleView,
                ReadFailure,
            >(#[trigger] reg.code_gen_modules[i]) {
            assert(reg.code_gen_modules =~= list) by {
                assert forall|i: int| 0 <= i < list.len() implies reg.code_gen_modules[i]
                    == list[i] by {
                    assert(module_at(img, addrs[i]) == Ok::<CodeGenModuleView, ReadFailure>(
                        reg.code_gen_modules[i],
                    ));
                    assert(module_at(img, addrs[i]) == Ok::<CodeGenModuleView, ReadFailure>(
                        list[i],
                    ));
                }
            }
        }
    } else if reg.code_gen_modules.len() == addrs.len() && forall|i: int|
        0 <= i < addrs.len() ==> module_at(img, addrs[i]) == Ok::<CodeGenModuleView, ReadFailure>(
            #[trigger] reg.code_gen_modules[i],
        ) {
        assert forall|i: int| 0 <= i < addrs.len() implies (#[trigger] f(i)) is Ok by {
            assert(module_at(img, addrs[i]) == Ok::<CodeGenModuleView, ReadFailure>(
                reg.code_gen_modules[i],
            ));
        }
    }
}

/// The parts of a code registration are read one after the other, and the first that fails stops
/// it.
pub proof fn law_code_registration_fails(img: Image, vaddr: u64, pos: u64)
    requires
        object_file::locate(img.segments, vaddr) == Ok::<u64, ReadFailure>(pos),
    ensures
        ({
            let r = code_registration_at(img, vaddr);
            let io = Err::<CodeRegistrationView, ReadFailure>(
                ReadFailure::Error(Il2CppBinaryError::Io),
            );
            let len = img.data.len();
            let a = reader::counted_array::<u64>(img, pos as int);
            let b = reader::counted_array::<u64>(img, pos + 16);
            let c = reader::array_at::<u64>(
                img,
                bytes::u64_at(img.data, pos + 32),
                b.unwrap().len(),
            );
            let d = reader::counted_array::<u64>(img, pos + 40);
            let e = reader::counted_array::<u64>(img, pos + 56);
            let f = reader::counted_array::<u64>(img, pos + 88);
            let g = reader::counted_array::<u64>(img, pos + 104);
            let h = reader::counted_array::<u64>(img, pos + 120);
            &&& a is Err ==> r is Err && r->Err_0 == a->Err_0
            &&& a is Ok && b is Err ==> r is Err && r->Err_0 == b->Err_0
            &&& a is Ok && b is Ok && pos + 40 > len ==> r == io
            &&& a is Ok && b is Ok && pos + 40 <= len && c is Err ==> r is Err && r->Err_0
                == c->Err_0
            &&& a is Ok && b is Ok && pos + 40 <= len && c is Ok && d is Err ==> r is Err
                && r->Err_0 == d->Err_0
            &&& a is Ok && b is Ok && pos + 40 <= len && c is Ok && d is Ok && e is Err ==> r is Err
                && r->Err_0 == e->Err_0
            &&& a is Ok && b is Ok && pos + 40 <= len < pos + 88 && c is Ok && d is Ok && e is Ok
                ==> r == io
            &&& a is Ok && b is Ok && pos + 88 <= len && c is Ok && d is Ok && e is Ok && f is Err
                ==> r is Err && r->Err_0 == f->Err_0
            &&& a is Ok && b is Ok && pos + 88 <= len && c is Ok && d is Ok && e is Ok && f is Ok
                && g is Err ==> r is Err && r->Err_0 == g->Err_0
            &&& a is Ok && b is Ok && pos + 88 <= len && c is Ok && d is Ok && e is Ok && f is Ok
                && g is Ok && h is Err ==> r is Err && r->Err_0 == h->Err_0
        }),
{
}

/// A code registration whose other parts can be read fails with the first of its modules that
/// cannot be.
pub proof fn law_code_registration_fails_with_its_module(
    img: Image,
    vaddr: u64,
    pos: u64,
    addrs: Seq<u64>,
    k: int,
)
    requires
        object_file::locate(img.segments, vaddr) == Ok::<u64, ReadFailure>(pos),
        reader::counted_array::<u64>(img, pos as int) is Ok,
        reader::counted_array::<u64>(img, pos + 16) is Ok,
        pos + 88 <= img.data.len(),
        reader::array_at::<u64>(
            img,
            bytes::u64_at(img.data, pos + 32),
            reader::counted_array::<u64>(img, pos + 16).unwrap().len(),
        ) is Ok,
        reader::counted_array::<u64>(img, pos + 40) is Ok,
        reader::counted_array::<u64>(img, pos + 56) is Ok,
        reader::counted_array::<u64>(img, pos + 88) is Ok,
        reader::counted_array::<u64>(img, pos + 104) is Ok,
        reader::counted_array::<u64>(img, pos + 120) == Ok::<Seq<u64>, ReadFailure>(addrs),
        0 <= k < addrs.len(),
        module_at(img, addrs[k]) is Err,
        forall|i: int| 0 <= i < k ==> module_at(img, #[trigger] addrs[i]) is Ok,
    ensures
        code_registration_at(img, vaddr) is Err,
        code_registration_at(img, vaddr)->Err_0 == module_at(img, addrs[k])->Err_0,
{
    let f = module_reads(img, addrs);
    assert forall|i: int| 0 <= i < k implies (#[trigger] f(i)) is Ok by {
        assert(module_at(img, addrs[i]) is Ok);
    }
    type_tables::law_collect_fails(addrs.len(), k, f);
}

/// What stops an address from being located stops a module and a code registration there.
pub proof fn law_unlocated(img: Image, vaddr: u64)
    requires
        object_file::locate(img.segments, vaddr) is Err,
    ensures
        module_at(img, vaddr) is Err,
        module_at(img, vaddr)->Err_0 == object_file::locate(img.segments, vaddr)->Err_0,
        code_registration_at(img, vaddr) is Err,
        code_registration_at(img, vaddr)->Err_0 == object_file::locate(
            img.segments,
            vaddr,
        )->Err_0,
{
}

/// The values of a code registration and of its modules are their fields.
pub proof fn law_registration_view(reg: Il2CppCodeRegistration)
    ensures
        reg@.reverse_pinvoke_wrappers == reg.reverse_pinvoke_wrappers@,
        reg@.generic_method_pointers == reg.generic_method_pointers@,
        reg@.generic_adjustor_thunks == reg.generic_adjustor_thunks@,
        reg@.invoker_pointers == reg.invoker_pointers@,
        reg@.unresolved_indirect_call_pointers == reg.unresolved_indirect_call_pointers@,
        reg@.code_gen_modules.len() == reg.code_gen_modules@.len(),
        forall|i: int|
            0 <= i < reg.code_gen_modules@.len() ==> {
                &&& (#[trigger] reg@.code_gen_modules[i]).name == reg.code_gen_modules@[i].name@
                &&& reg@.code_gen_modules[i].method_pointers
                    == reg.code_gen_modules@[i].method_pointers@
                &&& reg@.code_gen_modules[i].adjustor_thunks
                    == reg.code_gen_modules@[i].adjustor_thunks@
                &&& reg@.code_gen_modules[i].invoker_indices
                    == reg.code_gen_modules@[i].invoker_indices@
                &&& reg@.code_gen_modules[i].rgctx_ranges == reg.code_gen_modules@[i].rgctx_ranges@
                &&& reg@.code_gen_modules[i].rgctxs == reg.code_gen_modules@[i].rgctxs@
            },
{
}

} // verus!
