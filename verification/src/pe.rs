//! Runtime metadata of PE files.
//!
//! IL2CPP programs that are built for Windows keep their code in a library named
//! `GameAssembly.dll`. The two registrations are found by way of the code: the second call in
//! `il2cpp_init` goes to the initialisation of the runtime, the fifteenth call there goes
//! through a pointer to the function that registers the metadata, and that function takes the
//! address of the metadata registration with its second `lea` instruction and that of the code
//! registration with its third.

use vstd::prelude::*;

use crate::bytes;
use crate::bytes::read_u64_at;
use crate::disassembler;
use crate::disassembler::{disassemble, disassemble_prefix};
use crate::errors::{Il2CppBinaryError, ReadFailure};
use crate::global_metadata::GlobalMetadata;
use crate::metadata_registration;
use crate::metadata_registration::MetadataRegistrationView;
use crate::object_file;
use crate::object_file::{try_vaddr_conv, ExportView, ObjectFile, ObjectFileView, Segment};
use crate::reader::{utf8_str, Image};
use crate::runtime_metadata;
use crate::runtime_metadata::{RuntimeMetadata, RuntimeMetadataView};
use crate::x86;
use crate::x86::{find_nth_reference, X86Insn, X86InsnView};

verus! {

/// Which call of `il2cpp_init` goes to the runtime's initialisation.
pub const RUNTIME_INIT_CALL: usize = 2;

/// Which call of the runtime's initialisation goes to the function that registers the metadata.
pub const REGISTER_CALL: usize = 15;

/// Which `lea` instruction takes the address of the metadata registration.
pub const METADATA_LEA: usize = 2;

/// Which `lea` instruction takes the address of the code registration.
pub const CODE_LEA: usize = 3;

/// How many instructions are disassembled in search of a call.
pub const CALL_LIMIT: usize = 4096;

/// The code at `addr`: everything in the file from there on.
pub open spec fn code_from(segments: Seq<Segment>, data: Seq<u8>, addr: u64) -> Result<
    Seq<u8>,
    ReadFailure,
> {
    match object_file::locate(segments, addr) {
        Ok(offset) => if offset <= data.len() {
            Ok(data.skip(offset as int))
        } else {
            Err(ReadFailure::Malformed)
        },
        Err(e) => Err(e),
    }
}

/// What the n-th instruction with this mnemonic refers to, if there were any instructions.
pub open spec fn nth_target(
    insns: Option<Seq<X86InsnView>>,
    mnemonic: Seq<char>,
    n: nat,
    immediate: bool,
) -> Result<u64, ReadFailure> {
    match insns {
        Some(insns) => match x86::nth_reference(insns, mnemonic, n, immediate) {
            Some(address) => Ok(address),
            None => Err(ReadFailure::Malformed),
        },
        None => Err(ReadFailure::Malformed),
    }
}

/// What the n-th `lea` instruction from `addr` on refers to.
pub open spec fn lea_target(segments: Seq<Segment>, data: Seq<u8>, addr: u64, n: nat) -> Result<
    u64,
    ReadFailure,
> {
    match code_from(segments, data, addr) {
        Ok(code) => nth_target(disassembler::disassembly(code, addr), "lea"@, n, false),
        Err(e) => Err(e),
    }
}

/// Where the n-th `call` instruction from `addr` on goes, or the pointer that it goes through.
pub open spec fn call_target(segments: Seq<Segment>, data: Seq<u8>, addr: u64, n: nat) -> Result<
    u64,
    ReadFailure,
> {
    match code_from(segments, data, addr) {
        Ok(code) => nth_target(
            disassembler::disassembly_prefix(code, addr, CALL_LIMIT),
            "call"@,
            n,
            true,
        ),
        Err(e) => Err(e),
    }
}

/// What the n-th `mov` instruction from `addr` on refers to.
pub open spec fn mov_target(segments: Seq<Segment>, data: Seq<u8>, addr: u64, n: nat) -> Result<
    u64,
    ReadFailure,
> {
    match code_from(segments, data, addr) {
        Ok(code) => nth_target(disassembler::disassembly(code, addr), "mov"@, n, true),
        Err(e) => Err(e),
    }
}

/// Whether an export is named `il2cpp_init`.
pub open spec fn is_init(export: ExportView) -> bool {
    vstd::utf8::valid_utf8(export.name) && vstd::utf8::decode_utf8(export.name) == "il2cpp_init"@
}

/// The address of the first export that is named `il2cpp_init`.
pub open spec fn init_export(exports: Seq<ExportView>) -> Option<u64>
    decreases exports.len(),
{
    if exports.len() == 0 {
        None
    } else if is_init(exports[0]) {
        Some(exports[0].address)
    } else {
        init_export(exports.drop_first())
    }
}

/// The address of `il2cpp_init`.
pub open spec fn init_address(object: ObjectFileView) -> Result<u64, ReadFailure> {
    match object.exports {
        None => Err(ReadFailure::Error(Il2CppBinaryError::Object)),
        Some(exports) => match init_export(exports) {
            Some(addr) => Ok(addr),
            None => Err(ReadFailure::Error(Il2CppBinaryError::MissingIl2CppInit)),
        },
    }
}

/// The address that stands at the address `ptr`.
pub open spec fn pointer_at(segments: Seq<Segment>, data: Seq<u8>, ptr: u64) -> Result<
    u64,
    ReadFailure,
> {
    match object_file::locate(segments, ptr) {
        Ok(offset) => if bytes::fits(data, offset as int, 8) {
            Ok(bytes::u64_at(data, offset as int))
        } else {
            Err(ReadFailure::Malformed)
        },
        Err(e) => Err(e),
    }
}

/// The address of the function that registers the metadata.
pub open spec fn registration_function(object: ObjectFileView, data: Seq<u8>) -> Result<
    u64,
    ReadFailure,
> {
    match init_address(object) {
        Err(e) => Err(e),
        Ok(init) => match call_target(object.segments, data, init, RUNTIME_INIT_CALL as nat) {
            Err(e) => Err(e),
            Ok(runtime_init) => match call_target(
                object.segments,
                data,
                runtime_init,
                REGISTER_CALL as nat,
            ) {
                Err(e) => Err(e),
                Ok(ptr) => pointer_at(object.segments, data, ptr),
            },
        },
    }
}

/// The addresses of the code registration and of the metadata registration.
pub open spec fn registrations(object: ObjectFileView, data: Seq<u8>) -> Result<
    (u64, u64),
    ReadFailure,
> {
    match registration_function(object, data) {
        Err(e) => Err(e),
        Ok(function) => match (
            lea_target(object.segments, data, function, METADATA_LEA as nat),
            lea_target(object.segments, data, function, CODE_LEA as nat),
        ) {
            (Ok(metadata_addr), Ok(code_addr)) => Ok((code_addr, metadata_addr)),
            _ => Err(ReadFailure::Malformed),
        },
    }
}

/// The runtime metadata without the field offsets and sizes of its type definitions.
pub open spec fn without_layout(metadata: RuntimeMetadataView) -> RuntimeMetadataView {
    RuntimeMetadataView {
        metadata_registration: MetadataRegistrationView {
            field_offsets: None,
            type_definition_sizes: None,
            ..metadata.metadata_registration
        },
        ..metadata
    }
}

/// The runtime metadata of a PE file. Field offsets and sizes are not part of it.
pub open spec fn pe_outcome(object: ObjectFileView, data: Seq<u8>, counts: Seq<u16>) -> Result<
    RuntimeMetadataView,
    ReadFailure,
> {
    match registrations(object, data) {
        Err(e) => Err(e),
        Ok((code_addr, metadata_addr)) => match runtime_metadata::runtime_metadata_at(
            Image { segments: object.segments, bss: object.bss, data },
            code_addr,
            metadata_addr,
            counts,
        ) {
            Err(e) => Err(e),
            Ok(metadata) => Ok(without_layout(metadata)),
        },
    }
}

/// The runtime metadata of raw PE data.
pub open spec fn pe_data_outcome(data: Seq<u8>, counts: Seq<u16>) -> Result<
    RuntimeMetadataView,
    ReadFailure,
> {
    if object_file::object_recognized(data) {
        pe_outcome(object_file::object_file(data), data, counts)
    } else {
        Err(ReadFailure::Error(Il2CppBinaryError::Object))
    }
}

/// Field offsets and sizes do not exist when read from a PE file.
pub proof fn law_pe_has_no_layout(object: ObjectFileView, data: Seq<u8>, counts: Seq<u16>)
    requires
        pe_outcome(object, data, counts) is Ok,
    ensures
        pe_outcome(object, data, counts).unwrap().metadata_registration.field_offsets is None,
        pe_outcome(
            object,
            data,
            counts,
        ).unwrap().metadata_registration.type_definition_sizes is None,
{
}

/// The code at an address is everything in the file from there on.
pub proof fn law_code_from(segments: Seq<Segment>, data: Seq<u8>, addr: u64)
    ensures
        match object_file::locate(segments, addr) {
            Err(e) => code_from(segments, data, addr) == Err::<Seq<u8>, ReadFailure>(e),
            Ok(offset) => code_from(segments, data, addr) == if offset <= data.len() {
                Ok::<Seq<u8>, ReadFailure>(data.subrange(offset as int, data.len() as int))
            } else {
                Err::<Seq<u8>, ReadFailure>(ReadFailure::Malformed)
            },
        },
{
}

/// The targets of `lea`, `call` and `mov` instructions are what the n-th of them refers to in the
/// disassembled code, of which a search for calls sees 4096 instructions. A number counts as a
/// target for `call` and `mov` only. Where there is no such target the file is malformed.
pub proof fn law_targets(
    segments: Seq<Segment>,
    data: Seq<u8>,
    addr: u64,
    offset: u64,
    n: nat,
)
    requires
        object_file::locate(segments, addr) == Ok::<u64, ReadFailure>(offset),
        offset <= data.len(),
    ensures
        ({
            let code = data.subrange(offset as int, data.len() as int);
            let all = disassembler::disassembly(code, addr);
            let first = disassembler::disassembly_prefix(code, addr, 4096);
            let malformed = Err::<u64, ReadFailure>(ReadFailure::Malformed);
            &&& all is None ==> lea_target(segments, data, addr, n) == malformed && mov_target(
                segments,
                data,
                addr,
                n,
            ) == malformed
            &&& all matches Some(insns) ==> {
                &&& lea_target(segments, data, addr, n) == match x86::nth_reference(
                    insns,
                    "lea"@,
                    n,
                    false,
                ) {
                    Some(target) => Ok::<u64, ReadFailure>(target),
                    None => malformed,
                }
                &&& mov_target(segments, data, addr, n) == match x86::nth_reference(
                    insns,
                    "mov"@,
                    n,
                    true,
                ) {
                    Some(target) => Ok::<u64, ReadFailure>(target),
                    None => malformed,
                }
            }
            &&& first is None ==> call_target(segments, data, addr, n) == malformed
            &&& first matches Some(insns) ==> call_target(segments, data, addr, n)
                == match x86::nth_reference(insns, "call"@, n, true) {
                Some(target) => Ok::<u64, ReadFailure>(target),
                None => malformed,
            }
        }),
{
    assert(data.skip(offset as int) =~= data.subrange(offset as int, data.len() as int));
}

/// Code that cannot be found has no targets.
pub proof fn law_no_targets(segments: Seq<Segment>, data: Seq<u8>, addr: u64, n: nat)
    requires
        code_from(segments, data, addr) is Err,
    ensures
        ({
            let e = Err::<u64, ReadFailure>(code_from(segments, data, addr)->Err_0);
            &&& lea_target(segments, data, addr, n) == e
            &&& call_target(segments, data, addr, n) == e
            &&& mov_target(segments, data, addr, n) == e
        }),
{
}

/// `il2cpp_init` lies where the first export of that name says.
pub proof fn law_init_export(exports: Seq<ExportView>, k: int)
    requires
        0 <= k < exports.len(),
        vstd::utf8::valid_utf8(exports[k].name),
        vstd::utf8::decode_utf8(exports[k].name) == "il2cpp_init"@,
        forall|j: int|
            0 <= j < k ==> !(vstd::utf8::valid_utf8((#[trigger] exports[j]).name)
                && vstd::utf8::decode_utf8(exports[j].name) == "il2cpp_init"@),
    ensures
        init_export(exports) == Some(exports[k].address),
    decreases k,
{
    if k > 0 {
        assert(!is_init(exports[0]));
        let rest = exports.drop_first();
        assert forall|j: int| 0 <= j < k - 1 implies !(vstd::utf8::valid_utf8(
            (#[trigger] rest[j]).name,
        ) && vstd::utf8::decode_utf8(rest[j].name) == "il2cpp_init"@) by {
            assert(rest[j] == exports[j + 1]);
        }
        law_init_export(rest, k - 1);
    }
}

/// There is no `il2cpp_init` exactly if no export has that name.
pub proof fn law_no_init_export(exports: Seq<ExportView>)
    ensures
        init_export(exports) is None <==> forall|j: int|
            0 <= j < exports.len() ==> !(vstd::utf8::valid_utf8((#[trigger] exports[j]).name)
                && vstd::utf8::decode_utf8(exports[j].name) == "il2cpp_init"@),
    decreases exports.len(),
{
    if exports.len() > 0 {
        let rest = exports.drop_first();
        law_no_init_export(rest);
        if init_export(exports) is None {
            assert forall|j: int| 0 <= j < exports.len() implies !(vstd::utf8::valid_utf8(
                (#[trigger] exports[j]).name,
            ) && vstd::utf8::decode_utf8(exports[j].name) == "il2cpp_init"@) by {
                if j > 0 {
                    assert(rest[j - 1] == exports[j]);
                }
            }
        } else if forall|j: int|
            0 <= j < exports.len() ==> !(vstd::utf8::valid_utf8((#[trigger] exports[j]).name)
                && vstd::utf8::decode_utf8(exports[j].name) == "il2cpp_init"@) {
            assert(!is_init(exports[0]));
            assert forall|j: int| 0 <= j < rest.len() implies !(vstd::utf8::valid_utf8(
                (#[trigger] rest[j]).name,
            ) && vstd::utf8::decode_utf8(rest[j].name) == "il2cpp_init"@) by {
                assert(rest[j] == exports[j + 1]);
            }
        }
    }
}

/// Exports that cannot be read are an error of the object file, and a missing `il2cpp_init` is an
/// error of its own.
pub proof fn law_init_address(object: ObjectFileView)
    ensures
        match object.exports {
            None => init_address(object) == Err::<u64, ReadFailure>(
                ReadFailure::Error(Il2CppBinaryError::Object),
            ),
            Some(exports) => match init_export(exports) {
                None => init_address(object) == Err::<u64, ReadFailure>(
                    ReadFailure::Error(Il2CppBinaryError::MissingIl2CppInit),
                ),
                Some(addr) => init_address(object) == Ok::<u64, ReadFailure>(addr),
            },
        },
{
}

/// A pointer is the 64-bit number that stands where it lies in the file.
pub proof fn law_pointer_at(segments: Seq<Segment>, data: Seq<u8>, ptr: u64)
    ensures
        match object_file::locate(segments, ptr) {
            Err(e) => pointer_at(segments, data, ptr) == Err::<u64, ReadFailure>(e),
            Ok(offset) => pointer_at(segments, data, ptr) == if offset + 8 <= data.len() {
                Ok::<u64, ReadFailure>(bytes::u64_at(data, offset as int))
            } else {
                Err::<u64, ReadFailure>(ReadFailure::Malformed)
            },
        },
{
}

/// The registrations are found by the second call of `il2cpp_init`, the fifteenth call of where
/// that goes, the pointer which that goes through, and the `lea` instructions of where the pointer
/// leads: the third takes the address of the code registration and the second that of the metadata
/// registration.
pub proof fn law_registrations(object: ObjectFileView, data: Seq<u8>)
    ensures
        ({
            let r = registrations(object, data);
            let init = init_address(object);
            let runtime_init = call_target(object.segments, data, init.unwrap(), 2);
            let ptr = call_target(object.segments, data, runtime_init.unwrap(), 15);
            let function = pointer_at(object.segments, data, ptr.unwrap());
            let metadata = lea_target(object.segments, data, function.unwrap(), 2);
            let code = lea_target(object.segments, data, function.unwrap(), 3);
            &&& init is Err ==> r is Err && r->Err_0 == init->Err_0
            &&& init is Ok && runtime_init is Err ==> r is Err && r->Err_0 == runtime_init->Err_0
            &&& init is Ok && runtime_init is Ok && ptr is Err ==> r is Err && r->Err_0
                == ptr->Err_0
            &&& init is Ok && runtime_init is Ok && ptr is Ok && function is Err ==> r is Err
                && r->Err_0 == function->Err_0
            &&& init is Ok && runtime_init is Ok && ptr is Ok && function is Ok && (metadata is Err
                || code is Err) ==> r == Err::<(u64, u64), ReadFailure>(ReadFailure::Malformed)
            &&& init is Ok && runtime_init is Ok && ptr is Ok && function is Ok && metadata is Ok
                && code is Ok ==> r == Ok::<(u64, u64), ReadFailure>(
                (code.unwrap(), metadata.unwrap()),
            )
        }),
{
}

/// The runtime metadata of a PE file is that of its two registrations, the first of which is the
/// code registration, but for the field offsets and sizes.
pub proof fn law_pe_outcome(object: ObjectFileView, data: Seq<u8>, counts: Seq<u16>)
    ensures
        ({
            let r = pe_outcome(object, data, counts);
            match registrations(object, data) {
                Err(e) => r == Err::<RuntimeMetadataView, ReadFailure>(e),
                Ok((code_addr, metadata_addr)) => match runtime_metadata::runtime_metadata_at(
                    Image { segments: object.segments, bss: object.bss, data },
                    code_addr,
                    metadata_addr,
                    counts,
                ) {
                    Err(e) => r == Err::<RuntimeMetadataView, ReadFailure>(e),
                    Ok(full) => r matches Ok(m) && {
                        let a = m.metadata_registration;
                        let b = full.metadata_registration;
                        &&& m.code_registration == full.code_registration
                        &&& a.generic_classes == b.generic_classes
                        &&& a.generic_insts == b.generic_insts
                        &&& a.generic_method_table == b.generic_method_table
                        &&& a.types == b.types
                        &&& a.array_types == b.array_types
                        &&& a.method_specs == b.method_specs
                    },
                },
            }
        }),
{
}

/// Raw data is read as the object file that it holds, and is an error where it holds none.
pub proof fn law_pe_data_outcome(data: Seq<u8>, counts: Seq<u16>)
    ensures
        object_file::object_recognized(data) ==> pe_data_outcome(data, counts) == pe_outcome(
            object_file::object_file(data),
            data,
            counts,
        ),
        !object_file::object_recognized(data) ==> pe_data_outcome(data, counts) == Err::<
            RuntimeMetadataView,
            ReadFailure,
        >(ReadFailure::Error(Il2CppBinaryError::Object)),
{
}

/// The code at `addr`.
fn find_code<'a>(pe: &ObjectFile, data: &'a [u8], addr: u64) -> (r: Result<&'a [u8], ReadFailure>)
    ensures
        match r {
            Ok(code) => code_from(pe.segments@, data@, addr) == Ok::<Seq<u8>, ReadFailure>(code@),
            Err(e) => code_from(pe.segments@, data@, addr) == Err::<Seq<u8>, ReadFailure>(e),
        },
{
    match try_vaddr_conv(pe, addr) {
        Ok(offset) => {
            let len: usize = data.len();
            if offset > len as u64 {
                return Err(ReadFailure::Malformed);
            }
            let code: &'a [u8] = &data[offset as usize..len];
            assert(code@ =~= data@.skip(offset as int));
            Ok(code)
        },
        Err(e) => Err(e),
    }
}

/// What the n-th instruction with this mnemonic refers to, if there were any instructions.
pub fn find_nth_target(
    insns: Option<Vec<X86Insn>>,
    mnemonic: &str,
    n: usize,
    immediate: bool,
) -> (r: Result<u64, ReadFailure>)
    ensures
        r == nth_target(
            match insns {
                Some(insns) => Some(x86::insn_views(insns@)),
                None => None,
            },
            mnemonic@,
            n as nat,
            immediate,
        ),
{
    match insns {
        Some(insns) => match find_nth_reference(&insns, mnemonic, n, immediate) {
            Some(address) => Ok(address),
            None => Err(ReadFailure::Malformed),
        },
        None => Err(ReadFailure::Malformed),
    }
}

/// What the n-th `lea` instruction from `addr` on refers to.
pub fn nth_lea(pe: &ObjectFile, data: &[u8], addr: u64, n: usize) -> (r: Result<u64, ReadFailure>)
    ensures
        r == lea_target(pe.segments@, data@, addr, n as nat),
{
    match find_code(pe, data, addr) {
        Ok(code) => find_nth_target(disassemble(code, addr).ok(), "lea", n, false),
        Err(e) => Err(e),
    }
}

/// Where the n-th `call` instruction from `addr` on goes, or the pointer that it goes through.
pub fn nth_call(pe: &ObjectFile, data: &[u8], addr: u64, n: usize) -> (r: Result<u64, ReadFailure>)
    ensures
        r == call_target(pe.segments@, data@, addr, n as nat),
{
    match find_code(pe, data, addr) {
        Ok(code) => find_nth_target(disassemble_prefix(code, addr, CALL_LIMIT).ok(), "call", n, true),
        Err(e) => Err(e),
    }
}

/// What the n-th `mov` instruction from `addr` on refers to.
pub fn nth_mov(pe: &ObjectFile, data: &[u8], addr: u64, n: usize) -> (r: Result<u64, ReadFailure>)
    ensures
        r == mov_target(pe.segments@, data@, addr, n as nat),
{
    match find_code(pe, data, addr) {
        Ok(code) => find_nth_target(disassemble(code, addr).ok(), "mov", n, true),
        Err(e) => Err(e),
    }
}

/// Finds the address of `il2cpp_init`.
fn find_init(pe: &ObjectFile) -> (r: Result<u64, ReadFailure>)
    ensures
        r == init_address(pe@),
{
    let exports = match &pe.exports {
        Some(exports) => exports,
        None => return Err(ReadFailure::Error(Il2CppBinaryError::Object)),
    };
    let wanted: String = "il2cpp_init".to_owned();
    let ghost views = object_file::export_views(exports@);
    let mut i: usize = 0;
    assert(views.skip(0) =~= views);
    while i < exports.len()
        invariant
            i <= exports@.len(),
            wanted@ == "il2cpp_init"@,
            views == object_file::export_views(exports@),
            pe@.exports == Some(views),
            init_export(views) == init_export(views.skip(i as int)),
        decreases exports@.len() - i,
    {
        let export = &exports[i];
        proof {
            assert(views.skip(i as int)[0] == export@);
            assert(views.skip(i as int).drop_first() =~= views.skip(i + 1));
        }
        if let Some(name) = utf8_str(export.name.as_slice()) {
            if name.to_owned() == wanted {
                return Ok(export.address);
            }
        }
        i += 1;
    }
    Err(ReadFailure::Error(Il2CppBinaryError::MissingIl2CppInit))
}

/// Reads the address that stands at the address `ptr`.
fn read_pointer(pe: &ObjectFile, data: &[u8], ptr: u64) -> (r: Result<u64, ReadFailure>)
    ensures
        r == pointer_at(pe.segments@, data@, ptr),
{
    match try_vaddr_conv(pe, ptr) {
        Ok(offset) => {
            let len: usize = data.len();
            if len < 8 || offset > (len - 8) as u64 {
                return Err(ReadFailure::Malformed);
            }
            Ok(read_u64_at(data, offset as usize))
        },
        Err(e) => Err(e),
    }
}

/// Finds the addresses of the code registration and of the metadata registration.
pub fn find_registration(pe: &ObjectFile, data: &[u8]) -> (r: Result<(u64, u64), ReadFailure>)
    ensures
        r == registrations(pe@, data@),
{
    let il2cpp_init: u64 = match find_init(pe) {
        Ok(addr) => addr,
        Err(e) => return Err(e),
    };
    let runtime_init: u64 = match nth_call(pe, data, il2cpp_init, RUNTIME_INIT_CALL) {
        Ok(addr) => addr,
        Err(e) => return Err(e),
    };
    let ptr: u64 = match nth_call(pe, data, runtime_init, REGISTER_CALL) {
        Ok(ptr) => ptr,
        Err(e) => return Err(e),
    };
    let function: u64 = match read_pointer(pe, data, ptr) {
        Ok(addr) => addr,
        Err(e) => return Err(e),
    };
    let metadata_addr: u64 = match nth_lea(pe, data, function, METADATA_LEA) {
        Ok(addr) => addr,
        Err(_) => return Err(ReadFailure::Malformed),
    };
    match nth_lea(pe, data, function, CODE_LEA) {
        Ok(code_addr) => Ok((code_addr, metadata_addr)),
        Err(_) => Err(ReadFailure::Malformed),
    }
}

/// Reads the runtime metadata of a PE file.
fn read_runtime(pe: &ObjectFile, data: &[u8], global_metadata: &GlobalMetadata) -> (r: Result<
    RuntimeMetadata,
    ReadFailure,
>)
    ensures
        runtime_metadata::read_as(
            r,
            pe_outcome(
                pe@,
                data@,
                metadata_registration::field_counts(global_metadata.type_definitions@),
            ),
        ),
{
    match find_registration(pe, data) {
        Ok((code_addr, metadata_addr)) => match RuntimeMetadata::read_registrations(
            pe,
            data,
            code_addr,
            metadata_addr,
            global_metadata,
        ) {
            Ok(mut metadata) => {
                metadata.metadata_registration.field_offsets = None;
                metadata.metadata_registration.type_definition_sizes = None;
                Ok(metadata)
            },
            Err(e) => Err(e),
        },
        Err(e) => Err(e),
    }
}

impl RuntimeMetadata {
    /// Reads the runtime metadata of a PE file that is well formed.
    pub fn read_pe_runtime(
        pe: &ObjectFile,
        data: &[u8],
        global_metadata: &GlobalMetadata,
    ) -> (r: Result<Self, Il2CppBinaryError>)
        requires
            pe_outcome(
                pe@,
                data@,
                metadata_registration::field_counts(global_metadata.type_definitions@),
            ) != Err::<RuntimeMetadataView, ReadFailure>(ReadFailure::Malformed),
        ensures
            ({
                let outcome = pe_outcome(
                    pe@,
                    data@,
                    metadata_registration::field_counts(global_metadata.type_definitions@),
                );
                match r {
                    Ok(metadata) => outcome == Ok::<RuntimeMetadataView, ReadFailure>(metadata@),
                    Err(e) => outcome == Err::<RuntimeMetadataView, ReadFailure>(
                        ReadFailure::Error(e),
                    ),
                }
            }),
    {
        match read_runtime(pe, data, global_metadata) {
            Ok(metadata) => Ok(metadata),
            Err(ReadFailure::Error(e)) => Err(e),
            Err(ReadFailure::Malformed) => Err(Il2CppBinaryError::Object),
        }
    }

    /// Reads the runtime metadata of a PE file, and says so where the file is not well formed.
    /// The file is read through once before it is read for good.
    pub fn try_read_pe_runtime(
        pe: &ObjectFile,
        data: &[u8],
        global_metadata: &GlobalMetadata,
    ) -> (r: Result<Self, ReadFailure>)
        ensures
            runtime_metadata::read_as(
                r,
                pe_outcome(
                    pe@,
                    data@,
                    metadata_registration::field_counts(global_metadata.type_definitions@),
                ),
            ),
    {
        match read_runtime(pe, data, global_metadata) {
            Err(ReadFailure::Malformed) => return Err(ReadFailure::Malformed),
            _ => {},
        }
        match Self::read_pe_runtime(pe, data, global_metadata) {
            Ok(metadata) => Ok(metadata),
            Err(e) => Err(ReadFailure::Error(e)),
        }
    }

    /// Reads the runtime metadata of raw PE data that is well formed.
    pub fn read_pe(data: &[u8], global_metadata: &GlobalMetadata) -> (r: Result<
        Self,
        Il2CppBinaryError,
    >)
        requires
            pe_data_outcome(
                data@,
                metadata_registration::field_counts(global_metadata.type_definitions@),
            ) != Err::<RuntimeMetadataView, ReadFailure>(ReadFailure::Malformed),
        ensures
            ({
                let outcome = pe_data_outcome(
                    data@,
                    metadata_registration::field_counts(global_metadata.type_definitions@),
                );
                match r {
                    Ok(metadata) => outcome == Ok::<RuntimeMetadataView, ReadFailure>(metadata@),
                    Err(e) => outcome == Err::<RuntimeMetadataView, ReadFailure>(
                        ReadFailure::Error(e),
                    ),
                }
            }),
    {
        match ObjectFile::parse(data) {
            Ok(object) => Self::read_pe_runtime(&object, data, global_metadata),
            Err(e) => Err(e),
        }
    }

    /// Reads the runtime metadata of raw PE data, and says so where the data is not well formed.
    /// The data is read through once before it is read for good.
    pub fn try_read_pe(data: &[u8], global_metadata: &GlobalMetadata) -> (r: Result<
        Self,
        ReadFailure,
    >)
        ensures
            runtime_metadata::read_as(
                r,
                pe_data_outcome(
                    data@,
                    metadata_registration::field_counts(global_metadata.type_definitions@),
                ),
            ),
    {
        let object = match ObjectFile::parse(data) {
            Ok(object) => object,
            Err(e) => return Err(ReadFailure::Error(e)),
        };
        match read_runtime(&object, data, global_metadata) {
            Err(ReadFailure::Malformed) => return Err(ReadFailure::Malformed),
            _ => {},
        }
        match Self::read_pe(data, global_metadata) {
            Ok(metadata) => Ok(metadata),
            Err(e) => Err(ReadFailure::Error(e)),
        }
    }
}

} // verus!
