//! Runtime metadata of ELF files.
//!
//! IL2CPP programs that are built for Linux and platforms based on it keep their code in a
//! shared object named `libil2cpp.so`. Its dynamic relocations are applied first. The two
//! registrations are then found by way of the code: the second call in `il2cpp_init` goes to
//! the initialisation of the runtime, and the first indirect call there goes to a function that
//! has the addresses of both registrations in its first two argument registers.
//!
//! The code is decoded outside of this module. An [`ElfReader`] says which bytes it wants
//! decoded next, and goes on once it is given the instructions.

use vstd::prelude::*;
use vstd::slice::slice_to_vec;

use crate::a64;
use crate::a64::{analyze_reg_rel, known_value, A64Insn, A64InsnView, X0, X1};
use crate::bytes;
use crate::bytes::{to_unsigned, write_u64_at};
use crate::errors::{A64DecodeError, Il2CppBinaryError, ReadFailure};
use crate::global_metadata::GlobalMetadata;
use crate::metadata_registration;
use crate::object_file;
use crate::object_file::{
    try_vaddr_conv, DynamicRelocation, Encoding, ObjectFile, ObjectFileView, Segment, SymbolView,
    Target,
};
use crate::reader::Image;
use crate::runtime_metadata;
use crate::runtime_metadata::{RuntimeMetadata, RuntimeMetadataView};

verus! {

// ---------------------------------------------------------------------------------------------
// Relocations
// ---------------------------------------------------------------------------------------------

/// Whether a relocation is applied: only those that put an absolute 64-bit number in place are.
pub open spec fn is_applied(rel: DynamicRelocation) -> bool {
    rel.encoding == Encoding::Generic && rel.target == Target::Absolute
}

/// The data after one relocation.
pub open spec fn relocate_one(
    segments: Seq<Segment>,
    rel: DynamicRelocation,
    data: Seq<u8>,
) -> Result<Seq<u8>, ReadFailure> {
    if !is_applied(rel) {
        Ok(data)
    } else {
        match object_file::locate(segments, rel.address) {
            Ok(pos) => if pos > usize::MAX {
                Err(ReadFailure::Error(Il2CppBinaryError::Io))
            } else if pos + 8 > isize::MAX {
                Err(ReadFailure::Malformed)
            } else {
                Ok(bytes::written(data, pos as int, bytes::unsigned_word(rel.addend)))
            },
            Err(e) => Err(e),
        }
    }
}

/// The data after all relocations, one after the other.
pub open spec fn relocate(
    segments: Seq<Segment>,
    relocations: Seq<DynamicRelocation>,
    data: Seq<u8>,
) -> Result<Seq<u8>, ReadFailure>
    decreases relocations.len(),
{
    if relocations.len() == 0 {
        Ok(data)
    } else {
        match relocate(segments, relocations.drop_last(), data) {
            Ok(front) => relocate_one(segments, relocations.last(), front),
            Err(e) => Err(e),
        }
    }
}

/// The data of an object file after its dynamic relocations, if it has any.
pub open spec fn relocated_data(object: ObjectFileView, data: Seq<u8>) -> Result<
    Seq<u8>,
    ReadFailure,
> {
    match object.dynamic_relocations {
        Some(relocations) => relocate(object.segments, relocations, data),
        None => Ok(data),
    }
}

/// A failure on the way is a failure at the end.
proof fn lemma_relocate_stop(
    segments: Seq<Segment>,
    relocations: Seq<DynamicRelocation>,
    data: Seq<u8>,
    n: int,
)
    requires
        0 <= n <= relocations.len(),
        relocate(segments, relocations.take(n), data) is Err,
    ensures
        relocate(segments, relocations, data) == relocate(segments, relocations.take(n), data),
    decreases relocations.len() - n,
{
    if n == relocations.len() {
        assert(relocations.take(n) =~= relocations);
    } else {
        assert(relocations.take(n + 1).drop_last() =~= relocations.take(n));
        lemma_relocate_stop(segments, relocations, data, n + 1);
    }
}

/// Whether a relocation touches the byte at offset `i`.
pub open spec fn touches(segments: Seq<Segment>, rel: DynamicRelocation, i: int) -> bool {
    is_applied(rel) && (object_file::locate(segments, rel.address) matches Ok(pos) && pos <= i < pos
        + 8)
}

/// Relocations never make the data shorter, and leave every byte alone that none of them
/// touches.
pub proof fn law_relocations_keep_rest(
    segments: Seq<Segment>,
    relocations: Seq<DynamicRelocation>,
    data: Seq<u8>,
    i: int,
)
    requires
        relocate(segments, relocations, data) is Ok,
        0 <= i < data.len(),
        forall|k: int| 0 <= k < relocations.len() ==> !touches(segments, #[trigger] relocations[k], i),
    ensures
        relocate(segments, relocations, data).unwrap().len() >= data.len(),
        relocate(segments, relocations, data).unwrap()[i] == data[i],
    decreases relocations.len(),
{
    if relocations.len() > 0 {
        let front = relocations.drop_last();
        assert forall|k: int| 0 <= k < front.len() implies !touches(
            segments,
            #[trigger] front[k],
            i,
        ) by {
            assert(front[k] == relocations[k]);
        }
        law_relocations_keep_rest(segments, front, data, i);
        assert(!touches(segments, relocations[relocations.len() - 1], i));
    }
}

/// What a relocation put in place stays there unless a later one touches it.
pub proof fn law_relocation_reads_back(
    segments: Seq<Segment>,
    relocations: Seq<DynamicRelocation>,
    data: Seq<u8>,
    k: int,
    pos: u64,
)
    requires
        relocate(segments, relocations, data) is Ok,
        0 <= k < relocations.len(),
        is_applied(relocations[k]),
        object_file::locate(segments, relocations[k].address) == Ok::<u64, ReadFailure>(pos),
        forall|j: int, i: int|
            k < j < relocations.len() && pos <= i < pos + 8 ==> !#[trigger] touches(
                segments,
                relocations[j],
                i,
            ),
    ensures
        bytes::fits(relocate(segments, relocations, data).unwrap(), pos as int, 8),
        bytes::u64_at(relocate(segments, relocations, data).unwrap(), pos as int)
            == bytes::unsigned_word(relocations[k].addend),
    decreases relocations.len(),
{
    let front = relocations.drop_last();
    let before = relocate(segments, front, data).unwrap();
    let after = relocate(segments, relocations, data).unwrap();
    let last = relocations.last();
    if k == relocations.len() - 1 {
        bytes::law_written_reads_back(before, pos as int, bytes::unsigned_word(last.addend));
    } else {
        assert forall|j: int, i: int| k < j < front.len() && pos <= i < pos + 8 implies !#[trigger] touches(
            segments,
            front[j],
            i,
        ) by {
            assert(front[j] == relocations[j]);
        }
        law_relocation_reads_back(segments, front, data, k, pos);
        assert(after.subrange(pos as int, pos + 8) =~= before.subrange(pos as int, pos + 8)) by {
            assert forall|i: int| pos <= i < pos + 8 implies after[i] == before[i] by {
                assert(!touches(segments, relocations[relocations.len() - 1], i));
            }
        }
    }
}

/// Applies one relocation.
fn apply_relocation(elf: &ObjectFile, rel: DynamicRelocation, data: &mut Vec<u8>) -> (r: Result<
    (),
    ReadFailure,
>)
    ensures
        match r {
            Ok(_) => relocate_one(elf.segments@, rel, old(data)@) == Ok::<Seq<u8>, ReadFailure>(
                final(data)@,
            ),
            Err(e) => relocate_one(elf.segments@, rel, old(data)@) == Err::<Seq<u8>, ReadFailure>(
                e,
            ),
        },
{
    if rel.encoding != Encoding::Generic || rel.target != Target::Absolute {
        return Ok(());
    }
    let pos: u64 = match try_vaddr_conv(elf, rel.address) {
        Ok(pos) => pos,
        Err(e) => return Err(e),
    };
    if pos > usize::MAX as u64 {
        return Err(ReadFailure::Error(Il2CppBinaryError::Io));
    }
    if pos > isize::MAX as u64 - 8 {
        return Err(ReadFailure::Malformed);
    }
    write_u64_at(data, pos as usize, to_unsigned(rel.addend));
    Ok(())
}

/// Applies the dynamic relocations of an object file to its data.
pub fn process_relocations(elf: &ObjectFile, data: &[u8]) -> (r: Result<Vec<u8>, ReadFailure>)
    ensures
        match r {
            Ok(elf_rel) => relocated_data(elf@, data@) == Ok::<Seq<u8>, ReadFailure>(elf_rel@),
            Err(e) => relocated_data(elf@, data@) == Err::<Seq<u8>, ReadFailure>(e),
        },
{
    let mut elf_rel: Vec<u8> = slice_to_vec(data);
    if let Some(relocations) = &elf.dynamic_relocations {
        let mut i: usize = 0;
        while i < relocations.len()
            invariant
                i <= relocations@.len(),
                elf@.dynamic_relocations == Some(relocations@),
                relocate(elf.segments@, relocations@.take(i as int), data@) == Ok::<
                    Seq<u8>,
                    ReadFailure,
                >(elf_rel@),
            decreases relocations@.len() - i,
        {
            proof {
                assert(relocations@.take(i + 1).drop_last() =~= relocations@.take(i as int));
                assert(relocations@.take(i + 1).last() == relocations@[i as int]);
            }
            match apply_relocation(elf, relocations[i], &mut elf_rel) {
                Ok(_) => {},
                Err(e) => {
                    proof {
                        lemma_relocate_stop(elf.segments@, relocations@, data@, i + 1);
                    }
                    return Err(e);
                },
            }
            i += 1;
        }
        assert(relocations@.take(i as int) =~= relocations@);
    }
    Ok(elf_rel)
}

// ---------------------------------------------------------------------------------------------
// The way to the registrations
// ---------------------------------------------------------------------------------------------

/// How many `bl` instructions of `il2cpp_init` come before the one that is looked for.
pub const INIT_CALLS_BEFORE: u64 = 1;

/// How many instructions are looked at for a `blr`.
pub const BLR_LIMIT: u64 = 200;

/// The length in bytes of the function that registers the metadata.
pub const REGISTER_LEN: u64 = 28;

/// What a decoder makes of code at an address: its instructions, or the first error.
pub type Decoder = spec_fn(Seq<u8>, u64) -> Result<Seq<A64InsnView>, A64DecodeError>;

/// What does not change while an ELF file is read: the file, its data before relocation, and the
/// number of fields of each type definition.
pub struct ElfSource {
    pub object: ObjectFileView,
    pub data: Seq<u8>,
    pub counts: Seq<u16>,
}

/// Code at an address.
#[verifier::ext_equal]
pub struct CodeView {
    pub code: Seq<u8>,
    pub addr: u64,
}

/// The file, with other data in place of its own.
pub open spec fn image_of(src: ElfSource, data: Seq<u8>) -> Image {
    Image { segments: src.object.segments, bss: src.object.bss, data }
}

/// The instruction word at position `index` of the code that stands at file offset `offset` and
/// at address `addr`.
pub open spec fn word_at(data: Seq<u8>, offset: u64, addr: u64, index: int) -> Option<CodeView> {
    if 0 <= index && bytes::fits(data, offset + 4 * index, 4) && addr + 4 * index <= u64::MAX {
        Some(
            CodeView {
                code: data.subrange(offset + 4 * index, offset + 4 * index + 4),
                addr: (addr + 4 * index) as u64,
            },
        )
    } else {
        None
    }
}

/// The instructions that a decoder gave.
pub open spec fn all_insns(reply: Result<Seq<A64InsnView>, A64DecodeError>) -> Result<
    Seq<A64InsnView>,
    ReadFailure,
> {
    match reply {
        Ok(insns) => Ok(insns),
        Err(e) => Err(ReadFailure::Error(Il2CppBinaryError::Disassemble(e))),
    }
}

/// The first instruction that a decoder gave.
pub open spec fn first_insn(reply: Result<Seq<A64InsnView>, A64DecodeError>) -> Result<
    A64InsnView,
    ReadFailure,
> {
    match all_insns(reply) {
        Ok(insns) => if insns.len() > 0 {
            Ok(insns[0])
        } else {
            Err(ReadFailure::Malformed)
        },
        Err(e) => Err(e),
    }
}

/// The instruction at position `index` of the code at `offset` and `addr`.
pub open spec fn insn_at(
    decoder: Decoder,
    data: Seq<u8>,
    offset: u64,
    addr: u64,
    index: int,
) -> Result<A64InsnView, ReadFailure> {
    match word_at(data, offset, addr, index) {
        Some(word) => first_insn(decoder(word.code, word.addr)),
        None => Err(ReadFailure::Malformed),
    }
}

/// Where the `bl` instruction goes that comes `skip` of them after position `index`.
pub open spec fn nth_bl(
    decoder: Decoder,
    data: Seq<u8>,
    offset: u64,
    addr: u64,
    index: int,
    skip: int,
) -> Result<u64, ReadFailure>
    decreases data.len() - offset - 4 * index,
{
    if word_at(data, offset, addr, index) is None {
        Err(ReadFailure::Malformed)
    } else {
        match insn_at(decoder, data, offset, addr, index) {
            Err(e) => Err(e),
            Ok(insn) => match a64::bl_target(insn) {
                Some(target) => if skip == 0 {
                    Ok(target)
                } else {
                    nth_bl(decoder, data, offset, addr, index + 1, skip - 1)
                },
                None => nth_bl(decoder, data, offset, addr, index + 1, skip),
            },
        }
    }
}

/// The position of the first `blr` instruction from position `index` on and before position
/// `limit`, and the register that it goes through.
pub open spec fn find_blr(
    decoder: Decoder,
    data: Seq<u8>,
    offset: u64,
    addr: u64,
    index: int,
    limit: int,
) -> Result<Option<(int, u32)>, ReadFailure>
    decreases limit - index,
{
    if index >= limit {
        Ok(None)
    } else {
        match insn_at(decoder, data, offset, addr, index) {
            Err(e) => Err(e),
            Ok(insn) => match a64::blr_register(insn) {
                Some(reg) => Ok(Some((index, reg))),
                None => find_blr(decoder, data, offset, addr, index + 1, limit),
            },
        }
    }
}

/// The code of the runtime's initialisation before the `blr` at position `index`.
pub open spec fn setup_code(
    src: ElfSource,
    runtime_init: u64,
    offset: u64,
    index: int,
) -> Result<CodeView, ReadFailure> {
    if offset + 4 * index <= src.data.len() {
        Ok(
            CodeView {
                code: src.data.subrange(offset as int, offset + 4 * index),
                addr: runtime_init,
            },
        )
    } else {
        Err(ReadFailure::Malformed)
    }
}

/// The code that the `blr` through `reg` goes to, given the instructions before it.
#[verifier::opaque]
pub open spec fn register_code(
    src: ElfSource,
    relocated: Seq<u8>,
    reg: u32,
    reply: Result<Seq<A64InsnView>, A64DecodeError>,
) -> Result<CodeView, ReadFailure> {
    match all_insns(reply) {
        Err(e) => Err(e),
        Ok(insns) => match a64::registers_after(image_of(src, relocated), insns) {
            Err(e) => Err(e),
            Ok(regs) => if !regs.dom().contains(reg) {
                Err(ReadFailure::Malformed)
            } else {
                match object_file::locate(src.object.segments, regs[reg]) {
                    Err(e) => Err(e),
                    Ok(offset) => if bytes::fits(src.data, offset as int, REGISTER_LEN as int) {
                        Ok(
                            CodeView {
                                code: src.data.subrange(offset as int, offset + REGISTER_LEN),
                                addr: regs[reg],
                            },
                        )
                    } else {
                        Err(ReadFailure::Malformed)
                    },
                }
            },
        },
    }
}

/// The addresses of the code registration and of the metadata registration, given the
/// instructions of the function that registers them.
pub open spec fn registrations(
    src: ElfSource,
    relocated: Seq<u8>,
    reply: Result<Seq<A64InsnView>, A64DecodeError>,
) -> Result<(u64, u64), ReadFailure> {
    match all_insns(reply) {
        Err(e) => Err(e),
        Ok(insns) => match a64::registers_after(image_of(src, relocated), insns) {
            Err(e) => Err(e),
            Ok(regs) => if regs.dom().contains(X0) && regs.dom().contains(X1) {
                Ok((regs[X0], regs[X1]))
            } else {
                Err(ReadFailure::Malformed)
            },
        },
    }
}

/// The runtime metadata, given the instructions of the function that registers it.
#[verifier::opaque]
pub open spec fn metadata_registered(
    src: ElfSource,
    relocated: Seq<u8>,
    reply: Result<Seq<A64InsnView>, A64DecodeError>,
) -> Result<RuntimeMetadataView, ReadFailure> {
    match registrations(src, relocated, reply) {
        Ok((code_addr, metadata_addr)) => runtime_metadata::runtime_metadata_at(
            image_of(src, relocated),
            code_addr,
            metadata_addr,
            src.counts,
        ),
        Err(e) => Err(e),
    }
}

/// The address of the first dynamic symbol that is named `il2cpp_init`.
pub open spec fn init_symbol(symbols: Seq<SymbolView>) -> Option<u64>
    decreases symbols.len(),
{
    if symbols.len() == 0 {
        None
    } else if symbols[0].name == Some("il2cpp_init"@) {
        Some(symbols[0].address)
    } else {
        init_symbol(symbols.drop_first())
    }
}

/// The runtime metadata, from the code before the `blr` on.
#[verifier::opaque]
pub open spec fn outcome_from_setup(
    decoder: Decoder,
    src: ElfSource,
    relocated: Seq<u8>,
    reg: u32,
    setup: CodeView,
) -> Result<RuntimeMetadataView, ReadFailure> {
    match register_code(src, relocated, reg, decoder(setup.code, setup.addr)) {
        Ok(function) => metadata_registered(
            src,
            relocated,
            decoder(function.code, function.addr),
        ),
        Err(e) => Err(e),
    }
}

/// The runtime metadata, from position `index` of the runtime's initialisation on.
pub open spec fn outcome_from_blr(
    decoder: Decoder,
    src: ElfSource,
    relocated: Seq<u8>,
    runtime_init: u64,
    offset: u64,
    index: int,
) -> Result<RuntimeMetadataView, ReadFailure> {
    match find_blr(decoder, relocated, offset, runtime_init, index, BLR_LIMIT as int) {
        Err(e) => Err(e),
        Ok(None) => Err(ReadFailure::Error(Il2CppBinaryError::MissingBlr)),
        Ok(Some((found, reg))) => match setup_code(src, runtime_init, offset, found) {
            Ok(setup) => outcome_from_setup(decoder, src, relocated, reg, setup),
            Err(e) => Err(e),
        },
    }
}

/// The runtime metadata, from position `index` of `il2cpp_init` on.
pub open spec fn outcome_from_init(
    decoder: Decoder,
    src: ElfSource,
    relocated: Seq<u8>,
    addr: u64,
    offset: u64,
    index: int,
    skip: int,
) -> Result<RuntimeMetadataView, ReadFailure> {
    match nth_bl(decoder, relocated, offset, addr, index, skip) {
        Err(e) => Err(e),
        Ok(runtime_init) => match object_file::locate(src.object.segments, runtime_init) {
            Ok(offset) => outcome_from_blr(decoder, src, relocated, runtime_init, offset, 0),
            Err(e) => Err(e),
        },
    }
}

/// The runtime metadata of an ELF file whose code is decoded by `decoder`.
pub open spec fn elf_outcome(decoder: Decoder, src: ElfSource) -> Result<
    RuntimeMetadataView,
    ReadFailure,
> {
    match relocated_data(src.object, src.data) {
        Err(e) => Err(e),
        Ok(relocated) => match init_symbol(src.object.dynamic_symbols) {
            None => Err(ReadFailure::Error(Il2CppBinaryError::MissingIl2CppInit)),
            Some(addr) => match object_file::locate(src.object.segments, addr) {
                Err(e) => Err(e),
                Ok(offset) => outcome_from_init(
                    decoder,
                    src,
                    relocated,
                    addr,
                    offset,
                    0,
                    INIT_CALLS_BEFORE as int,
                ),
            },
        },
    }
}

/// Field offsets and sizes exist when read from an ELF file.
pub proof fn law_elf_has_layout(decoder: Decoder, src: ElfSource)
    requires
        elf_outcome(decoder, src) is Ok,
    ensures
        metadata_registration::has_layout(
            elf_outcome(decoder, src).unwrap().metadata_registration,
            src.counts,
        ),
{
    let relocated = relocated_data(src.object, src.data).unwrap();
    let addr = init_symbol(src.object.dynamic_symbols).unwrap();
    let offset = object_file::locate(src.object.segments, addr).unwrap();
    let runtime_init = nth_bl(
        decoder,
        relocated,
        offset,
        addr,
        0,
        INIT_CALLS_BEFORE as int,
    ).unwrap();
    let start = object_file::locate(src.object.segments, runtime_init).unwrap();
    let (found, reg) = find_blr(
        decoder,
        relocated,
        start,
        runtime_init,
        0,
        BLR_LIMIT as int,
    ).unwrap().unwrap();
    let setup = setup_code(src, runtime_init, start, found).unwrap();
    lemma_setup_has_layout(decoder, src, relocated, reg, setup);
}

proof fn lemma_setup_has_layout(
    decoder: Decoder,
    src: ElfSource,
    relocated: Seq<u8>,
    reg: u32,
    setup: CodeView,
)
    requires
        outcome_from_setup(decoder, src, relocated, reg, setup) is Ok,
    ensures
        metadata_registration::has_layout(
            outcome_from_setup(
                decoder,
                src,
                relocated,
                reg,
                setup,
            ).unwrap().metadata_registration,
            src.counts,
        ),
{
    reveal(outcome_from_setup);
    let function = register_code(
        src,
        relocated,
        reg,
        decoder(setup.code, setup.addr),
    ).unwrap();
    lemma_registered_has_layout(src, relocated, decoder(function.code, function.addr));
}

proof fn lemma_registered_has_layout(
    src: ElfSource,
    relocated: Seq<u8>,
    reply: Result<Seq<A64InsnView>, A64DecodeError>,
)
    requires
        metadata_registered(src, relocated, reply) is Ok,
    ensures
        metadata_registration::has_layout(
            metadata_registered(src, relocated, reply).unwrap().metadata_registration,
            src.counts,
        ),
{
    reveal(metadata_registered);
    let (_, metadata_addr) = registrations(src, relocated, reply).unwrap();
    metadata_registration::lemma_layout(image_of(src, relocated), metadata_addr, src.counts);
}

// ---------------------------------------------------------------------------------------------
// The steps on the way
// ---------------------------------------------------------------------------------------------

/// How far an ELF file has been read.
#[derive(Clone, Copy, PartialEq, Eq, Debug, Structural)]
pub enum ElfStage {
    /// At position `index` of `il2cpp_init`, with `skip` calls to pass over.
    Init { addr: u64, offset: u64, index: u64, skip: u64 },
    /// At position `index` of the runtime's initialisation.
    RuntimeInit { addr: u64, offset: u64, index: u64 },
    /// Before the `blr` through this register.
    Setup { blr_reg: u32 },
    /// At the function that registers the metadata.
    Register,
}

/// An ELF file that is being read. It waits for the instructions of [`code`](Self::code), which
/// stands at [`addr`](Self::addr).
#[derive(Debug)]
pub struct ElfReader {
    /// The data after relocation.
    pub relocated: Vec<u8>,
    pub stage: ElfStage,
    /// The code to decode next.
    pub code: Vec<u8>,
    /// The address of that code.
    pub addr: u64,
}

/// The mathematical value of an [`ElfReader`].
#[verifier::ext_equal]
pub struct ElfReaderView {
    pub relocated: Seq<u8>,
    pub stage: ElfStage,
    pub code: Seq<u8>,
    pub addr: u64,
}

impl View for ElfReader {
    type V = ElfReaderView;

    open spec fn view(&self) -> ElfReaderView {
        ElfReaderView {
            relocated: self.relocated@,
            stage: self.stage,
            code: self.code@,
            addr: self.addr,
        }
    }
}

/// What comes of a step: more code to decode, or the end.
#[derive(Debug)]
pub enum ElfProgress {
    Decode(ElfReader),
    Done(Result<RuntimeMetadata, ReadFailure>),
}

/// The mathematical value of an [`ElfProgress`].
pub enum ElfProgressView {
    Decode(ElfReaderView),
    Done(Result<RuntimeMetadataView, ReadFailure>),
}

/// Whether a step came out as `expected` says.
pub open spec fn progressed_as(r: ElfProgress, expected: ElfProgressView) -> bool {
    match (r, expected) {
        (ElfProgress::Decode(reader), ElfProgressView::Decode(view)) => reader@ == view,
        (ElfProgress::Done(result), ElfProgressView::Done(outcome)) => runtime_metadata::read_as(
            result,
            outcome,
        ),
        _ => false,
    }
}

/// Asks for the word at position `index`.
pub open spec fn ask_word(
    relocated: Seq<u8>,
    stage: ElfStage,
    offset: u64,
    addr: u64,
    index: int,
) -> ElfProgressView {
    match word_at(relocated, offset, addr, index) {
        Some(word) => ElfProgressView::Decode(
            ElfReaderView { relocated, stage, code: word.code, addr: word.addr },
        ),
        None => ElfProgressView::Done(Err(ReadFailure::Malformed)),
    }
}

/// Asks for code that may have been found.
pub open spec fn ask_code(
    relocated: Seq<u8>,
    stage: ElfStage,
    code: Result<CodeView, ReadFailure>,
) -> ElfProgressView {
    match code {
        Ok(code) => ElfProgressView::Decode(
            ElfReaderView { relocated, stage, code: code.code, addr: code.addr },
        ),
        Err(e) => ElfProgressView::Done(Err(e)),
    }
}

/// Asks for the word at position `index` of `il2cpp_init`.
pub open spec fn ask_init(
    relocated: Seq<u8>,
    addr: u64,
    offset: u64,
    index: int,
    skip: int,
) -> ElfProgressView {
    let stage = ElfStage::Init { addr, offset, index: index as u64, skip: skip as u64 };
    ask_word(relocated, stage, offset, addr, index)
}

/// Asks for the word at position `index` of the runtime's initialisation.
pub open spec fn ask_runtime_init(
    relocated: Seq<u8>,
    addr: u64,
    offset: u64,
    index: int,
) -> ElfProgressView {
    let stage = ElfStage::RuntimeInit { addr, offset, index: index as u64 };
    ask_word(relocated, stage, offset, addr, index)
}

/// The first step into an ELF file.
pub open spec fn elf_start(object: ObjectFileView, data: Seq<u8>) -> ElfProgressView {
    match relocated_data(object, data) {
        Err(e) => ElfProgressView::Done(Err(e)),
        Ok(relocated) => match init_symbol(object.dynamic_symbols) {
            None => ElfProgressView::Done(
                Err(ReadFailure::Error(Il2CppBinaryError::MissingIl2CppInit)),
            ),
            Some(addr) => match object_file::locate(object.segments, addr) {
                Err(e) => ElfProgressView::Done(Err(e)),
                Ok(offset) => ask_init(relocated, addr, offset, 0, INIT_CALLS_BEFORE as int),
            },
        },
    }
}

/// The step that follows on the instructions that a reader waited for.
pub open spec fn elf_step(
    src: ElfSource,
    reader: ElfReaderView,
    reply: Result<Seq<A64InsnView>, A64DecodeError>,
) -> ElfProgressView {
    let relocated = reader.relocated;
    match reader.stage {
        ElfStage::Init { addr, offset, index, skip } => match first_insn(reply) {
            Err(e) => ElfProgressView::Done(Err(e)),
            Ok(insn) => match a64::bl_target(insn) {
                None => ask_init(relocated, addr, offset, index + 1, skip as int),
                Some(target) => if skip > 0 {
                    ask_init(relocated, addr, offset, index + 1, skip - 1)
                } else {
                    match object_file::locate(src.object.segments, target) {
                        Err(e) => ElfProgressView::Done(Err(e)),
                        Ok(offset) => ask_runtime_init(relocated, target, offset, 0),
                    }
                },
            },
        },
        ElfStage::RuntimeInit { addr, offset, index } => match first_insn(reply) {
            Err(e) => ElfProgressView::Done(Err(e)),
            Ok(insn) => match a64::blr_register(insn) {
                None => if index + 1 < BLR_LIMIT {
                    ask_runtime_init(relocated, addr, offset, index + 1)
                } else {
                    ElfProgressView::Done(Err(ReadFailure::Error(Il2CppBinaryError::MissingBlr)))
                },
                Some(blr_reg) => ask_code(
                    relocated,
                    ElfStage::Setup { blr_reg },
                    setup_code(src, addr, offset, index as int),
                ),
            },
        },
        ElfStage::Setup { blr_reg } => ask_code(
            relocated,
            ElfStage::Register,
            register_code(src, relocated, blr_reg, reply),
        ),
        ElfStage::Register => ElfProgressView::Done(metadata_registered(src, relocated, reply)),
    }
}

/// Whether a reader waits for the code that its stage is about.
pub open spec fn in_step(reader: ElfReaderView) -> bool {
    let waiting = CodeView { code: reader.code, addr: reader.addr };
    match reader.stage {
        ElfStage::Init { addr, offset, index, .. } => word_at(
            reader.relocated,
            offset,
            addr,
            index as int,
        ) == Some(waiting),
        ElfStage::RuntimeInit { addr, offset, index } => index < BLR_LIMIT && word_at(
            reader.relocated,
            offset,
            addr,
            index as int,
        ) == Some(waiting),
        ElfStage::Setup { .. } => true,
        ElfStage::Register => true,
    }
}

/// What becomes of a reader whose code is decoded by `decoder`.
pub open spec fn reader_outcome(decoder: Decoder, src: ElfSource, reader: ElfReaderView) -> Result<
    RuntimeMetadataView,
    ReadFailure,
> {
    let relocated = reader.relocated;
    match reader.stage {
        ElfStage::Init { addr, offset, index, skip } => outcome_from_init(
            decoder,
            src,
            relocated,
            addr,
            offset,
            index as int,
            skip as int,
        ),
        ElfStage::RuntimeInit { addr, offset, index } => outcome_from_blr(
            decoder,
            src,
            relocated,
            addr,
            offset,
            index as int,
        ),
        ElfStage::Setup { blr_reg } => outcome_from_setup(
            decoder,
            src,
            relocated,
            blr_reg,
            CodeView { code: reader.code, addr: reader.addr },
        ),
        ElfStage::Register => metadata_registered(
            src,
            relocated,
            decoder(reader.code, reader.addr),
        ),
    }
}

/// What becomes of a step when all further code is decoded by `decoder`.
pub open spec fn progress_outcome(
    decoder: Decoder,
    src: ElfSource,
    progress: ElfProgressView,
) -> Result<RuntimeMetadataView, ReadFailure> {
    match progress {
        ElfProgressView::Decode(reader) => reader_outcome(decoder, src, reader),
        ElfProgressView::Done(outcome) => outcome,
    }
}

/// A bound on the number of steps that a reader still takes.
pub open spec fn steps_left(reader: ElfReaderView) -> int {
    match reader.stage {
        ElfStage::Init { offset, index, .. } => reader.relocated.len() - offset - 4 * index
            + BLR_LIMIT + 3,
        ElfStage::RuntimeInit { index, .. } => BLR_LIMIT - index + 2,
        ElfStage::Setup { .. } => 2,
        ElfStage::Register => 1,
    }
}

/// The first step of reading leads to the runtime metadata of the file, whatever the decoder.
pub proof fn law_start(decoder: Decoder, src: ElfSource)
    ensures
        progress_outcome(decoder, src, elf_start(src.object, src.data)) == elf_outcome(
            decoder,
            src,
        ),
        elf_start(src.object, src.data) matches ElfProgressView::Decode(reader) ==> in_step(reader),
{
}

/// Each step keeps the outcome when it is given what the decoder makes of the code that was
/// asked for, and leaves fewer steps to take.
pub proof fn law_step(decoder: Decoder, src: ElfSource, reader: ElfReaderView)
    requires
        in_step(reader),
        reader.relocated.len() <= u64::MAX,
    ensures
        ({
            let next = elf_step(src, reader, decoder(reader.code, reader.addr));
            &&& progress_outcome(decoder, src, next) == reader_outcome(decoder, src, reader)
            &&& next matches ElfProgressView::Decode(later) ==> {
                &&& in_step(later)
                &&& later.relocated == reader.relocated
                &&& 0 < steps_left(later) < steps_left(reader)
            }
        }),
{
    reveal_with_fuel(nth_bl, 2);
    reveal_with_fuel(find_blr, 2);
    if reader.stage is Setup {
        reveal(outcome_from_setup);
    }
}

/// What comes of a reader in at most `n` steps, each given what `decoder` makes of the code
/// that was asked for.
pub open spec fn run(decoder: Decoder, src: ElfSource, progress: ElfProgressView, n: nat) -> Option<
    Result<RuntimeMetadataView, ReadFailure>,
>
    decreases n,
{
    match progress {
        ElfProgressView::Done(outcome) => Some(outcome),
        ElfProgressView::Decode(reader) => if n == 0 {
            None
        } else {
            run(
                decoder,
                src,
                elf_step(src, reader, decoder(reader.code, reader.addr)),
                (n - 1) as nat,
            )
        },
    }
}

/// A reader comes to its outcome.
pub proof fn law_run(decoder: Decoder, src: ElfSource, reader: ElfReaderView, n: nat)
    requires
        in_step(reader),
        reader.relocated.len() <= u64::MAX,
        n >= steps_left(reader),
    ensures
        run(decoder, src, ElfProgressView::Decode(reader), n) == Some(
            reader_outcome(decoder, src, reader),
        ),
    decreases n,
{
    reveal_with_fuel(run, 2);
    law_step(decoder, src, reader);
    let next = elf_step(src, reader, decoder(reader.code, reader.addr));
    assert(steps_left(reader) > 0);
    match next {
        ElfProgressView::Done(_) => {},
        ElfProgressView::Decode(later) => {
            law_run(decoder, src, later, (n - 1) as nat);
        },
    }
}

/// Reading an ELF file comes to its runtime metadata when every step is given what the decoder
/// makes of the code that was asked for.
pub proof fn law_reading_ends(decoder: Decoder, src: ElfSource, n: nat)
    requires
        relocated_data(src.object, src.data) matches Ok(relocated) ==> relocated.len() <= u64::MAX
            && n >= relocated.len() + BLR_LIMIT + 3,
    ensures
        run(decoder, src, elf_start(src.object, src.data), n) == Some(elf_outcome(decoder, src)),
{
    law_start(decoder, src);
    match elf_start(src.object, src.data) {
        ElfProgressView::Done(_) => {},
        ElfProgressView::Decode(reader) => {
            law_run(decoder, src, reader, n);
        },
    }
}

// ---------------------------------------------------------------------------------------------
// What the way is made of
// ---------------------------------------------------------------------------------------------

/// A relocation behind others puts its addend in its place if it is a generic, absolute one; every
/// other relocation does nothing. It fails where its place cannot be located.
pub proof fn law_relocate(
    segments: Seq<Segment>,
    relocations: Seq<DynamicRelocation>,
    rel: DynamicRelocation,
    data: Seq<u8>,
)
    ensures
        relocate(segments, Seq::empty(), data) == Ok::<Seq<u8>, ReadFailure>(data),
        ({
            let r = relocate(segments, relocations.push(rel), data);
            match relocate(segments, relocations, data) {
                Err(e) => r == Err::<Seq<u8>, ReadFailure>(e),
                Ok(before) => if rel.encoding != Encoding::Generic || rel.target
                    != Target::Absolute {
                    r == Ok::<Seq<u8>, ReadFailure>(before)
                } else {
                    match object_file::locate(segments, rel.address) {
                        Err(e) => r == Err::<Seq<u8>, ReadFailure>(e),
                        Ok(pos) => {
                            &&& pos + 8 <= isize::MAX ==> (r matches Ok(after) && {
                                &&& after.len() == if pos + 8 > before.len() {
                                    (pos + 8) as nat
                                } else {
                                    before.len()
                                }
                                &&& bytes::u64_at(after, pos as int) == if rel.addend >= 0 {
                                    rel.addend as int
                                } else {
                                    rel.addend + 0x1_0000_0000_0000_0000
                                }
                                &&& forall|i: int|
                                    0 <= i < before.len() && !(pos <= i < pos + 8)
                                        ==> #[trigger] after[i] == before[i]
                                &&& forall|i: int|
                                    before.len() <= i < pos ==> #[trigger] after[i] == 0
                            })
                            &&& pos + 8 > isize::MAX && pos <= usize::MAX ==> r == Err::<
                                Seq<u8>,
                                ReadFailure,
                            >(ReadFailure::Malformed)
                            &&& pos > usize::MAX ==> r == Err::<Seq<u8>, ReadFailure>(
                                ReadFailure::Error(Il2CppBinaryError::Io),
                            )
                        },
                    }
                },
            }
        }),
{
    assert(relocations.push(rel).drop_last() =~= relocations);
    if let Ok(before) = relocate(segments, relocations, data) {
        if let Ok(pos) = object_file::locate(segments, rel.address) {
            bytes::law_written_reads_back(before, pos as int, bytes::unsigned_word(rel.addend));
        }
    }
}

/// A file without dynamic relocations keeps its data.
pub proof fn law_relocated_data(object: ObjectFileView, data: Seq<u8>)
    ensures
        match object.dynamic_relocations {
            None => relocated_data(object, data) == Ok::<Seq<u8>, ReadFailure>(data),
            Some(relocations) => relocated_data(object, data) == relocate(
                object.segments,
                relocations,
                data,
            ),
        },
{
}

/// `il2cpp_init` lies where the first dynamic symbol of that name says.
pub proof fn law_init_symbol(symbols: Seq<SymbolView>, k: int)
    requires
        0 <= k < symbols.len(),
        symbols[k].name == Some("il2cpp_init"@),
        forall|j: int| 0 <= j < k ==> (#[trigger] symbols[j]).name != Some("il2cpp_init"@),
    ensures
        init_symbol(symbols) == Some(symbols[k].address),
    decreases k,
{
    if k > 0 {
        assert(symbols[0].name != Some("il2cpp_init"@));
        let rest = symbols.drop_first();
        assert forall|j: int| 0 <= j < k - 1 implies (#[trigger] rest[j]).name != Some(
            "il2cpp_init"@,
        ) by {
            assert(rest[j] == symbols[j + 1]);
        }
        law_init_symbol(rest, k - 1);
    }
}

/// There is no `il2cpp_init` where no dynamic symbol has that name.
pub proof fn law_no_init_symbol(symbols: Seq<SymbolView>)
    requires
        forall|j: int|
            0 <= j < symbols.len() ==> (#[trigger] symbols[j]).name != Some("il2cpp_init"@),
    ensures
        init_symbol(symbols) is None,
    decreases symbols.len(),
{
    if symbols.len() > 0 {
        assert(symbols[0].name != Some("il2cpp_init"@));
        let rest = symbols.drop_first();
        assert forall|j: int| 0 <= j < rest.len() implies (#[trigger] rest[j]).name != Some(
            "il2cpp_init"@,
        ) by {
            assert(rest[j] == symbols[j + 1]);
        }
        law_no_init_symbol(rest);
    }
}

/// The instruction at position `index` is the first that the decoder makes of the four bytes that
/// stand `4 * index` behind the start of the code, in the file and in memory. It is malformed to
/// run off the end of the file.
pub proof fn law_insn_at(
    decoder: Decoder,
    data: Seq<u8>,
    offset: u64,
    addr: u64,
    index: int,
)
    requires
        0 <= index,
        addr + 4 * index < 0x1_0000_0000_0000_0000,
    ensures
        ({
            let r = insn_at(decoder, data, offset, addr, index);
            let start = offset + 4 * index;
            let malformed = Err::<A64InsnView, ReadFailure>(ReadFailure::Malformed);
            &&& start + 4 > data.len() ==> r == malformed
            &&& start + 4 <= data.len() ==> match decoder(
                data.subrange(start, start + 4),
                (addr + 4 * index) as u64,
            ) {
                Err(e) => r == Err::<A64InsnView, ReadFailure>(
                    ReadFailure::Error(Il2CppBinaryError::Disassemble(e)),
                ),
                Ok(insns) => if insns.len() == 0 {
                    r == malformed
                } else {
                    r == Ok::<A64InsnView, ReadFailure>(insns[0])
                },
            }
        }),
{
}

/// Counting goes on behind an instruction that is no call, and with one call less to pass over
/// behind one that is. The call that is counted to decides.
pub proof fn law_nth_bl(
    decoder: Decoder,
    data: Seq<u8>,
    offset: u64,
    addr: u64,
    index: int,
    skip: int,
)
    requires
        0 <= index,
        0 <= skip,
    ensures
        match insn_at(decoder, data, offset, addr, index) {
            Err(e) => nth_bl(decoder, data, offset, addr, index, skip) == Err::<u64, ReadFailure>(
                e,
            ),
            Ok(insn) => match a64::bl_target(insn) {
                None => nth_bl(decoder, data, offset, addr, index, skip) == nth_bl(
                    decoder,
                    data,
                    offset,
                    addr,
                    index + 1,
                    skip,
                ),
                Some(target) => {
                    &&& skip == 0 ==> nth_bl(decoder, data, offset, addr, index, skip) == Ok::<
                        u64,
                        ReadFailure,
                    >(target)
                    &&& skip > 0 ==> nth_bl(decoder, data, offset, addr, index, skip) == nth_bl(
                        decoder,
                        data,
                        offset,
                        addr,
                        index + 1,
                        skip - 1,
                    )
                },
            },
        },
{
}

/// The first call through a register decides where it comes before the limit and everything
/// before it decodes.
pub proof fn law_find_blr(
    decoder: Decoder,
    data: Seq<u8>,
    offset: u64,
    addr: u64,
    index: int,
    limit: int,
    k: int,
    reg: u32,
)
    requires
        0 <= index <= k < limit,
        insn_at(decoder, data, offset, addr, k) matches Ok(insn) && a64::blr_register(insn) == Some(
            reg,
        ),
        forall|i: int|
            index <= i < k ==> (#[trigger] insn_at(decoder, data, offset, addr, i) matches Ok(insn)
                && a64::blr_register(insn) is None),
    ensures
        find_blr(decoder, data, offset, addr, index, limit) == Ok::<
            Option<(int, u32)>,
            ReadFailure,
        >(Some((k, reg))),
    decreases k - index,
{
    if index < k {
        assert(insn_at(decoder, data, offset, addr, index) is Ok);
        law_find_blr(decoder, data, offset, addr, index + 1, limit, k, reg);
    }
}

/// There is no call through a register where none comes before the limit.
pub proof fn law_no_blr(
    decoder: Decoder,
    data: Seq<u8>,
    offset: u64,
    addr: u64,
    index: int,
    limit: int,
)
    requires
        0 <= index,
        forall|i: int|
            index <= i < limit ==> (#[trigger] insn_at(decoder, data, offset, addr, i) matches Ok(
                insn,
            ) && a64::blr_register(insn) is None),
    ensures
        find_blr(decoder, data, offset, addr, index, limit) == Ok::<
            Option<(int, u32)>,
            ReadFailure,
        >(None),
    decreases limit - index,
{
    if index < limit {
        assert(insn_at(decoder, data, offset, addr, index) is Ok);
        law_no_blr(decoder, data, offset, addr, index + 1, limit);
    }
}

/// The first instruction that does not decode stops the search where it comes before the limit and
/// before any call through a register.
pub proof fn law_find_blr_fails(
    decoder: Decoder,
    data: Seq<u8>,
    offset: u64,
    addr: u64,
    index: int,
    limit: int,
    k: int,
)
    requires
        0 <= index <= k < limit,
        insn_at(decoder, data, offset, addr, k) is Err,
        forall|i: int|
            index <= i < k ==> (#[trigger] insn_at(decoder, data, offset, addr, i) matches Ok(insn)
                && a64::blr_register(insn) is None),
    ensures
        find_blr(decoder, data, offset, addr, index, limit) is Err,
        find_blr(decoder, data, offset, addr, index, limit)->Err_0 == insn_at(
            decoder,
            data,
            offset,
            addr,
            k,
        )->Err_0,
    decreases k - index,
{
    if index < k {
        assert(insn_at(decoder, data, offset, addr, index) is Ok);
        law_find_blr_fails(decoder, data, offset, addr, index + 1, limit, k);
    }
}

/// The way to the function that registers the metadata begins at `il2cpp_init`: its second call
/// goes to the runtime's initialisation, and the first call through a register among the first 200
/// instructions there is the one to follow, given the code before it. Code is searched after
/// relocation; the code before the call is taken as it stands in the file.
pub proof fn law_elf_outcome(decoder: Decoder, src: ElfSource)
    ensures
        ({
            let r = elf_outcome(decoder, src);
            let segments = src.object.segments;
            let relocated = relocated_data(src.object, src.data);
            let init = init_symbol(src.object.dynamic_symbols);
            let start = object_file::locate(segments, init.unwrap());
            let call = nth_bl(decoder, relocated.unwrap(), start.unwrap(), init.unwrap(), 0, 1);
            let entry = object_file::locate(segments, call.unwrap());
            let blr = find_blr(
                decoder,
                relocated.unwrap(),
                entry.unwrap(),
                call.unwrap(),
                0,
                200,
            );
            let (found, reg) = blr.unwrap().unwrap();
            let end = entry.unwrap() + 4 * found;
            &&& relocated is Err ==> r is Err && r->Err_0 == relocated->Err_0
            &&& relocated is Ok && init is None ==> r == Err::<RuntimeMetadataView, ReadFailure>(
                ReadFailure::Error(Il2CppBinaryError::MissingIl2CppInit),
            )
            &&& relocated is Ok && init is Some && start is Err ==> r is Err && r->Err_0
                == start->Err_0
            &&& relocated is Ok && init is Some && start is Ok && call is Err ==> r is Err
                && r->Err_0 == call->Err_0
            &&& relocated is Ok && init is Some && start is Ok && call is Ok && entry is Err
                ==> r is Err && r->Err_0 == entry->Err_0
            &&& relocated is Ok && init is Some && start is Ok && call is Ok && entry is Ok
                && blr is Err ==> r is Err && r->Err_0 == blr->Err_0
            &&& relocated is Ok && init is Some && start is Ok && call is Ok && entry is Ok
                && blr is Ok && blr.unwrap() is None ==> r == Err::<
                RuntimeMetadataView,
                ReadFailure,
            >(ReadFailure::Error(Il2CppBinaryError::MissingBlr))
            &&& relocated is Ok && init is Some && start is Ok && call is Ok && entry is Ok
                && blr is Ok && blr.unwrap() is Some && end > src.data.len() ==> r == Err::<
                RuntimeMetadataView,
                ReadFailure,
            >(ReadFailure::Malformed)
            &&& relocated is Ok && init is Some && start is Ok && call is Ok && entry is Ok
                && blr is Ok && blr.unwrap() is Some && end <= src.data.len() ==> r
                == outcome_from_setup(
                decoder,
                src,
                relocated.unwrap(),
                reg,
                CodeView {
                    code: src.data.subrange(entry.unwrap() as int, end),
                    addr: call.unwrap(),
                },
            )
        }),
{
}

/// The function that a call through a register goes to lies where the register points after the
/// code before the call, and is taken to be 28 bytes long.
pub proof fn law_register_code(
    src: ElfSource,
    relocated: Seq<u8>,
    reg: u32,
    insns: Seq<A64InsnView>,
)
    ensures
        ({
            let r = register_code(src, relocated, reg, Ok(insns));
            let img = Image { segments: src.object.segments, bss: src.object.bss, data: relocated };
            let malformed = Err::<CodeView, ReadFailure>(ReadFailure::Malformed);
            match a64::registers_after(img, insns) {
                Err(e) => r == Err::<CodeView, ReadFailure>(e),
                Ok(regs) => if !regs.dom().contains(reg) {
                    r == malformed
                } else {
                    match object_file::locate(src.object.segments, regs[reg]) {
                        Err(e) => r == Err::<CodeView, ReadFailure>(e),
                        Ok(offset) => if offset + 28 > src.data.len() {
                            r == malformed
                        } else {
                            r matches Ok(found) && found.addr == regs[reg] && found.code
                                == src.data.subrange(offset as int, offset + 28)
                        },
                    }
                },
            }
        }),
{
    reveal(register_code);
}

/// The addresses of the code registration and of the metadata registration are what the function
/// that registers them leaves in its first two argument registers, in this order.
pub proof fn law_registrations(
    src: ElfSource,
    relocated: Seq<u8>,
    insns: Seq<A64InsnView>,
)
    ensures
        ({
            let r = registrations(src, relocated, Ok(insns));
            let img = Image { segments: src.object.segments, bss: src.object.bss, data: relocated };
            match a64::registers_after(img, insns) {
                Err(e) => r == Err::<(u64, u64), ReadFailure>(e),
                Ok(regs) => {
                    &&& regs.dom().contains(0) && regs.dom().contains(1) ==> r == Ok::<
                        (u64, u64),
                        ReadFailure,
                    >((regs[0], regs[1]))
                    &&& !regs.dom().contains(0) || !regs.dom().contains(1) ==> r == Err::<
                        (u64, u64),
                        ReadFailure,
                    >(ReadFailure::Malformed)
                },
            }
        }),
{
}

/// The code before the call leads to the function, and the function to the registrations, which
/// are read from the data after relocation.
pub proof fn law_outcome_from_setup(
    decoder: Decoder,
    src: ElfSource,
    relocated: Seq<u8>,
    reg: u32,
    setup: CodeView,
)
    ensures
        ({
            let r = outcome_from_setup(decoder, src, relocated, reg, setup);
            let function = register_code(src, relocated, reg, decoder(setup.code, setup.addr));
            let reply = decoder(function.unwrap().code, function.unwrap().addr);
            let found = registrations(src, relocated, reply);
            &&& function is Err ==> r is Err && r->Err_0 == function->Err_0
            &&& function is Ok && found is Err ==> r is Err && r->Err_0 == found->Err_0
            &&& function is Ok && found is Ok ==> r == runtime_metadata::runtime_metadata_at(
                Image { segments: src.object.segments, bss: src.object.bss, data: relocated },
                found.unwrap().0,
                found.unwrap().1,
                src.counts,
            )
        }),
{
    reveal(outcome_from_setup);
    reveal(metadata_registered);
}

/// Code that does not decode is an error that says why.
pub proof fn law_undecodable(
    src: ElfSource,
    relocated: Seq<u8>,
    reg: u32,
    e: A64DecodeError,
)
    ensures
        register_code(src, relocated, reg, Err(e)) == Err::<CodeView, ReadFailure>(
            ReadFailure::Error(Il2CppBinaryError::Disassemble(e)),
        ),
        registrations(src, relocated, Err(e)) == Err::<(u64, u64), ReadFailure>(
            ReadFailure::Error(Il2CppBinaryError::Disassemble(e)),
        ),
{
    reveal(register_code);
}

/// A step came out as was expected exactly if it asks for the same code in the same state, or ends
/// in the same way.
pub proof fn law_progressed_as(r: ElfProgress, expected: ElfProgressView)
    ensures
        progressed_as(r, expected) <==> {
            ||| r is Decode && expected is Decode && {
                let a = r->Decode_0;
                let b = expected->Decode_0;
                a.relocated@ == b.relocated && a.stage == b.stage && a.code@ == b.code && a.addr
                    == b.addr
            }
            ||| r is Done && expected is Done && runtime_metadata::read_as(
                r->Done_0,
                expected->Done_0,
            )
        },
{
}

/// The value of what a decoder gave is its instructions or its error.
pub proof fn law_reply_view(reply: Result<Vec<A64Insn>, A64DecodeError>)
    ensures
        match reply {
            Err(e) => reply_view(reply) == Err::<Seq<A64InsnView>, A64DecodeError>(e),
            Ok(insns) => reply_view(reply) matches Ok(views) && views.len() == insns@.len()
                && forall|i: int|
                0 <= i < views.len() ==> (#[trigger] views[i]).op == insns@[i].op
                    && views[i].operands == insns@[i].operands@,
        },
{
}

/// What is read of an ELF file besides the instructions is the file, its data and the number of
/// fields of each type definition.
pub proof fn law_source(elf: ObjectFile, data: Seq<u8>, global_metadata: GlobalMetadata)
    ensures
        source_of(elf, data, global_metadata).object == elf@,
        source_of(elf, data, global_metadata).data == data,
        source_of(elf, data, global_metadata).counts.len()
            == global_metadata.type_definitions@.len(),
        forall|i: int|
            0 <= i < global_metadata.type_definitions@.len() ==> #[trigger] source_of(
                elf,
                data,
                global_metadata,
            ).counts[i] == global_metadata.type_definitions@[i].field_count,
{
}

// ---------------------------------------------------------------------------------------------
// Taking the steps
// ---------------------------------------------------------------------------------------------

/// The value of what a decoder gave.
pub open spec fn reply_view(reply: Result<Vec<A64Insn>, A64DecodeError>) -> Result<
    Seq<A64InsnView>,
    A64DecodeError,
> {
    match reply {
        Ok(insns) => Ok(a64::insn_views(insns@)),
        Err(e) => Err(e),
    }
}

/// The instructions that a decoder gave.
fn try_disassemble(reply: Result<Vec<A64Insn>, A64DecodeError>) -> (r: Result<
    Vec<A64Insn>,
    ReadFailure,
>)
    ensures
        match r {
            Ok(insns) => all_insns(reply_view(reply)) == Ok::<Seq<A64InsnView>, ReadFailure>(
                a64::insn_views(insns@),
            ),
            Err(e) => all_insns(reply_view(reply)) == Err::<Seq<A64InsnView>, ReadFailure>(e),
        },
{
    match reply {
        Ok(insns) => Ok(insns),
        Err(e) => Err(ReadFailure::Error(Il2CppBinaryError::Disassemble(e))),
    }
}

/// Finds the address of the first dynamic symbol that is named `il2cpp_init`.
fn find_init(elf: &ObjectFile) -> (r: Option<u64>)
    ensures
        r == init_symbol(elf@.dynamic_symbols),
{
    let name: String = "il2cpp_init".to_owned();
    let ghost symbols = elf@.dynamic_symbols;
    let mut i: usize = 0;
    assert(symbols.skip(0) =~= symbols);
    while i < elf.dynamic_symbols.len()
        invariant
            i <= elf.dynamic_symbols@.len(),
            symbols == elf@.dynamic_symbols,
            name@ == "il2cpp_init"@,
            init_symbol(symbols) == init_symbol(symbols.skip(i as int)),
        decreases elf.dynamic_symbols@.len() - i,
    {
        let symbol = &elf.dynamic_symbols[i];
        proof {
            assert(symbols.skip(i as int)[0] == symbol@);
            assert(symbols.skip(i as int).drop_first() =~= symbols.skip(i + 1));
        }
        if let Some(symbol_name) = &symbol.name {
            if *symbol_name == name {
                return Some(symbol.address);
            }
        }
        i += 1;
    }
    None
}

/// Asks for the word at position `index` of the code at `offset` and `addr`.
fn request_word(
    relocated: Vec<u8>,
    stage: ElfStage,
    offset: u64,
    addr: u64,
    index: u64,
) -> (r: ElfProgress)
    ensures
        progressed_as(r, ask_word(relocated@, stage, offset, addr, index as int)),
{
    let len: u64 = relocated.len() as u64;
    if index > u64::MAX / 4 {
        return ElfProgress::Done(Err(ReadFailure::Malformed));
    }
    let distance: u64 = index * 4;
    let start: u64 = match offset.checked_add(distance) {
        Some(start) => start,
        None => return ElfProgress::Done(Err(ReadFailure::Malformed)),
    };
    let word_addr: u64 = match addr.checked_add(distance) {
        Some(word_addr) => word_addr,
        None => return ElfProgress::Done(Err(ReadFailure::Malformed)),
    };
    if len < 4 || start > len - 4 {
        return ElfProgress::Done(Err(ReadFailure::Malformed));
    }
    let code: Vec<u8> = slice_to_vec(&relocated[start as usize..start as usize + 4]);
    ElfProgress::Decode(ElfReader { relocated, stage, code, addr: word_addr })
}

/// The code of the runtime's initialisation before the `blr` at position `index`.
fn request_setup(
    relocated: Vec<u8>,
    data: &[u8],
    blr_reg: u32,
    runtime_init: u64,
    offset: u64,
    index: u64,
) -> (r: ElfProgress)
    ensures
        forall|src: ElfSource|
            src.data == data@ ==> progressed_as(
                r,
                ask_code(
                    relocated@,
                    ElfStage::Setup { blr_reg },
                    #[trigger] setup_code(src, runtime_init, offset, index as int),
                ),
            ),
{
    let len: u64 = data.len() as u64;
    if index > u64::MAX / 4 {
        return ElfProgress::Done(Err(ReadFailure::Malformed));
    }
    match offset.checked_add(index * 4) {
        Some(end) => {
            if end > len {
                return ElfProgress::Done(Err(ReadFailure::Malformed));
            }
            let code: Vec<u8> = slice_to_vec(&data[offset as usize..end as usize]);
            ElfProgress::Decode(
                ElfReader {
                    relocated,
                    stage: ElfStage::Setup { blr_reg },
                    code,
                    addr: runtime_init,
                },
            )
        },
        None => ElfProgress::Done(Err(ReadFailure::Malformed)),
    }
}

/// What is read besides the instructions.
pub open spec fn source_of(
    elf: ObjectFile,
    data: Seq<u8>,
    global_metadata: GlobalMetadata,
) -> ElfSource {
    ElfSource {
        object: elf@,
        data,
        counts: metadata_registration::field_counts(global_metadata.type_definitions@),
    }
}

impl ElfReader {
    /// Takes the instructions of `il2cpp_init` on the way to the runtime's initialisation.
    fn nth_bl(
        self,
        elf: &ObjectFile,
        addr: u64,
        offset: u64,
        index: u64,
        skip: u64,
        reply: Result<Vec<A64Insn>, A64DecodeError>,
    ) -> (r: ElfProgress)
        requires
            self.stage == (ElfStage::Init { addr, offset, index, skip }),
        ensures
            forall|src: ElfSource|
                src.object == elf@ ==> progressed_as(
                    r,
                    #[trigger] elf_step(src, self@, reply_view(reply)),
                ),
    {
        let insns: Vec<A64Insn> = match try_disassemble(reply) {
            Ok(insns) => insns,
            Err(e) => return ElfProgress::Done(Err(e)),
        };
        if insns.len() == 0 {
            return ElfProgress::Done(Err(ReadFailure::Malformed));
        }
        let mut skip_next: u64 = skip;
        if let Some(target) = insns[0].bl_target() {
            if skip == 0 {
                return match try_vaddr_conv(elf, target) {
                    Ok(offset) => request_word(
                        self.relocated,
                        ElfStage::RuntimeInit { addr: target, offset, index: 0 },
                        offset,
                        target,
                        0,
                    ),
                    Err(e) => ElfProgress::Done(Err(e)),
                };
            }
            skip_next = skip - 1;
        }
        assert(self.relocated.len() <= usize::MAX);
        if index == u64::MAX {
            return ElfProgress::Done(Err(ReadFailure::Malformed));
        }
        let stage = ElfStage::Init { addr, offset, index: index + 1, skip: skip_next };
        request_word(self.relocated, stage, offset, addr, index + 1)
    }

    /// Takes the instructions of the runtime's initialisation on the way to its first `blr`.
    fn find_blr(
        self,
        data: &[u8],
        addr: u64,
        offset: u64,
        index: u64,
        reply: Result<Vec<A64Insn>, A64DecodeError>,
    ) -> (r: ElfProgress)
        requires
            self.stage == (ElfStage::RuntimeInit { addr, offset, index }),
        ensures
            forall|src: ElfSource|
                src.data == data@ ==> progressed_as(
                    r,
                    #[trigger] elf_step(src, self@, reply_view(reply)),
                ),
    {
        let insns: Vec<A64Insn> = match try_disassemble(reply) {
            Ok(insns) => insns,
            Err(e) => return ElfProgress::Done(Err(e)),
        };
        if insns.len() == 0 {
            return ElfProgress::Done(Err(ReadFailure::Malformed));
        }
        match insns[0].blr_register() {
            Some(blr_reg) => request_setup(self.relocated, data, blr_reg, addr, offset, index),
            None => {
                if index >= BLR_LIMIT - 1 {
                    return ElfProgress::Done(
                        Err(ReadFailure::Error(Il2CppBinaryError::MissingBlr)),
                    );
                }
                let stage = ElfStage::RuntimeInit { addr, offset, index: index + 1 };
                request_word(self.relocated, stage, offset, addr, index + 1)
            },
        }
    }

    /// Takes the instructions before the `blr`, and goes on to the function that it calls.
    fn enter_function(
        self,
        elf: &ObjectFile,
        data: &[u8],
        blr_reg: u32,
        reply: Result<Vec<A64Insn>, A64DecodeError>,
    ) -> (r: ElfProgress)
        requires
            self.stage == (ElfStage::Setup { blr_reg }),
        ensures
            forall|src: ElfSource|
                src.object == elf@ && src.data == data@ ==> progressed_as(
                    r,
                    #[trigger] elf_step(src, self@, reply_view(reply)),
                ),
    {
        proof {
            reveal(register_code);
        }
        let insns: Vec<A64Insn> = match try_disassemble(reply) {
            Ok(insns) => insns,
            Err(e) => return ElfProgress::Done(Err(e)),
        };
        let regs = match analyze_reg_rel(elf, self.relocated.as_slice(), &insns) {
            Ok(regs) => regs,
            Err(e) => return ElfProgress::Done(Err(e)),
        };
        let addr: u64 = match known_value(&regs, blr_reg) {
            Some(addr) => addr,
            None => return ElfProgress::Done(Err(ReadFailure::Malformed)),
        };
        let offset: u64 = match try_vaddr_conv(elf, addr) {
            Ok(offset) => offset,
            Err(e) => return ElfProgress::Done(Err(e)),
        };
        let len: u64 = data.len() as u64;
        if len < REGISTER_LEN || offset > len - REGISTER_LEN {
            return ElfProgress::Done(Err(ReadFailure::Malformed));
        }
        let end: u64 = offset + REGISTER_LEN;
        let code: Vec<u8> = slice_to_vec(&data[offset as usize..end as usize]);
        ElfProgress::Decode(
            ElfReader { relocated: self.relocated, stage: ElfStage::Register, code, addr },
        )
    }

    /// Takes the instructions of the function that registers the metadata, and reads it.
    fn register(
        self,
        elf: &ObjectFile,
        global_metadata: &GlobalMetadata,
        reply: Result<Vec<A64Insn>, A64DecodeError>,
    ) -> (r: Result<RuntimeMetadata, ReadFailure>)
        ensures
            forall|src: ElfSource|
                src.object == elf@ && src.counts == metadata_registration::field_counts(
                    global_metadata.type_definitions@,
                ) ==> runtime_metadata::read_as(
                    r,
                    #[trigger] metadata_registered(src, self.relocated@, reply_view(reply)),
                ),
    {
        proof {
            reveal(metadata_registered);
        }
        let insns: Vec<A64Insn> = match try_disassemble(reply) {
            Ok(insns) => insns,
            Err(e) => return Err(e),
        };
        let regs = match analyze_reg_rel(elf, self.relocated.as_slice(), &insns) {
            Ok(regs) => regs,
            Err(e) => return Err(e),
        };
        match (known_value(&regs, X0), known_value(&regs, X1)) {
            (Some(code_addr), Some(metadata_addr)) => RuntimeMetadata::read_registrations(
                elf,
                self.relocated.as_slice(),
                code_addr,
                metadata_addr,
                global_metadata,
            ),
            _ => Err(ReadFailure::Malformed),
        }
    }

    /// Goes on with the instructions of the code that was asked for. The file and its data are
    /// those that reading began with.
    pub fn resume(
        self,
        elf: &ObjectFile,
        data: &[u8],
        global_metadata: &GlobalMetadata,
        reply: Result<Vec<A64Insn>, A64DecodeError>,
    ) -> (r: ElfProgress)
        ensures
            progressed_as(
                r,
                elf_step(source_of(*elf, data@, *global_metadata), self@, reply_view(reply)),
            ),
    {
        match self.stage {
            ElfStage::Init { addr, offset, index, skip } => self.nth_bl(
                elf,
                addr,
                offset,
                index,
                skip,
                reply,
            ),
            ElfStage::RuntimeInit { addr, offset, index } => self.find_blr(
                data,
                addr,
                offset,
                index,
                reply,
            ),
            ElfStage::Setup { blr_reg } => self.enter_function(elf, data, blr_reg, reply),
            ElfStage::Register => ElfProgress::Done(self.register(elf, global_metadata, reply)),
        }
    }
}

impl RuntimeMetadata {
    /// Begins to read the runtime metadata of an ELF file.
    pub fn read_elf_runtime(elf: &ObjectFile, data: &[u8]) -> (r: ElfProgress)
        ensures
            progressed_as(r, elf_start(elf@, data@)),
    {
        let relocated: Vec<u8> = match process_relocations(elf, data) {
            Ok(relocated) => relocated,
            Err(e) => return ElfProgress::Done(Err(e)),
        };
        let addr: u64 = match find_init(elf) {
            Some(addr) => addr,
            None => return ElfProgress::Done(
                Err(ReadFailure::Error(Il2CppBinaryError::MissingIl2CppInit)),
            ),
        };
        match try_vaddr_conv(elf, addr) {
            Ok(offset) => request_word(
                relocated,
                ElfStage::Init { addr, offset, index: 0, skip: INIT_CALLS_BEFORE },
                offset,
                addr,
                0,
            ),
            Err(e) => ElfProgress::Done(Err(e)),
        }
    }

    /// Begins to read the runtime metadata of raw ELF data.
    pub fn read_elf(data: &[u8]) -> (r: Result<(ObjectFile, ElfProgress), Il2CppBinaryError>)
        ensures
            match r {
                Ok((elf, progress)) => {
                    &&& object_file::object_recognized(data@)
                    &&& elf@ == object_file::object_file(data@)
                    &&& progressed_as(progress, elf_start(elf@, data@))
                },
                Err(e) => !object_file::object_recognized(data@) && e == Il2CppBinaryError::Object,
            },
    {
        match ObjectFile::parse(data) {
            Ok(elf) => {
                let progress = Self::read_elf_runtime(&elf, data);
                Ok((elf, progress))
            },
            Err(e) => Err(e),
        }
    }
}

} // verus!
