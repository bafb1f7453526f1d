//! What is read of an object file: its segments, symbols, exports and relocations, and where
//! in the file a virtual address lies.

use object::read::Error as ObjectError;
use object::{
    File, Object, ObjectSection, ObjectSegment, ObjectSymbol, RelocationEncoding, RelocationTarget,
};
use vstd::prelude::*;

use crate::errors::{Il2CppBinaryError, ReadFailure};

verus! {

/// A loadable segment: `size` bytes in memory from `address` on, which stand in the file from
/// `file_offset` on.
#[derive(Clone, Copy, PartialEq, Eq, Debug, Structural)]
pub struct Segment {
    pub address: u64,
    pub size: u64,
    pub file_offset: u64,
}

/// A section in memory.
#[derive(Clone, Copy, PartialEq, Eq, Debug, Structural)]
pub struct Section {
    pub address: u64,
    pub size: u64,
}

/// A dynamic symbol. The name is missing where it could not be read.
#[derive(Debug)]
pub struct Symbol {
    pub name: Option<String>,
    pub address: u64,
}

/// The mathematical value of a [`Symbol`].
pub struct SymbolView {
    pub name: Option<Seq<char>>,
    pub address: u64,
}

impl View for Symbol {
    type V = SymbolView;

    open spec fn view(&self) -> SymbolView {
        SymbolView {
            name: match self.name {
                Some(name) => Some(name@),
                None => None,
            },
            address: self.address,
        }
    }
}

/// An exported symbol.
#[derive(Debug)]
pub struct Export {
    pub name: Vec<u8>,
    pub address: u64,
}

/// The mathematical value of an [`Export`].
pub struct ExportView {
    pub name: Seq<u8>,
    pub address: u64,
}

impl View for Export {
    type V = ExportView;

    open spec fn view(&self) -> ExportView {
        ExportView { name: self.name@, address: self.address }
    }
}

/// How a relocation is encoded in its place.
#[derive(Clone, Copy, PartialEq, Eq, Debug, Structural)]
pub enum Encoding {
    Generic,
    Other,
}

/// What a relocation is relative to.
#[derive(Clone, Copy, PartialEq, Eq, Debug, Structural)]
pub enum Target {
    Symbol,
    Section,
    Absolute,
    Other,
}

/// A dynamic relocation of the place at `address`.
#[derive(Clone, Copy, PartialEq, Eq, Debug, Structural)]
pub struct DynamicRelocation {
    pub address: u64,
    pub encoding: Encoding,
    pub target: Target,
    pub addend: i64,
}

/// The parts of an object file that runtime metadata is found by.
#[derive(Debug)]
pub struct ObjectFile {
    pub segments: Vec<Segment>,
    /// The `.bss` section.
    pub bss: Option<Section>,
    pub dynamic_symbols: Vec<Symbol>,
    pub dynamic_relocations: Option<Vec<DynamicRelocation>>,
    /// The exports, unless they could not be read.
    pub exports: Option<Vec<Export>>,
}

/// The mathematical value of an [`ObjectFile`].
pub struct ObjectFileView {
    pub segments: Seq<Segment>,
    pub bss: Option<Section>,
    pub dynamic_symbols: Seq<SymbolView>,
    pub dynamic_relocations: Option<Seq<DynamicRelocation>>,
    pub exports: Option<Seq<ExportView>>,
}

/// The values of a list of symbols.
pub open spec fn symbol_views(symbols: Seq<Symbol>) -> Seq<SymbolView> {
    symbols.map_values(|s: Symbol| s@)
}

/// The values of a list of exports.
pub open spec fn export_views(exports: Seq<Export>) -> Seq<ExportView> {
    exports.map_values(|e: Export| e@)
}

impl View for ObjectFile {
    type V = ObjectFileView;

    open spec fn view(&self) -> ObjectFileView {
        ObjectFileView {
            segments: self.segments@,
            bss: self.bss,
            dynamic_symbols: symbol_views(self.dynamic_symbols@),
            dynamic_relocations: match self.dynamic_relocations {
                Some(relocations) => Some(relocations@),
                None => None,
            },
            exports: match self.exports {
                Some(exports) => Some(export_views(exports@)),
                None => None,
            },
        }
    }
}

/// The error of the `object` crate.
#[verifier::external_type_specification]
#[verifier::external_body]
pub struct ExObjectError(object::read::Error);

/// Whether `object::File::parse` accepts these bytes.
pub uninterp spec fn object_recognized(data: Seq<u8>) -> bool;

/// What `object::Object::segments` lists of the file that these bytes hold.
pub uninterp spec fn object_segments(data: Seq<u8>) -> Seq<Segment>;

/// What `object::Object::section_by_name` finds in the file that these bytes hold.
pub uninterp spec fn object_section(data: Seq<u8>, name: Seq<char>) -> Option<Section>;

/// What `object::Object::dynamic_symbols` lists of the file that these bytes hold.
pub uninterp spec fn object_dynamic_symbols(data: Seq<u8>) -> Seq<SymbolView>;

/// What `object::Object::dynamic_relocations` lists of the file that these bytes hold.
pub uninterp spec fn object_dynamic_relocations(data: Seq<u8>) -> Option<Seq<DynamicRelocation>>;

/// What `object::Object::exports` lists of the file that these bytes hold; nothing where it
/// fails.
pub uninterp spec fn object_exports(data: Seq<u8>) -> Option<Seq<ExportView>>;

/// Calls `object::File::parse` and `object::Object::segments`. It fails exactly where the bytes
/// are not recognized; otherwise each segment keeps its address, its size in memory and where
/// it starts in the file.
#[verifier::external_body]
fn file_segments(data: &[u8]) -> (r: Result<Vec<Segment>, ObjectError>)
    ensures
        r is Ok <==> object_recognized(data@),
        r matches Ok(segments) ==> segments@ == object_segments(data@),
{
    let file = File::parse(data)?;
    let list = file.segments().map(|s| Segment {
        address: s.address(),
        size: s.size(),
        file_offset: s.file_range().0,
    });
    Ok(list.collect())
}

/// Calls `object::File::parse` and `object::Object::section_by_name`. It fails exactly where
/// the bytes are not recognized; otherwise it gives the address and the size of the section.
#[verifier::external_body]
fn file_section(data: &[u8], name: &str) -> (r: Result<Option<Section>, ObjectError>)
    ensures
        r is Ok <==> object_recognized(data@),
        r matches Ok(section) ==> section == object_section(data@, name@),
{
    let file = File::parse(data)?;
    let found = file.section_by_name(name);
    Ok(found.map(|s| Section { address: s.address(), size: s.size() }))
}

/// Calls `object::File::parse` and `object::Object::dynamic_symbols`. It fails exactly where
/// the bytes are not recognized; otherwise each symbol keeps its address and, where it can be
/// read, its name.
#[verifier::external_body]
fn file_dynamic_symbols(data: &[u8]) -> (r: Result<Vec<Symbol>, ObjectError>)
    ensures
        r is Ok <==> object_recognized(data@),
        r matches Ok(symbols) ==> symbol_views(symbols@) == object_dynamic_symbols(data@),
{
    let file = File::parse(data)?;
    let list = file.dynamic_symbols().map(|s| Symbol {
        name: s.name().ok().map(String::from),
        address: s.address(),
    });
    Ok(list.collect())
}

/// Calls `object::File::parse` and `object::Object::dynamic_relocations`. It fails exactly
/// where the bytes are not recognized; otherwise each relocation keeps the address of its
/// place, its encoding, its target and its addend.
#[verifier::external_body]
fn file_dynamic_relocations(data: &[u8]) -> (r: Result<Option<Vec<DynamicRelocation>>, ObjectError>)
    ensures
        r is Ok <==> object_recognized(data@),
        r matches Ok(Some(list)) ==> object_dynamic_relocations(data@) == Some(list@),
        r matches Ok(None) ==> object_dynamic_relocations(data@) is None,
{
    let file = File::parse(data)?;
    Ok(file.dynamic_relocations().map(|list| list.map(|(address, rel)| DynamicRelocation {
        address,
        encoding: match rel.encoding() {
            RelocationEncoding::Generic => Encoding::Generic,
            _ => Encoding::Other,
        },
        target: match rel.target() {
            RelocationTarget::Symbol(_) => Target::Symbol,
            RelocationTarget::Section(_) => Target::Section,
            RelocationTarget::Absolute => Target::Absolute,
            _ => Target::Other,
        },
        addend: rel.addend(),
    }).collect()))
}

/// Calls `object::File::parse` and `object::Object::exports`. It fails exactly where the bytes
/// are not recognized; otherwise each export keeps its name and its address.
#[verifier::external_body]
fn file_exports(data: &[u8]) -> (r: Result<Option<Vec<Export>>, ObjectError>)
    ensures
        r is Ok <==> object_recognized(data@),
        r matches Ok(Some(list)) ==> object_exports(data@) == Some(export_views(list@)),
        r matches Ok(None) ==> object_exports(data@) is None,
{
    let file = File::parse(data)?;
    Ok(file.exports().ok().map(|list| list.iter().map(|e| Export {
        name: e.name().to_vec(),
        address: e.address(),
    }).collect()))
}

/// The object file that `data` holds.
pub open spec fn object_file(data: Seq<u8>) -> ObjectFileView {
    ObjectFileView {
        segments: object_segments(data),
        bss: object_section(data, ".bss"@),
        dynamic_symbols: object_dynamic_symbols(data),
        dynamic_relocations: object_dynamic_relocations(data),
        exports: object_exports(data),
    }
}

impl ObjectFile {
    /// Parses an object file.
    pub fn parse(data: &[u8]) -> (r: Result<ObjectFile, Il2CppBinaryError>)
        ensures
            match r {
                Ok(file) => object_recognized(data@) && file@ == object_file(data@),
                Err(e) => !object_recognized(data@) && e == Il2CppBinaryError::Object,
            },
    {
        let segments = match file_segments(data) {
            Ok(segments) => segments,
            Err(_) => return Err(Il2CppBinaryError::Object),
        };
        let bss = match file_section(data, ".bss") {
            Ok(bss) => bss,
            Err(_) => return Err(Il2CppBinaryError::Object),
        };
        let dynamic_symbols = match file_dynamic_symbols(data) {
            Ok(symbols) => symbols,
            Err(_) => return Err(Il2CppBinaryError::Object),
        };
        let dynamic_relocations = match file_dynamic_relocations(data) {
            Ok(relocations) => relocations,
            Err(_) => return Err(Il2CppBinaryError::Object),
        };
        let exports = match file_exports(data) {
            Ok(exports) => exports,
            Err(_) => return Err(Il2CppBinaryError::Object),
        };
        Ok(ObjectFile { segments, bss, dynamic_symbols, dynamic_relocations, exports })
    }
}

/// Whether the segment holds the address.
pub open spec fn segment_holds(segment: Segment, vaddr: u64) -> bool {
    segment.address <= vaddr && vaddr - segment.address < segment.size
}

/// The file offset of `vaddr` by the first segment that holds it.
pub open spec fn file_offset(segments: Seq<Segment>, vaddr: u64) -> Option<int>
    decreases segments.len(),
{
    if segments.len() == 0 {
        None
    } else if segment_holds(segments[0], vaddr) {
        Some(segments[0].file_offset + (vaddr - segments[0].address))
    } else {
        file_offset(segments.drop_first(), vaddr)
    }
}

/// An address has a file offset exactly if some segment holds it.
pub proof fn law_offset_exists(segments: Seq<Segment>, vaddr: u64)
    ensures
        file_offset(segments, vaddr) is Some <==> exists|k: int|
            0 <= k < segments.len() && segment_holds(#[trigger] segments[k], vaddr),
    decreases segments.len(),
{
    if segments.len() > 0 {
        let rest = segments.drop_first();
        law_offset_exists(rest, vaddr);
        if exists|k: int| 0 <= k < rest.len() && segment_holds(#[trigger] rest[k], vaddr) {
            let k = choose|k: int| 0 <= k < rest.len() && segment_holds(#[trigger] rest[k], vaddr);
            assert(segment_holds(segments[k + 1], vaddr));
        }
        if exists|k: int| 0 <= k < segments.len() && segment_holds(#[trigger] segments[k], vaddr) {
            let k = choose|k: int|
                0 <= k < segments.len() && segment_holds(#[trigger] segments[k], vaddr);
            if k > 0 {
                assert(segment_holds(rest[k - 1], vaddr));
            }
        }
    }
}

/// The first segment that holds an address says where it lies in the file.
pub proof fn law_first_segment_decides(segments: Seq<Segment>, k: int, vaddr: u64)
    requires
        0 <= k < segments.len(),
        segment_holds(segments[k], vaddr),
        forall|j: int| 0 <= j < k ==> !segment_holds(#[trigger] segments[j], vaddr),
    ensures
        file_offset(segments, vaddr) == Some(
            segments[k].file_offset + (vaddr - segments[k].address),
        ),
    decreases k,
{
    if k > 0 {
        assert(!segment_holds(segments[0], vaddr));
        let rest = segments.drop_first();
        assert forall|j: int| 0 <= j < k - 1 implies !segment_holds(#[trigger] rest[j], vaddr) by {
            assert(!segment_holds(segments[j + 1], vaddr));
        }
        law_first_segment_decides(rest, k - 1, vaddr);
    }
}

/// Within a segment, file offsets are as far apart as addresses.
pub proof fn law_offsets_keep_distance(segments: Seq<Segment>, k: int, a: u64, b: u64)
    requires
        0 <= k < segments.len(),
        segment_holds(segments[k], a),
        segment_holds(segments[k], b),
        forall|j: int| 0 <= j < k ==> !segment_holds(#[trigger] segments[j], a),
        forall|j: int| 0 <= j < k ==> !segment_holds(#[trigger] segments[j], b),
    ensures
        file_offset(segments, a) is Some,
        file_offset(segments, b) is Some,
        file_offset(segments, b).unwrap() - file_offset(segments, a).unwrap() == b - a,
{
    law_first_segment_decides(segments, k, a);
    law_first_segment_decides(segments, k, b);
}

/// Where `vaddr` lies in the file, or why that cannot be told.
pub open spec fn locate(segments: Seq<Segment>, vaddr: u64) -> Result<u64, ReadFailure> {
    match file_offset(segments, vaddr) {
        Some(offset) => if offset <= u64::MAX {
            Ok(offset as u64)
        } else {
            Err(ReadFailure::Malformed)
        },
        None => Err(ReadFailure::Error(Il2CppBinaryError::VAddrConv(vaddr))),
    }
}

/// Whether the `.bss` section holds the address.
pub open spec fn in_bss(bss: Option<Section>, vaddr: u64) -> bool {
    match bss {
        Some(bss) => bss.address <= vaddr && vaddr - bss.address < bss.size,
        None => false,
    }
}

/// An address lies where the first segment that holds it says: as far behind the segment's start
/// in the file as it is behind the segment's start in memory.
pub proof fn law_locate(segments: Seq<Segment>, k: int, vaddr: u64)
    requires
        0 <= k < segments.len(),
        segments[k].address <= vaddr < segments[k].address + segments[k].size,
        forall|j: int|
            0 <= j < k ==> !((#[trigger] segments[j]).address <= vaddr < segments[j].address
                + segments[j].size),
    ensures
        ({
            let offset = segments[k].file_offset + vaddr - segments[k].address;
            locate(segments, vaddr) == if offset < 0x1_0000_0000_0000_0000 {
                Ok::<u64, ReadFailure>(offset as u64)
            } else {
                Err::<u64, ReadFailure>(ReadFailure::Malformed)
            }
        }),
{
    assert forall|j: int| 0 <= j < k implies !segment_holds(#[trigger] segments[j], vaddr) by {
        assert(!(segments[j].address <= vaddr < segments[j].address + segments[j].size));
    }
    law_first_segment_decides(segments, k, vaddr);
}

/// An address that no segment holds is an error, and no other address is.
pub proof fn law_locate_fails(segments: Seq<Segment>, vaddr: u64)
    ensures
        locate(segments, vaddr) == Err::<u64, ReadFailure>(
            ReadFailure::Error(Il2CppBinaryError::VAddrConv(vaddr)),
        ) <==> forall|k: int|
            0 <= k < segments.len() ==> !((#[trigger] segments[k]).address <= vaddr
                < segments[k].address + segments[k].size),
        locate(segments, vaddr) matches Err(e) ==> e == ReadFailure::Malformed || e
            == ReadFailure::Error(Il2CppBinaryError::VAddrConv(vaddr)),
{
    law_offset_exists(segments, vaddr);
    if file_offset(segments, vaddr) is Some {
        let k = choose|k: int|
            0 <= k < segments.len() && segment_holds(#[trigger] segments[k], vaddr);
        assert(segments[k].address <= vaddr < segments[k].address + segments[k].size);
    } else {
        assert forall|k: int| 0 <= k < segments.len() implies !((
        #[trigger] segments[k]).address <= vaddr < segments[k].address + segments[k].size) by {
            assert(!segment_holds(segments[k], vaddr));
        }
    }
}

/// More segments behind the others change nothing for an address that one of the others holds.
pub proof fn law_locate_ignores_later_segments(
    segments: Seq<Segment>,
    more: Seq<Segment>,
    vaddr: u64,
)
    requires
        locate(segments, vaddr) != Err::<u64, ReadFailure>(
            ReadFailure::Error(Il2CppBinaryError::VAddrConv(vaddr)),
        ),
    ensures
        locate(segments + more, vaddr) == locate(segments, vaddr),
    decreases segments.len(),
{
    if segments.len() > 0 {
        assert((segments + more).drop_first() =~= segments.drop_first() + more);
        assert((segments + more)[0] == segments[0]);
        if !segment_holds(segments[0], vaddr) {
            law_locate_ignores_later_segments(segments.drop_first(), more, vaddr);
        }
    }
}

/// The `.bss` section holds the addresses from its start up to its end.
pub proof fn law_in_bss(bss: Section, vaddr: u64)
    ensures
        in_bss(Some(bss), vaddr) <==> bss.address <= vaddr < bss.address + bss.size,
        !in_bss(None, vaddr),
{
}

/// An object file is made of what its bytes are found to hold; its `.bss` is the section of that
/// name.
pub proof fn law_object_file_parts(data: Seq<u8>, file: ObjectFile)
    requires
        file@ == object_file(data),
    ensures
        file.segments@ == object_segments(data),
        file.bss == object_section(data, ".bss"@),
        file.dynamic_symbols@.len() == object_dynamic_symbols(data).len(),
        forall|i: int|
            0 <= i < file.dynamic_symbols@.len() ==> {
                &&& (#[trigger] file.dynamic_symbols@[i]).address == object_dynamic_symbols(
                    data,
                )[i].address
                &&& file.dynamic_symbols@[i].name is Some <==> object_dynamic_symbols(
                    data,
                )[i].name is Some
                &&& file.dynamic_symbols@[i].name matches Some(name) ==> Some(name@)
                    == object_dynamic_symbols(data)[i].name
            },
        file.dynamic_relocations is Some <==> object_dynamic_relocations(data) is Some,
        file.dynamic_relocations matches Some(list) ==> Some(list@) == object_dynamic_relocations(
            data,
        ),
        file.exports is Some <==> object_exports(data) is Some,
        file.exports matches Some(list) ==> {
            let found = object_exports(data).unwrap();
            &&& list@.len() == found.len()
            &&& forall|i: int|
                0 <= i < found.len() ==> (#[trigger] list@[i]).name@ == found[i].name
                    && list@[i].address == found[i].address
        },
{
    let symbols = file.dynamic_symbols@;
    assert forall|i: int| 0 <= i < symbols.len() implies {
        &&& (#[trigger] symbols[i]).address == object_dynamic_symbols(data)[i].address
        &&& symbols[i].name is Some <==> object_dynamic_symbols(data)[i].name is Some
        &&& symbols[i].name matches Some(name) ==> Some(name@) == object_dynamic_symbols(
            data,
        )[i].name
    } by {
        assert(symbol_views(symbols)[i] == symbols[i]@);
    }
    if let Some(list) = file.exports {
        assert(export_views(list@) == object_exports(data).unwrap());
        assert forall|i: int| 0 <= i < list@.len() implies (#[trigger] list@[i]).name@
            == object_exports(data).unwrap()[i].name && list@[i].address == object_exports(
            data,
        ).unwrap()[i].address by {
            assert(export_views(list@)[i] == list@[i]@);
        }
    }
}

/// Whether `vaddr` lies in the `.bss` section.
pub fn addr_in_bss(object_file: &ObjectFile, vaddr: u64) -> (r: bool)
    ensures
        r == in_bss(object_file.bss, vaddr),
{
    match object_file.bss {
        Some(bss) => bss.address <= vaddr && vaddr - bss.address < bss.size,
        None => false,
    }
}

/// Finds the first segment that holds `vaddr`, and how far into it the address lies.
fn find_segment(segments: &Vec<Segment>, vaddr: u64) -> (r: Option<(u64, u64)>)
    ensures
        match r {
            Some((start, delta)) => file_offset(segments@, vaddr) == Some(start + delta),
            None => file_offset(segments@, vaddr) is None,
        },
{
    let mut i: usize = 0;
    assert(segments@.skip(0) =~= segments@);
    while i < segments.len()
        invariant
            i <= segments@.len(),
            file_offset(segments@, vaddr) == file_offset(segments@.skip(i as int), vaddr),
        decreases segments@.len() - i,
    {
        let segment: Segment = segments[i];
        assert(segments@.skip(i as int)[0] == segment);
        assert(segments@.skip(i as int).drop_first() =~= segments@.skip(i + 1));
        if segment.address <= vaddr {
            let delta: u64 = vaddr - segment.address;
            if delta < segment.size {
                return Some((segment.file_offset, delta));
            }
        }
        i += 1;
    }
    None
}

/// Converts a virtual address to a file offset.
pub fn vaddr_conv(object_file: &ObjectFile, vaddr: u64) -> (r: Result<u64, Il2CppBinaryError>)
    requires
        file_offset(object_file.segments@, vaddr) matches Some(offset) ==> offset <= u64::MAX,
    ensures
        match r {
            Ok(offset) => file_offset(object_file.segments@, vaddr) == Some(offset as int),
            Err(e) => file_offset(object_file.segments@, vaddr) is None && e
                == Il2CppBinaryError::VAddrConv(vaddr),
        },
{
    match find_segment(&object_file.segments, vaddr) {
        Some((start, delta)) => Ok(start + delta),
        None => Err(Il2CppBinaryError::VAddrConv(vaddr)),
    }
}

/// Converts a virtual address to a file offset, and says so where the offset has no number.
pub fn try_vaddr_conv(object_file: &ObjectFile, vaddr: u64) -> (r: Result<u64, ReadFailure>)
    ensures
        r == locate(object_file.segments@, vaddr),
{
    match find_segment(&object_file.segments, vaddr) {
        Some((start, delta)) => match start.checked_add(delta) {
            Some(offset) => Ok(offset),
            None => Err(ReadFailure::Malformed),
        },
        None => Err(ReadFailure::Error(Il2CppBinaryError::VAddrConv(vaddr))),
    }
}

} // verus!
