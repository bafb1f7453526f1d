//! The metadata registration, which lists the types of a program and the generic instantiations
//! among them.

use std::collections::HashMap;

use vstd::prelude::*;

use crate::bytes;
use crate::bytes::Cursor;
use crate::errors::{Il2CppBinaryError, ReadFailure};
use crate::global_metadata::{
    GenericParameterIndex, GlobalMetadata, Il2CppTypeDefinition, TypeDefinitionIndex,
};
use crate::object_file;
use crate::object_file::ObjectFile;
use crate::reader;
use crate::reader::{read_len_arr, Image, ObjectReader, Record};
use crate::type_tables;
use crate::type_tables::{make_index_map, ArrayTables};
use crate::types;
use crate::types::{
    ArrayTypeView, Il2CppArrayType, Il2CppGenericClass, Il2CppGenericInst,
    Il2CppGenericMethodFunctionsDefinitions, Il2CppMethodSpec, Il2CppType,
    Il2CppTypeDefinitionSizes, Il2CppTypeEnum, TypeData,
};

verus! {

/// Defined at `il2cpp-class-internals.h:622`
#[derive(Debug)]
pub struct Il2CppMetadataRegistration {
    pub generic_classes: Vec<Il2CppGenericClass>,
    pub generic_insts: Vec<Il2CppGenericInst>,
    pub generic_method_table: Vec<Il2CppGenericMethodFunctionsDefinitions>,
    pub types: Vec<Il2CppType>,
    /// This is not a real field in the metadata. It is here to provide the
    /// ability to access array types by index instead of by pointer.
    pub array_types: Vec<Il2CppArrayType>,
    pub method_specs: Vec<Il2CppMethodSpec>,
    /// Compiler calculated field offset values. Only exists when read from an
    /// ELF. Since this is platform dependent, it cannot be read from C++
    /// sources.
    pub field_offsets: Option<Vec<Vec<u32>>>,
    /// Compiler calculated size values. Only exists when read from an ELF.
    /// Since this is platform dependent, it cannot be read from C++ sources.
    pub type_definition_sizes: Option<Vec<Il2CppTypeDefinitionSizes>>,
}

/// The mathematical value of an [`Il2CppMetadataRegistration`].
#[verifier::ext_equal]
pub struct MetadataRegistrationView {
    pub generic_classes: Seq<Il2CppGenericClass>,
    pub generic_insts: Seq<Seq<usize>>,
    pub generic_method_table: Seq<Il2CppGenericMethodFunctionsDefinitions>,
    pub types: Seq<Il2CppType>,
    pub array_types: Seq<ArrayTypeView>,
    pub method_specs: Seq<Il2CppMethodSpec>,
    pub field_offsets: Option<Seq<Seq<u32>>>,
    pub type_definition_sizes: Option<Seq<Il2CppTypeDefinitionSizes>>,
}

/// The values of a list of lists of offsets.
pub open spec fn offset_views(offsets: Seq<Vec<u32>>) -> Seq<Seq<u32>> {
    offsets.map_values(|v: Vec<u32>| v@)
}

impl View for Il2CppMetadataRegistration {
    type V = MetadataRegistrationView;

    open spec fn view(&self) -> MetadataRegistrationView {
        MetadataRegistrationView {
            generic_classes: self.generic_classes@,
            generic_insts: types::generic_inst_views(self.generic_insts@),
            generic_method_table: self.generic_method_table@,
            types: self.types@,
            array_types: types::array_type_views(self.array_types@),
            method_specs: self.method_specs@,
            field_offsets: match self.field_offsets {
                Some(offsets) => Some(offset_views(offsets@)),
                None => None,
            },
            type_definition_sizes: match self.type_definition_sizes {
                Some(sizes) => Some(sizes@),
                None => None,
            },
        }
    }
}

/// The seven arrays that the registration itself consists of.
#[verifier::ext_equal]
pub struct TablesView {
    pub generic_classes: Seq<u64>,
    pub generic_insts: Seq<u64>,
    pub generic_method_table: Seq<Il2CppGenericMethodFunctionsDefinitions>,
    pub types: Seq<u64>,
    pub method_specs: Seq<Il2CppMethodSpec>,
    pub field_offsets: Seq<u64>,
    pub type_definition_sizes: Seq<u64>,
}

/// The registration at offset `pos`: seven counted arrays, one behind the other.
pub open spec fn tables_at(img: Image, pos: int) -> Result<TablesView, ReadFailure> {
    match reader::counted_array::<u64>(img, pos) {
        Err(e) => Err(e),
        Ok(generic_classes) => match reader::counted_array::<u64>(img, pos + 16) {
            Err(e) => Err(e),
            Ok(generic_insts) => match reader::counted_array::<
                Il2CppGenericMethodFunctionsDefinitions,
            >(img, pos + 32) {
                Err(e) => Err(e),
                Ok(generic_method_table) => match reader::counted_array::<u64>(img, pos + 48) {
                    Err(e) => Err(e),
                    Ok(types) => match reader::counted_array::<Il2CppMethodSpec>(img, pos + 64) {
                        Err(e) => Err(e),
                        Ok(method_specs) => match reader::counted_array::<u64>(img, pos + 80) {
                            Err(e) => Err(e),
                            Ok(field_offsets) => match reader::counted_array::<u64>(
                                img,
                                pos + 96,
                            ) {
                                Err(e) => Err(e),
                                Ok(type_definition_sizes) => Ok(
                                    TablesView {
                                        generic_classes,
                                        generic_insts,
                                        generic_method_table,
                                        types,
                                        method_specs,
                                        field_offsets,
                                        type_definition_sizes,
                                    },
                                ),
                            },
                        },
                    },
                },
            },
        },
    }
}

/// How the generic class at each listed address reads.
pub open spec fn class_reads(
    img: Image,
    addrs: Seq<u64>,
    insts: Map<u64, usize>,
    types: Map<u64, usize>,
) -> spec_fn(int) -> Result<Il2CppGenericClass, ReadFailure> {
    |i: int| type_tables::generic_class_at(img, addrs[i], insts, types)
}

/// How the generic instantiation at each listed address reads.
pub open spec fn inst_reads(
    img: Image,
    addrs: Seq<u64>,
    types: Map<u64, usize>,
) -> spec_fn(int) -> Result<Seq<usize>, ReadFailure> {
    |i: int| type_tables::generic_inst_at(img, addrs[i], types)
}

/// The sizes of a type definition at `vaddr`.
pub open spec fn sizes_at(img: Image, vaddr: u64) -> Result<
    Il2CppTypeDefinitionSizes,
    ReadFailure,
> {
    match object_file::locate(img.segments, vaddr) {
        Err(e) => Err(e),
        Ok(pos) => match Il2CppTypeDefinitionSizes::decode(img.data, pos as int) {
            Ok((sizes, _)) => Ok(sizes),
            Err(e) => Err(ReadFailure::Error(Il2CppBinaryError::BinRead(e))),
        },
    }
}

/// How the sizes at each listed address read.
pub open spec fn sizes_reads(img: Image, addrs: Seq<u64>) -> spec_fn(int) -> Result<
    Il2CppTypeDefinitionSizes,
    ReadFailure,
> {
    |i: int| sizes_at(img, addrs[i])
}

/// The number of fields of each type definition.
pub open spec fn field_counts(definitions: Seq<Il2CppTypeDefinition>) -> Seq<u16> {
    definitions.map_values(|d: Il2CppTypeDefinition| d.field_count)
}

/// The field offsets of type definition `i`: as many numbers as it has fields. A null address
/// stands for no offsets.
pub open spec fn field_offsets_at(img: Image, vaddr: u64, counts: Seq<u16>, i: int) -> Result<
    Seq<u32>,
    ReadFailure,
> {
    if vaddr == 0 {
        Ok(Seq::empty())
    } else {
        match object_file::locate(img.segments, vaddr) {
            Err(e) => Err(e),
            Ok(pos) => if i >= counts.len() {
                Err(ReadFailure::Malformed)
            } else if counts[i] == 0 || bytes::fits(img.data, pos as int, 4 * counts[i]) {
                Ok(Seq::new(counts[i] as nat, |k: int| bytes::u32_at(img.data, pos + 4 * k)))
            } else {
                Err(reader::io_failure())
            },
        }
    }
}

/// How the field offsets at each listed address read.
pub open spec fn field_offset_reads(
    img: Image,
    addrs: Seq<u64>,
    counts: Seq<u16>,
) -> spec_fn(int) -> Result<Seq<u32>, ReadFailure> {
    |i: int| field_offsets_at(img, addrs[i], counts, i)
}

/// The types at the first `n` of the listed addresses, and the array types found among them.
pub open spec fn types_at(
    img: Image,
    addrs: Seq<u64>,
    types: Map<u64, usize>,
    classes: Map<u64, usize>,
    n: nat,
) -> Result<(Seq<Il2CppType>, ArrayTables), ReadFailure>
    decreases n,
{
    if n == 0 {
        Ok((Seq::empty(), ArrayTables { list: Seq::empty(), index: Map::empty() }))
    } else {
        match types_at(img, addrs, types, classes, (n - 1) as nat) {
            Err(e) => Err(e),
            Ok((front, arrays)) => match type_tables::type_at(
                img,
                addrs[n - 1],
                types,
                classes,
                arrays,
            ) {
                Err(e) => Err(e),
                Ok((last, after)) => Ok((front.push(last), after)),
            },
        }
    }
}

/// The registration with these tables.
pub open spec fn resolve_tables(img: Image, tables: TablesView, counts: Seq<u16>) -> Result<
    MetadataRegistrationView,
    ReadFailure,
> {
    let insts = type_tables::index_map(tables.generic_insts);
    let types = type_tables::index_map(tables.types);
    let classes = type_tables::index_map(tables.generic_classes);
    match type_tables::collect(
        tables.generic_classes.len(),
        class_reads(img, tables.generic_classes, insts, types),
    ) {
        Err(e) => Err(e),
        Ok(generic_classes) => match types_at(
            img,
            tables.types,
            types,
            classes,
            tables.types.len(),
        ) {
            Err(e) => Err(e),
            Ok((type_list, arrays)) => match type_tables::collect(
                tables.generic_insts.len(),
                inst_reads(img, tables.generic_insts, types),
            ) {
                Err(e) => Err(e),
                Ok(generic_insts) => match type_tables::collect(
                    tables.type_definition_sizes.len(),
                    sizes_reads(img, tables.type_definition_sizes),
                ) {
                    Err(e) => Err(e),
                    Ok(sizes) => match type_tables::collect(
                        tables.field_offsets.len(),
                        field_offset_reads(img, tables.field_offsets, counts),
                    ) {
                        Err(e) => Err(e),
                        Ok(offsets) => Ok(
                            MetadataRegistrationView {
                                generic_classes,
                                generic_insts,
                                generic_method_table: tables.generic_method_table,
                                types: type_list,
                                array_types: arrays.list,
                                method_specs: tables.method_specs,
                                field_offsets: Some(offsets),
                                type_definition_sizes: Some(sizes),
                            },
                        ),
                    },
                },
            },
        },
    }
}

/// The metadata registration at `vaddr`.
pub open spec fn metadata_registration_at(img: Image, vaddr: u64, counts: Seq<u16>) -> Result<
    MetadataRegistrationView,
    ReadFailure,
> {
    match object_file::locate(img.segments, vaddr) {
        Err(e) => Err(e),
        Ok(pos) => match tables_at(img, pos as int) {
            Err(e) => Err(e),
            Ok(tables) => resolve_tables(img, tables, counts),
        },
    }
}

// ---------------------------------------------------------------------------------------------
// What holds of a registration
// ---------------------------------------------------------------------------------------------

/// Whether the data of a type is of the sort that goes with its element type.
pub open spec fn data_fits_type(ty: Il2CppType) -> bool {
    match ty.ty {
        Il2CppTypeEnum::Var | Il2CppTypeEnum::Mvar => ty.data is GenericParameterIndex,
        Il2CppTypeEnum::Ptr | Il2CppTypeEnum::Szarray => ty.data is TypeIndex,
        Il2CppTypeEnum::Array => ty.data is ArrayType,
        Il2CppTypeEnum::Genericinst => ty.data is GenericClassIndex,
        _ => ty.data is TypeDefinitionIndex,
    }
}

/// Whether the index in a type lies in its list.
pub open spec fn type_in_range(ty: Il2CppType, types: nat, classes: nat, arrays: nat) -> bool {
    match ty.data {
        TypeData::TypeIndex(index) => index < types,
        TypeData::GenericClassIndex(index) => index < classes,
        TypeData::ArrayType(index) => index < arrays,
        _ => true,
    }
}

/// Whether the indices in a generic class lie in their lists.
pub open spec fn class_in_range(class: Il2CppGenericClass, types: nat, insts: nat) -> bool {
    &&& class.type_index < types
    &&& class.context.class_inst_idx matches Some(index) ==> index < insts
    &&& class.context.method_inst_idx matches Some(index) ==> index < insts
}

/// Whether all indices into the lists of a registration lie in those lists.
pub open spec fn indices_in_range(reg: MetadataRegistrationView) -> bool {
    &&& forall|i: int|
        0 <= i < reg.types.len() ==> type_in_range(
            #[trigger] reg.types[i],
            reg.types.len(),
            reg.generic_classes.len(),
            reg.array_types.len(),
        )
    &&& forall|i: int|
        0 <= i < reg.generic_classes.len() ==> class_in_range(
            #[trigger] reg.generic_classes[i],
            reg.types.len(),
            reg.generic_insts.len(),
        )
    &&& forall|i: int, j: int|
        0 <= i < reg.generic_insts.len() && 0 <= j < reg.generic_insts[i].len()
            ==> #[trigger] reg.generic_insts[i][j] < reg.types.len()
    &&& forall|i: int|
        0 <= i < reg.array_types.len() ==> (#[trigger] reg.array_types[i]).elem_ty
            < reg.types.len()
}

/// The data word of the type at `vaddr`.
pub open spec fn data_word(img: Image, vaddr: u64) -> u64 {
    bytes::u64_at(img.data, object_file::locate(img.segments, vaddr).unwrap() as int)
}

/// Whether every address is known by a position below `n`.
spec fn range_below(map: Map<u64, usize>, n: nat) -> bool {
    forall|addr: u64| #[trigger] map.dom().contains(addr) ==> map[addr] < n
}

/// Whether the array types are those at the addresses that they are known by, each address by a
/// position of its own.
spec fn arrays_agree(img: Image, types: Map<u64, usize>, arrays: ArrayTables) -> bool {
    &&& forall|addr: u64| #[trigger]
        arrays.index.dom().contains(addr) ==> {
            &&& arrays.index[addr] < arrays.list.len()
            &&& type_tables::array_type_at(img, addr, types) == Ok::<ArrayTypeView, ReadFailure>(
                arrays.list[arrays.index[addr] as int],
            )
        }
    &&& forall|a: u64, b: u64|
        #![trigger arrays.index[a], arrays.index[b]]
        arrays.index.dom().contains(a) && arrays.index.dom().contains(b) && arrays.index[a]
            == arrays.index[b] ==> a == b
}

proof fn lemma_index_map_range(addrs: Seq<u64>)
    requires
        addrs.len() <= usize::MAX,
    ensures
        range_below(type_tables::index_map(addrs), addrs.len()),
{
    assert forall|addr: u64| #[trigger]
        type_tables::index_map(addrs).dom().contains(addr) implies type_tables::index_map(
        addrs,
    )[addr] < addrs.len() by {
        type_tables::law_index_map(addrs, addr);
    }
}

/// What holds of the types that have been read, and of the array types found among them.
proof fn lemma_types_at(
    img: Image,
    addrs: Seq<u64>,
    types: Map<u64, usize>,
    classes: Map<u64, usize>,
    n: nat,
    type_count: nat,
    class_count: nat,
)
    requires
        n <= usize::MAX,
        types_at(img, addrs, types, classes, n) is Ok,
        range_below(types, type_count),
        range_below(classes, class_count),
    ensures
        ({
            let (list, arrays) = types_at(img, addrs, types, classes, n).unwrap();
            &&& list.len() == n
            &&& arrays.list.len() <= n
            &&& arrays_agree(img, types, arrays)
            &&& forall|k: int|
                0 <= k < arrays.list.len() ==> (#[trigger] arrays.list[k]).elem_ty < type_count
            &&& forall|i: int|
                0 <= i < n ==> {
                    &&& data_fits_type(#[trigger] list[i])
                    &&& type_in_range(list[i], type_count, class_count, arrays.list.len())
                    &&& list[i].data matches TypeData::ArrayType(index) ==> {
                        let word = data_word(img, addrs[i]);
                        arrays.index.dom().contains(word) && arrays.index[word] == index
                    }
                }
        }),
    decreases n,
{
    if n > 0 {
        let m = (n - 1) as nat;
        lemma_types_at(img, addrs, types, classes, m, type_count, class_count);
        let (front, before) = types_at(img, addrs, types, classes, m).unwrap();
        let (last, after) = type_tables::type_at(
            img,
            addrs[m as int],
            types,
            classes,
            before,
        ).unwrap();
        let (list, arrays) = types_at(img, addrs, types, classes, n).unwrap();
        assert(list == front.push(last));
        assert(arrays == after);
        let word = data_word(img, addrs[m as int]);
        if last.ty == Il2CppTypeEnum::Array && !before.index.dom().contains(word) {
            let added = type_tables::array_type_at(img, word, types).unwrap();
            assert(after.list == before.list.push(added));
            assert(after.index == before.index.insert(word, before.list.len() as usize));
            assert(added.elem_ty < type_count);
            assert forall|addr: u64| #[trigger] after.index.dom().contains(addr) implies {
                &&& after.index[addr] < after.list.len()
                &&& type_tables::array_type_at(img, addr, types) == Ok::<
                    ArrayTypeView,
                    ReadFailure,
                >(after.list[after.index[addr] as int])
            } by {
                if addr != word {
                    assert(before.index.dom().contains(addr));
                }
            }
        } else {
            assert(after == before);
        }
        assert forall|i: int| 0 <= i < n implies {
            &&& data_fits_type(#[trigger] list[i])
            &&& type_in_range(list[i], type_count, class_count, arrays.list.len())
            &&& list[i].data matches TypeData::ArrayType(index) ==> {
                let word = data_word(img, addrs[i]);
                arrays.index.dom().contains(word) && arrays.index[word] == index
            }
        } by {
            if i < m {
                assert(list[i] == front[i]);
            }
        }
    }
}

/// Every type of a registration has the sort of data that goes with its element type.
pub proof fn law_data_fits_type(img: Image, vaddr: u64, counts: Seq<u16>, i: int)
    requires
        metadata_registration_at(img, vaddr, counts) is Ok,
        0 <= i < metadata_registration_at(img, vaddr, counts).unwrap().types.len(),
    ensures
        data_fits_type(metadata_registration_at(img, vaddr, counts).unwrap().types[i]),
{
    let pos = object_file::locate(img.segments, vaddr).unwrap() as int;
    lemma_registration_types(img, pos, counts);
}

/// The types of the registration at offset `pos`.
proof fn lemma_registration_types(img: Image, pos: int, counts: Seq<u16>)
    requires
        tables_at(img, pos) is Ok,
        resolve_tables(img, tables_at(img, pos).unwrap(), counts) is Ok,
    ensures
        ({
            let tables = tables_at(img, pos).unwrap();
            let reg = resolve_tables(img, tables, counts).unwrap();
            let types = type_tables::index_map(tables.types);
            let classes = type_tables::index_map(tables.generic_classes);
            let (list, arrays) = types_at(
                img,
                tables.types,
                types,
                classes,
                tables.types.len(),
            ).unwrap();
            &&& tables.types.len() <= u32::MAX
            &&& tables.generic_classes.len() <= u32::MAX
            &&& tables.generic_insts.len() <= u32::MAX
            &&& reg.types == list
            &&& reg.array_types == arrays.list
            &&& list.len() == tables.types.len()
            &&& arrays_agree(img, types, arrays)
            &&& forall|k: int|
                0 <= k < arrays.list.len() ==> (#[trigger] arrays.list[k]).elem_ty < list.len()
            &&& forall|i: int|
                0 <= i < list.len() ==> {
                    &&& data_fits_type(#[trigger] list[i])
                    &&& type_in_range(
                        list[i],
                        list.len(),
                        tables.generic_classes.len(),
                        arrays.list.len(),
                    )
                    &&& list[i].data matches TypeData::ArrayType(index) ==> {
                        let word = data_word(img, tables.types[i]);
                        arrays.index.dom().contains(word) && arrays.index[word] == index
                    }
                }
        }),
{
    let tables = tables_at(img, pos).unwrap();
    reader::law_counted_array_length::<u64>(img, pos);
    reader::law_counted_array_length::<u64>(img, pos + 16);
    reader::law_counted_array_length::<u64>(img, pos + 48);
    lemma_index_map_range(tables.types);
    lemma_index_map_range(tables.generic_classes);
    lemma_types_at(
        img,
        tables.types,
        type_tables::index_map(tables.types),
        type_tables::index_map(tables.generic_classes),
        tables.types.len(),
        tables.types.len(),
        tables.generic_classes.len(),
    );
}

/// Every index into a list of a registration lies in that list.
pub proof fn law_indices_in_range(img: Image, vaddr: u64, counts: Seq<u16>)
    requires
        metadata_registration_at(img, vaddr, counts) is Ok,
    ensures
        indices_in_range(metadata_registration_at(img, vaddr, counts).unwrap()),
{
    let pos = object_file::locate(img.segments, vaddr).unwrap() as int;
    let tables = tables_at(img, pos).unwrap();
    let reg = metadata_registration_at(img, vaddr, counts).unwrap();
    let insts = type_tables::index_map(tables.generic_insts);
    let types = type_tables::index_map(tables.types);
    lemma_registration_types(img, pos, counts);
    lemma_index_map_range(tables.types);
    lemma_index_map_range(tables.generic_insts);
    let class_f = class_reads(img, tables.generic_classes, insts, types);
    type_tables::lemma_collect_items(tables.generic_classes.len(), class_f);
    let inst_f = inst_reads(img, tables.generic_insts, types);
    type_tables::lemma_collect_items(tables.generic_insts.len(), inst_f);
    assert forall|i: int| 0 <= i < reg.generic_classes.len() implies class_in_range(
        #[trigger] reg.generic_classes[i],
        reg.types.len(),
        reg.generic_insts.len(),
    ) by {
        assert(class_f(i) == Ok::<Il2CppGenericClass, ReadFailure>(reg.generic_classes[i]));
    }
    assert forall|i: int, j: int|
        0 <= i < reg.generic_insts.len() && 0 <= j
            < reg.generic_insts[i].len() implies #[trigger] reg.generic_insts[i][j]
        < reg.types.len() by {
        assert(inst_f(i) == Ok::<Seq<usize>, ReadFailure>(reg.generic_insts[i]));
        let at = object_file::locate(img.segments, tables.generic_insts[i]).unwrap();
        let ptrs = reader::counted_array::<u64>(img, at as int).unwrap();
        assert(types.dom().contains(ptrs[j]));
    }
}

/// Two array types of a registration share an entry exactly if their data words are the same
/// address.
pub proof fn law_array_types_shared(img: Image, vaddr: u64, counts: Seq<u16>, i: int, j: int)
    requires
        metadata_registration_at(img, vaddr, counts) is Ok,
        0 <= i < metadata_registration_at(img, vaddr, counts).unwrap().types.len(),
        0 <= j < metadata_registration_at(img, vaddr, counts).unwrap().types.len(),
        metadata_registration_at(img, vaddr, counts).unwrap().types[i].ty == Il2CppTypeEnum::Array,
        metadata_registration_at(img, vaddr, counts).unwrap().types[j].ty == Il2CppTypeEnum::Array,
    ensures
        ({
            let reg = metadata_registration_at(img, vaddr, counts).unwrap();
            let pos = object_file::locate(img.segments, vaddr).unwrap() as int;
            let addrs = tables_at(img, pos).unwrap().types;
            reg.types[i].data == reg.types[j].data <==> data_word(img, addrs[i]) == data_word(
                img,
                addrs[j],
            )
        }),
{
    let pos = object_file::locate(img.segments, vaddr).unwrap() as int;
    let reg = metadata_registration_at(img, vaddr, counts).unwrap();
    lemma_registration_types(img, pos, counts);
    assert(data_fits_type(reg.types[i]));
    assert(data_fits_type(reg.types[j]));
}

/// Whether there are field offsets and sizes, and each type definition has as many offsets as
/// fields or none at all.
pub open spec fn has_layout(reg: MetadataRegistrationView, counts: Seq<u16>) -> bool {
    &&& reg.type_definition_sizes is Some
    &&& reg.field_offsets matches Some(offsets) && forall|i: int|
        0 <= i < offsets.len() ==> {
            ||| (#[trigger] offsets[i]).len() == 0
            ||| i < counts.len() && offsets[i].len() == counts[i]
        }
}

/// The registration at an address holds field offsets and sizes.
pub proof fn lemma_layout(img: Image, vaddr: u64, counts: Seq<u16>)
    requires
        metadata_registration_at(img, vaddr, counts) is Ok,
    ensures
        has_layout(metadata_registration_at(img, vaddr, counts).unwrap(), counts),
{
    let pos = object_file::locate(img.segments, vaddr).unwrap() as int;
    let tables = tables_at(img, pos).unwrap();
    let reg = metadata_registration_at(img, vaddr, counts).unwrap();
    let f = field_offset_reads(img, tables.field_offsets, counts);
    type_tables::lemma_collect_items(tables.field_offsets.len(), f);
    let offsets = reg.field_offsets.unwrap();
    assert forall|i: int| 0 <= i < offsets.len() implies {
        ||| (#[trigger] offsets[i]).len() == 0
        ||| i < counts.len() && offsets[i].len() == counts[i]
    } by {
        assert(f(i) == Ok::<Seq<u32>, ReadFailure>(offsets[i]));
    }
}

// ---------------------------------------------------------------------------------------------
// Reading
// ---------------------------------------------------------------------------------------------

/// The arrays of a registration.
struct Tables {
    generic_classes: Vec<u64>,
    generic_insts: Vec<u64>,
    generic_method_table: Vec<Il2CppGenericMethodFunctionsDefinitions>,
    types: Vec<u64>,
    method_specs: Vec<Il2CppMethodSpec>,
    field_offsets: Vec<u64>,
    type_definition_sizes: Vec<u64>,
}

impl View for Tables {
    type V = TablesView;

    closed spec fn view(&self) -> TablesView {
        TablesView {
            generic_classes: self.generic_classes@,
            generic_insts: self.generic_insts@,
            generic_method_table: self.generic_method_table@,
            types: self.types@,
            method_specs: self.method_specs@,
            field_offsets: self.field_offsets@,
            type_definition_sizes: self.type_definition_sizes@,
        }
    }
}

/// Reads the arrays of a registration.
fn read_tables(reader: &ObjectReader, cur: &mut Cursor) -> (r: Result<Tables, ReadFailure>)
    requires
        old(cur).data == reader.data,
    ensures
        match r {
            Ok(tables) => tables_at(reader@, old(cur).pos as int) == Ok::<TablesView, ReadFailure>(
                tables@,
            ),
            Err(e) => tables_at(reader@, old(cur).pos as int) == Err::<TablesView, ReadFailure>(e),
        },
{
    let generic_classes: Vec<u64> = match read_len_arr(reader, cur) {
        Ok(list) => list,
        Err(e) => return Err(e),
    };
    let generic_insts: Vec<u64> = match read_len_arr(reader, cur) {
        Ok(list) => list,
        Err(e) => return Err(e),
    };
    let generic_method_table = match read_len_arr(reader, cur) {
        Ok(list) => list,
        Err(e) => return Err(e),
    };
    let types: Vec<u64> = match read_len_arr(reader, cur) {
        Ok(list) => list,
        Err(e) => return Err(e),
    };
    let method_specs = match read_len_arr(reader, cur) {
        Ok(list) => list,
        Err(e) => return Err(e),
    };
    let field_offsets: Vec<u64> = match read_len_arr(reader, cur) {
        Ok(list) => list,
        Err(e) => return Err(e),
    };
    let type_definition_sizes: Vec<u64> = match read_len_arr(reader, cur) {
        Ok(list) => list,
        Err(e) => return Err(e),
    };
    Ok(
        Tables {
            generic_classes,
            generic_insts,
            generic_method_table,
            types,
            method_specs,
            field_offsets,
            type_definition_sizes,
        },
    )
}

/// Reads the generic classes at the listed addresses.
fn read_classes(
    reader: &ObjectReader,
    addrs: &Vec<u64>,
    insts: &HashMap<u64, usize>,
    types: &HashMap<u64, usize>,
) -> (r: Result<Vec<Il2CppGenericClass>, ReadFailure>)
    ensures
        match r {
            Ok(list) => type_tables::collect(
                addrs@.len(),
                class_reads(reader@, addrs@, insts@, types@),
            ) == Ok::<Seq<Il2CppGenericClass>, ReadFailure>(list@),
            Err(e) => type_tables::collect(
                addrs@.len(),
                class_reads(reader@, addrs@, insts@, types@),
            ) == Err::<Seq<Il2CppGenericClass>, ReadFailure>(e),
        },
{
    let ghost f = class_reads(reader@, addrs@, insts@, types@);
    let mut list: Vec<Il2CppGenericClass> = Vec::with_capacity(addrs.len());
    let mut i: usize = 0;
    while i < addrs.len()
        invariant
            i <= addrs@.len(),
            f == class_reads(reader@, addrs@, insts@, types@),
            type_tables::collect(i as nat, f) == Ok::<Seq<Il2CppGenericClass>, ReadFailure>(list@),
        decreases addrs@.len() - i,
    {
        match Il2CppGenericClass::read(reader, addrs[i], insts, types) {
            Ok(class) => list.push(class),
            Err(e) => {
                proof {
                    type_tables::lemma_collect_stop((i + 1) as nat, addrs@.len(), f);
                }
                return Err(e);
            },
        }
        i += 1;
    }
    Ok(list)
}

/// Reads the generic instantiations at the listed addresses.
fn read_insts(reader: &ObjectReader, addrs: &Vec<u64>, types: &HashMap<u64, usize>) -> (r: Result<
    Vec<Il2CppGenericInst>,
    ReadFailure,
>)
    ensures
        match r {
            Ok(list) => type_tables::collect(addrs@.len(), inst_reads(reader@, addrs@, types@))
                == Ok::<Seq<Seq<usize>>, ReadFailure>(types::generic_inst_views(list@)),
            Err(e) => type_tables::collect(addrs@.len(), inst_reads(reader@, addrs@, types@))
                == Err::<Seq<Seq<usize>>, ReadFailure>(e),
        },
{
    let ghost f = inst_reads(reader@, addrs@, types@);
    let mut list: Vec<Il2CppGenericInst> = Vec::with_capacity(addrs.len());
    let mut i: usize = 0;
    assert(types::generic_inst_views(list@) =~= Seq::empty());
    while i < addrs.len()
        invariant
            i <= addrs@.len(),
            f == inst_reads(reader@, addrs@, types@),
            type_tables::collect(i as nat, f) == Ok::<Seq<Seq<usize>>, ReadFailure>(
                types::generic_inst_views(list@),
            ),
        decreases addrs@.len() - i,
    {
        match Il2CppGenericInst::read(reader, addrs[i], types) {
            Ok(inst) => {
                let ghost known = types::generic_inst_views(list@);
                list.push(inst);
                assert(types::generic_inst_views(list@) =~= known.push(inst@));
            },
            Err(e) => {
                proof {
                    type_tables::lemma_collect_stop((i + 1) as nat, addrs@.len(), f);
                }
                return Err(e);
            },
        }
        i += 1;
    }
    Ok(list)
}

/// What stops the types stops every longer list of them.
proof fn lemma_types_stop(
    img: Image,
    addrs: Seq<u64>,
    types: Map<u64, usize>,
    classes: Map<u64, usize>,
    n: nat,
    m: nat,
)
    requires
        n <= m,
        types_at(img, addrs, types, classes, n) is Err,
    ensures
        types_at(img, addrs, types, classes, m) == types_at(img, addrs, types, classes, n),
    decreases m - n,
{
    if n < m {
        lemma_types_stop(img, addrs, types, classes, n, (m - 1) as nat);
    }
}

/// Reads the types at the listed addresses and the array types among them.
fn read_types(
    reader: &ObjectReader,
    addrs: &Vec<u64>,
    types: &HashMap<u64, usize>,
    classes: &HashMap<u64, usize>,
) -> (r: Result<(Vec<Il2CppType>, Vec<Il2CppArrayType>), ReadFailure>)
    ensures
        match r {
            Ok((list, array_types)) => {
                &&& types_at(reader@, addrs@, types@, classes@, addrs@.len()) is Ok
                &&& types_at(reader@, addrs@, types@, classes@, addrs@.len()).unwrap().0 == list@
                &&& types_at(reader@, addrs@, types@, classes@, addrs@.len()).unwrap().1.list
                    == types::array_type_views(array_types@)
            },
            Err(e) => types_at(reader@, addrs@, types@, classes@, addrs@.len()) == Err::<
                (Seq<Il2CppType>, ArrayTables),
                ReadFailure,
            >(e),
        },
{
    let mut list: Vec<Il2CppType> = Vec::with_capacity(addrs.len());
    let mut array_types: Vec<Il2CppArrayType> = Vec::new();
    let mut array_type_map: HashMap<u64, usize> = HashMap::new();
    let mut i: usize = 0;
    assert(types::array_type_views(array_types@) =~= Seq::empty());
    while i < addrs.len()
        invariant
            i <= addrs@.len(),
            types_at(reader@, addrs@, types@, classes@, i as nat) == Ok::<
                (Seq<Il2CppType>, ArrayTables),
                ReadFailure,
            >(
                (
                    list@,
                    ArrayTables {
                        list: types::array_type_views(array_types@),
                        index: array_type_map@,
                    },
                ),
            ),
        decreases addrs@.len() - i,
    {
        match Il2CppType::read(
            reader,
            addrs[i],
            types,
            classes,
            &mut array_types,
            &mut array_type_map,
        ) {
            Ok(ty) => list.push(ty),
            Err(e) => {
                proof {
                    lemma_types_stop(
                        reader@,
                        addrs@,
                        types@,
                        classes@,
                        (i + 1) as nat,
                        addrs@.len(),
                    );
                }
                return Err(e);
            },
        }
        i += 1;
    }
    Ok((list, array_types))
}

/// Reads the sizes at the listed addresses.
fn read_sizes(reader: &ObjectReader, addrs: &Vec<u64>) -> (r: Result<
    Vec<Il2CppTypeDefinitionSizes>,
    ReadFailure,
>)
    ensures
        match r {
            Ok(list) => type_tables::collect(addrs@.len(), sizes_reads(reader@, addrs@)) == Ok::<
                Seq<Il2CppTypeDefinitionSizes>,
                ReadFailure,
            >(list@),
            Err(e) => type_tables::collect(addrs@.len(), sizes_reads(reader@, addrs@)) == Err::<
                Seq<Il2CppTypeDefinitionSizes>,
                ReadFailure,
            >(e),
        },
{
    let ghost f = sizes_reads(reader@, addrs@);
    let mut list: Vec<Il2CppTypeDefinitionSizes> = Vec::with_capacity(addrs.len());
    let mut i: usize = 0;
    while i < addrs.len()
        invariant
            i <= addrs@.len(),
            f == sizes_reads(reader@, addrs@),
            type_tables::collect(i as nat, f) == Ok::<Seq<Il2CppTypeDefinitionSizes>, ReadFailure>(
                list@,
            ),
        decreases addrs@.len() - i,
    {
        let sizes = match reader.make_cur(addrs[i]) {
            Ok(mut cur) => match Il2CppTypeDefinitionSizes::read_le(&mut cur) {
                Ok(sizes) => Ok(sizes),
                Err(e) => Err(ReadFailure::Error(Il2CppBinaryError::BinRead(e))),
            },
            Err(e) => Err(e),
        };
        assert(sizes == f(i as int));
        match sizes {
            Ok(sizes) => list.push(sizes),
            Err(e) => {
                proof {
                    type_tables::lemma_collect_stop((i + 1) as nat, addrs@.len(), f);
                }
                return Err(e);
            },
        }
        i += 1;
    }
    Ok(list)
}

/// Reads the field offsets of type definition `i`.
fn read_field_offsets(
    reader: &ObjectReader,
    vaddr: u64,
    definitions: &Vec<Il2CppTypeDefinition>,
    i: usize,
) -> (r: Result<Vec<u32>, ReadFailure>)
    ensures
        match r {
            Ok(offsets) => field_offsets_at(reader@, vaddr, field_counts(definitions@), i as int)
                == Ok::<Seq<u32>, ReadFailure>(offsets@),
            Err(e) => field_offsets_at(reader@, vaddr, field_counts(definitions@), i as int)
                == Err::<Seq<u32>, ReadFailure>(e),
        },
{
    if vaddr == 0 {
        return Ok(Vec::new());
    }
    let mut cur = match reader.make_cur(vaddr) {
        Ok(cur) => cur,
        Err(e) => return Err(e),
    };
    if i >= definitions.len() {
        return Err(ReadFailure::Malformed);
    }
    let count: u16 = definitions[i].field_count;
    let ghost pos: int = cur.pos as int;
    let mut offsets: Vec<u32> = Vec::with_capacity(count as usize);
    let mut k: u16 = 0;
    while k < count
        invariant
            k <= count,
            cur.data == reader.data,
            cur.pos == pos + 4 * k,
            pos >= 0,
            k > 0 ==> bytes::fits(reader@.data, pos, 4 * k),
            offsets@ =~= Seq::new(k as nat, |j: int| bytes::u32_at(reader@.data, pos + 4 * j)),
            object_file::locate(reader@.segments, vaddr) == Ok::<u64, ReadFailure>(pos as u64),
            pos <= u64::MAX,
            i < definitions@.len(),
            field_counts(definitions@)[i as int] == count,
            vaddr != 0,
        decreases count - k,
    {
        match cur.read_u32() {
            Ok(offset) => offsets.push(offset),
            Err(e) => return Err(ReadFailure::Error(e)),
        }
        k += 1;
    }
    Ok(offsets)
}

/// Reads the field offsets at the listed addresses.
fn read_all_field_offsets(
    reader: &ObjectReader,
    addrs: &Vec<u64>,
    definitions: &Vec<Il2CppTypeDefinition>,
) -> (r: Result<Vec<Vec<u32>>, ReadFailure>)
    ensures
        match r {
            Ok(list) => type_tables::collect(
                addrs@.len(),
                field_offset_reads(reader@, addrs@, field_counts(definitions@)),
            ) == Ok::<Seq<Seq<u32>>, ReadFailure>(offset_views(list@)),
            Err(e) => type_tables::collect(
                addrs@.len(),
                field_offset_reads(reader@, addrs@, field_counts(definitions@)),
            ) == Err::<Seq<Seq<u32>>, ReadFailure>(e),
        },
{
    let ghost f = field_offset_reads(reader@, addrs@, field_counts(definitions@));
    let mut list: Vec<Vec<u32>> = Vec::with_capacity(addrs.len());
    let mut i: usize = 0;
    assert(offset_views(list@) =~= Seq::empty());
    while i < addrs.len()
        invariant
            i <= addrs@.len(),
            f == field_offset_reads(reader@, addrs@, field_counts(definitions@)),
            type_tables::collect(i as nat, f) == Ok::<Seq<Seq<u32>>, ReadFailure>(
                offset_views(list@),
            ),
        decreases addrs@.len() - i,
    {
        match read_field_offsets(reader, addrs[i], definitions, i) {
            Ok(offsets) => {
                let ghost known = offset_views(list@);
                list.push(offsets);
                assert(offset_views(list@) =~= known.push(offsets@));
            },
            Err(e) => {
                proof {
                    type_tables::lemma_collect_stop((i + 1) as nat, addrs@.len(), f);
                }
                return Err(e);
            },
        }
        i += 1;
    }
    Ok(list)
}

impl Il2CppMetadataRegistration {
    /// Reads the metadata registration at virtual address `addr`.
    pub fn read(object: &ObjectFile, data: &[u8], addr: u64, metadata: &GlobalMetadata) -> (r:
        Result<Self, ReadFailure>)
        ensures
            ({
                let img = Image { segments: object.segments@, bss: object.bss, data: data@ };
                let counts = field_counts(metadata.type_definitions@);
                match r {
                    Ok(registration) => metadata_registration_at(img, addr, counts) == Ok::<
                        MetadataRegistrationView,
                        ReadFailure,
                    >(registration@),
                    Err(e) => metadata_registration_at(img, addr, counts) == Err::<
                        MetadataRegistrationView,
                        ReadFailure,
                    >(e),
                }
            }),
    {
        let reader = ObjectReader::new(object, data);
        let mut cur = match reader.make_cur(addr) {
            Ok(cur) => cur,
            Err(e) => return Err(e),
        };
        let tables = match read_tables(&reader, &mut cur) {
            Ok(tables) => tables,
            Err(e) => return Err(e),
        };
        let generic_inst_map = make_index_map(&tables.generic_insts);
        let type_map = make_index_map(&tables.types);
        let generic_classes = match read_classes(
            &reader,
            &tables.generic_classes,
            &generic_inst_map,
            &type_map,
        ) {
            Ok(list) => list,
            Err(e) => return Err(e),
        };
        let generic_class_map = make_index_map(&tables.generic_classes);
        let (types, array_types) = match read_types(
            &reader,
            &tables.types,
            &type_map,
            &generic_class_map,
        ) {
            Ok(lists) => lists,
            Err(e) => return Err(e),
        };
        let generic_insts = match read_insts(&reader, &tables.generic_insts, &type_map) {
            Ok(list) => list,
            Err(e) => return Err(e),
        };
        let type_definition_sizes = match read_sizes(&reader, &tables.type_definition_sizes) {
            Ok(list) => list,
            Err(e) => return Err(e),
        };
        let field_offsets = match read_all_field_offsets(
            &reader,
            &tables.field_offsets,
            &metadata.type_definitions,
        ) {
            Ok(list) => list,
            Err(e) => return Err(e),
        };
        Ok(
            Il2CppMetadataRegistration {
                generic_classes,
                generic_insts,
                generic_method_table: tables.generic_method_table,
                types,
                array_types,
                method_specs: tables.method_specs,
                field_offsets: Some(field_offsets),
                type_definition_sizes: Some(type_definition_sizes),
            },
        )
    }
}

// ---------------------------------------------------------------------------------------------
// Where the parts of a registration stand
// ---------------------------------------------------------------------------------------------

/// A registration begins with seven counted arrays, sixteen bytes apart: the addresses of the
/// generic classes and of the generic instantiations, the generic methods, the addresses of the
/// types, the method specifications, and the addresses of the field offsets and of the sizes.
/// All of them have to be readable.
pub proof fn law_tables(img: Image, pos: int, t: TablesView)
    ensures
        tables_at(img, pos) == Ok::<TablesView, ReadFailure>(t) <==> {
            &&& reader::counted_array::<u64>(img, pos) == Ok::<Seq<u64>, ReadFailure>(
                t.generic_classes,
            )
            &&& reader::counted_array::<u64>(img, pos + 16) == Ok::<Seq<u64>, ReadFailure>(
                t.generic_insts,
            )
            &&& reader::counted_array::<Il2CppGenericMethodFunctionsDefinitions>(img, pos + 32)
                == Ok::<Seq<Il2CppGenericMethodFunctionsDefinitions>, ReadFailure>(
                t.generic_method_table,
            )
            &&& reader::counted_array::<u64>(img, pos + 48) == Ok::<Seq<u64>, ReadFailure>(t.types)
            &&& reader::counted_array::<Il2CppMethodSpec>(img, pos + 64) == Ok::<
                Seq<Il2CppMethodSpec>,
                ReadFailure,
            >(t.method_specs)
            &&& reader::counted_array::<u64>(img, pos + 80) == Ok::<Seq<u64>, ReadFailure>(
                t.field_offsets,
            )
            &&& reader::counted_array::<u64>(img, pos + 96) == Ok::<Seq<u64>, ReadFailure>(
                t.type_definition_sizes,
            )
        },
{
}

/// The arrays are read one after the other, and the first that fails stops the registration.
pub proof fn law_tables_fail(img: Image, pos: int)
    ensures
        ({
            let r = tables_at(img, pos);
            let a = reader::counted_array::<u64>(img, pos);
            let b = reader::counted_array::<u64>(img, pos + 16);
            let c = reader::counted_array::<Il2CppGenericMethodFunctionsDefinitions>(img, pos + 32);
            let d = reader::counted_array::<u64>(img, pos + 48);
            let e = reader::counted_array::<Il2CppMethodSpec>(img, pos + 64);
            let f = reader::counted_array::<u64>(img, pos + 80);
            let g = reader::counted_array::<u64>(img, pos + 96);
            &&& a is Err ==> r is Err && r->Err_0 == a->Err_0
            &&& a is Ok && b is Err ==> r is Err && r->Err_0 == b->Err_0
            &&& a is Ok && b is Ok && c is Err ==> r is Err && r->Err_0 == c->Err_0
            &&& a is Ok && b is Ok && c is Ok && d is Err ==> r is Err && r->Err_0 == d->Err_0
            &&& a is Ok && b is Ok && c is Ok && d is Ok && e is Err ==> r is Err && r->Err_0
                == e->Err_0
            &&& a is Ok && b is Ok && c is Ok && d is Ok && e is Ok && f is Err ==> r is Err
                && r->Err_0 == f->Err_0
            &&& a is Ok && b is Ok && c is Ok && d is Ok && e is Ok && f is Ok && g is Err ==> r is Err
                && r->Err_0 == g->Err_0
        }),
{
}

/// Whether a type is the one at an address: its fields are those that stand there, and what it
/// refers to is what its data word refers to.
pub open spec fn is_type_at(
    img: Image,
    vaddr: u64,
    ty: Il2CppType,
    types: Seq<u64>,
    classes: Seq<u64>,
    arrays: Seq<ArrayTypeView>,
) -> bool {
    object_file::locate(img.segments, vaddr) matches Ok(pos) && {
        let word = bytes::u64_at(img.data, pos as int);
        let flags = img.data[pos + 11];
        &&& pos + 12 <= img.data.len()
        &&& types::type_code(ty.ty) == img.data[pos + 10]
        &&& ty.attrs == bytes::u16_at(img.data, pos + 8)
        &&& ty.byref <==> flags / 32 > 0
        &&& ty.pinned <==> flags / 64 > 0
        &&& ty.valuetype <==> flags / 128 > 0
        &&& type_tables::data_is_word(ty, word, types, classes)
        &&& ty.data matches TypeData::ArrayType(k) ==> k < arrays.len()
            && type_tables::array_type_at(img, word, type_tables::index_map(types)) == Ok::<
            ArrayTypeView,
            ReadFailure,
        >(arrays[k as int])
    }
}

/// Whether a type can be read at an address.
pub open spec fn type_is_readable(
    img: Image,
    vaddr: u64,
    types: Seq<u64>,
    classes: Seq<u64>,
) -> bool {
    object_file::locate(img.segments, vaddr) matches Ok(pos) && {
        &&& pos + 12 <= img.data.len()
        &&& exists|element: Il2CppTypeEnum|
            #[trigger] types::type_code(element) == img.data[pos + 10]
                && type_tables::word_is_known(
                img,
                element,
                bytes::u64_at(img.data, pos as int),
                types,
                classes,
                ArrayTables { list: Seq::empty(), index: Map::empty() },
            )
    }
}

/// Only readable types can be read, whatever array types are known.
proof fn lemma_type_readable(
    img: Image,
    vaddr: u64,
    types: Seq<u64>,
    classes: Seq<u64>,
    arrays: ArrayTables,
)
    requires
        types.len() <= usize::MAX,
        classes.len() <= usize::MAX,
        arrays_agree(img, type_tables::index_map(types), arrays),
    ensures
        type_tables::type_at(
            img,
            vaddr,
            type_tables::index_map(types),
            type_tables::index_map(classes),
            arrays,
        ) is Ok <==> type_is_readable(img, vaddr, types, classes),
{
    let map = type_tables::index_map(types);
    let class_map = type_tables::index_map(classes);
    let none = ArrayTables { list: Seq::<ArrayTypeView>::empty(), index: Map::<u64, usize>::empty() };
    if let Ok(pos) = object_file::locate(img.segments, vaddr) {
        let word = bytes::u64_at(img.data, pos as int);
        type_tables::law_type_fails(img, vaddr, pos, map, class_map, arrays);
        if pos + 12 <= img.data.len() {
            if exists|element: Il2CppTypeEnum|
                #[trigger] types::type_code(element) == img.data[pos + 10] {
                let element = choose|element: Il2CppTypeEnum|
                    #[trigger] types::type_code(element) == img.data[pos + 10];
                type_tables::law_type_fields(img, vaddr, pos, types, classes, arrays, element);
                if arrays.index.dom().contains(word) {
                    assert(type_tables::array_type_at(img, word, map) is Ok);
                }
                assert(type_tables::word_is_known(img, element, word, types, classes, arrays)
                    == type_tables::word_is_known(img, element, word, types, classes, none));
                if type_is_readable(img, vaddr, types, classes) {
                    let other = choose|other: Il2CppTypeEnum|
                        #[trigger] types::type_code(other) == img.data[pos + 10]
                            && type_tables::word_is_known(img, other, word, types, classes, none);
                    types::law_type_codes_distinct(element, other);
                }
            }
        } else {
            assert(type_tables::type_at(img, vaddr, map, class_map, arrays) is Err);
        }
    } else {
        type_tables::law_unlocated(img, vaddr, map, map, class_map, arrays);
    }
}

/// What a type that was read says of the bytes there.
proof fn lemma_type_is_at(
    img: Image,
    vaddr: u64,
    types: Seq<u64>,
    classes: Seq<u64>,
    arrays: ArrayTables,
)
    requires
        types.len() <= usize::MAX,
        classes.len() <= usize::MAX,
        arrays.list.len() < usize::MAX,
        arrays_agree(img, type_tables::index_map(types), arrays),
        type_tables::type_at(
            img,
            vaddr,
            type_tables::index_map(types),
            type_tables::index_map(classes),
            arrays,
        ) is Ok,
    ensures
        ({
            let (ty, after) = type_tables::type_at(
                img,
                vaddr,
                type_tables::index_map(types),
                type_tables::index_map(classes),
                arrays,
            ).unwrap();
            &&& is_type_at(img, vaddr, ty, types, classes, after.list)
            &&& arrays.list.len() <= after.list.len()
            &&& forall|k: int| 0 <= k < arrays.list.len() ==> after.list[k] == arrays.list[k]
            &&& after.list.len() > arrays.list.len() ==> after.list.len() == arrays.list.len() + 1
                && ty.data == TypeData::ArrayType(arrays.list.len() as usize)
        }),
{
    lemma_type_readable(img, vaddr, types, classes, arrays);
    let pos = object_file::locate(img.segments, vaddr).unwrap();
    let element = choose|element: Il2CppTypeEnum|
        #[trigger] types::type_code(element) == img.data[pos + 10];
    type_tables::law_type_fields(img, vaddr, pos, types, classes, arrays, element);
    let word = bytes::u64_at(img.data, pos as int);
    if arrays.index.dom().contains(word) {
        assert(arrays.index[word] < arrays.list.len());
    }
}

/// The types that have been read, given their addresses.
proof fn lemma_types_described(
    img: Image,
    addrs: Seq<u64>,
    classes: Seq<u64>,
    n: nat,
)
    requires
        n <= addrs.len() <= u32::MAX,
        classes.len() <= u32::MAX,
    ensures
        types_at(
            img,
            addrs,
            type_tables::index_map(addrs),
            type_tables::index_map(classes),
            n,
        ) is Ok <==> forall|i: int|
            0 <= i < n ==> type_is_readable(img, #[trigger] addrs[i], addrs, classes),
        types_at(
            img,
            addrs,
            type_tables::index_map(addrs),
            type_tables::index_map(classes),
            n,
        ) matches Ok((list, arrays)) ==> {
            &&& list.len() == n
            &&& arrays.list.len() <= n
            &&& arrays_agree(img, type_tables::index_map(addrs), arrays)
            &&& forall|i: int|
                0 <= i < n ==> is_type_at(
                    img,
                    addrs[i],
                    #[trigger] list[i],
                    addrs,
                    classes,
                    arrays.list,
                )
            &&& forall|k: int|
                0 <= k < arrays.list.len() ==> #[trigger] appears_before(list, n as int, k)
            &&& forall|i: int, j: int|
                0 <= i < n && 0 <= j && (list[i].data matches TypeData::ArrayType(k) && j < k)
                    ==> #[trigger] appears_before(list, i, j)
        },
    decreases n,
{
    if n > 0 {
        let m = (n - 1) as nat;
        let types = type_tables::index_map(addrs);
        let class_map = type_tables::index_map(classes);
        lemma_types_described(img, addrs, classes, m);
        let before_read = types_at(img, addrs, types, class_map, m);
        if let Ok((front, before)) = before_read {
            lemma_type_readable(img, addrs[m as int], addrs, classes, before);
            if let Ok((last, after)) = type_tables::type_at(
                img,
                addrs[m as int],
                types,
                class_map,
                before,
            ) {
                lemma_type_is_at(img, addrs[m as int], addrs, classes, before);
                lemma_index_map_range(addrs);
                lemma_index_map_range(classes);
                lemma_types_at(img, addrs, types, class_map, n, addrs.len(), classes.len());
                let (list, arrays) = types_at(img, addrs, types, class_map, n).unwrap();
                assert(list == front.push(last));
                assert(arrays == after);
                assert forall|i: int| 0 <= i < n implies is_type_at(
                    img,
                    addrs[i],
                    #[trigger] list[i],
                    addrs,
                    classes,
                    arrays.list,
                ) by {
                    if i < m {
                        assert(list[i] == front[i]);
                        assert(is_type_at(img, addrs[i], front[i], addrs, classes, before.list));
                    }
                }
                assert forall|k: int| 0 <= k < arrays.list.len() implies #[trigger] appears_before(
                    list,
                    n as int,
                    k,
                ) by {
                    if k < before.list.len() {
                        assert(appears_before(front, m as int, k));
                        let i = choose|i: int|
                            0 <= i < m && (#[trigger] front[i]).data == TypeData::ArrayType(
                                k as usize,
                            );
                        assert(list[i].data == TypeData::ArrayType(k as usize));
                    } else {
                        assert(list[m as int].data == TypeData::ArrayType(k as usize));
                    }
                }
                assert forall|i: int, j: int|
                    0 <= i < n && 0 <= j && (list[i].data matches TypeData::ArrayType(k) && j
                        < k) implies #[trigger] appears_before(list, i, j) by {
                    if i < m {
                        assert(list[i] == front[i]);
                        assert(appears_before(front, i, j));
                        let h = choose|h: int|
                            0 <= h < i && (#[trigger] front[h]).data == TypeData::ArrayType(
                                j as usize,
                            );
                        assert(list[h].data == TypeData::ArrayType(j as usize));
                    } else {
                        assert(j < before.list.len());
                        assert(appears_before(front, m as int, j));
                        let h = choose|h: int|
                            0 <= h < m && (#[trigger] front[h]).data == TypeData::ArrayType(
                                j as usize,
                            );
                        assert(list[h].data == TypeData::ArrayType(j as usize));
                    }
                }
                assert forall|i: int| 0 <= i < n implies type_is_readable(
                    img,
                    #[trigger] addrs[i],
                    addrs,
                    classes,
                ) by {}
            } else {
                assert(!type_is_readable(img, addrs[m as int], addrs, classes));
            }
        } else {
            let i = choose|i: int|
                0 <= i < m && !type_is_readable(img, #[trigger] addrs[i], addrs, classes);
            assert(0 <= i < n && !type_is_readable(img, addrs[i], addrs, classes));
        }
    }
}

/// Whether one of the types before position `i` has the j-th array type.
pub open spec fn appears_before(types: Seq<Il2CppType>, i: int, j: int) -> bool {
    exists|h: int| 0 <= h < i && (#[trigger] types[h]).data == TypeData::ArrayType(j as usize)
}

/// The types of a registration are those at the listed addresses, in the order of the list.
pub proof fn law_registered_types(
    img: Image,
    vaddr: u64,
    pos: u64,
    counts: Seq<u16>,
    classes: Seq<u64>,
    types: Seq<u64>,
    reg: MetadataRegistrationView,
)
    requires
        object_file::locate(img.segments, vaddr) == Ok::<u64, ReadFailure>(pos),
        reader::counted_array::<u64>(img, pos as int) == Ok::<Seq<u64>, ReadFailure>(classes),
        reader::counted_array::<u64>(img, pos + 48) == Ok::<Seq<u64>, ReadFailure>(types),
        metadata_registration_at(img, vaddr, counts) == Ok::<MetadataRegistrationView, ReadFailure>(
            reg,
        ),
    ensures
        reg.types.len() == types.len(),
        forall|i: int|
            0 <= i < types.len() ==> is_type_at(
                img,
                types[i],
                #[trigger] reg.types[i],
                types,
                classes,
                reg.array_types,
            ),
{
    let tables = tables_at(img, pos as int).unwrap();
    law_tables(img, pos as int, tables);
    reader::law_counted_array_length::<u64>(img, pos as int);
    reader::law_counted_array_length::<u64>(img, pos + 48);
    lemma_types_described(img, types, classes, types.len());
}

/// The data of a type that refers to no address is its data word, where that fits 32 bits: the
/// index of a generic parameter for a parameter of a type or of a method, and the index of a type
/// definition for every element type that is not built from others.
pub proof fn law_registered_type_words(
    img: Image,
    vaddr: u64,
    pos: u64,
    counts: Seq<u16>,
    types: Seq<u64>,
    i: int,
)
    requires
        object_file::locate(img.segments, vaddr) == Ok::<u64, ReadFailure>(pos),
        reader::counted_array::<u64>(img, pos + 48) == Ok::<Seq<u64>, ReadFailure>(types),
        metadata_registration_at(img, vaddr, counts) is Ok,
        0 <= i < types.len(),
    ensures
        ({
            let ty = metadata_registration_at(img, vaddr, counts).unwrap().types[i];
            let at = object_file::locate(img.segments, types[i]).unwrap();
            let word = bytes::u64_at(img.data, at as int);
            word < 0x1_0000_0000 ==> match ty.ty {
                Il2CppTypeEnum::Var | Il2CppTypeEnum::Mvar => ty.data
                    == TypeData::GenericParameterIndex(
                    GenericParameterIndex { index: word as u32 },
                ),
                Il2CppTypeEnum::Ptr
                | Il2CppTypeEnum::Szarray
                | Il2CppTypeEnum::Array
                | Il2CppTypeEnum::Genericinst => true,
                _ => ty.data == TypeData::TypeDefinitionIndex(
                    TypeDefinitionIndex { index: word as u32 },
                ),
            }
        }),
{
    let tables = tables_at(img, pos as int).unwrap();
    law_tables(img, pos as int, tables);
    let reg = metadata_registration_at(img, vaddr, counts).unwrap();
    law_registered_types(img, vaddr, pos, counts, tables.generic_classes, types, reg);
    assert(is_type_at(
        img,
        types[i],
        reg.types[i],
        types,
        tables.generic_classes,
        reg.array_types,
    ));
}

/// The array types of a registration are exactly those that its types refer to, in the order in
/// which they first do.
pub proof fn law_registered_array_types(img: Image, vaddr: u64, counts: Seq<u16>)
    requires
        metadata_registration_at(img, vaddr, counts) is Ok,
    ensures
        ({
            let reg = metadata_registration_at(img, vaddr, counts).unwrap();
            &&& forall|k: int|
                0 <= k < reg.array_types.len() ==> #[trigger] appears_before(
                    reg.types,
                    reg.types.len() as int,
                    k,
                )
            &&& forall|i: int, j: int|
                0 <= i < reg.types.len() && 0 <= j && (reg.types[i].data matches TypeData::ArrayType(
                    k,
                ) && j < k) ==> #[trigger] appears_before(reg.types, i, j)
        }),
{
    let pos = object_file::locate(img.segments, vaddr).unwrap() as int;
    let tables = tables_at(img, pos).unwrap();
    law_tables(img, pos, tables);
    reader::law_counted_array_length::<u64>(img, pos);
    reader::law_counted_array_length::<u64>(img, pos + 48);
    lemma_types_described(img, tables.types, tables.generic_classes, tables.types.len());
}

/// What the lists of a registration are made from.
proof fn lemma_resolved(img: Image, t: TablesView, counts: Seq<u16>)
    requires
        resolve_tables(img, t, counts) is Ok,
    ensures
        ({
            let reg = resolve_tables(img, t, counts).unwrap();
            let insts = type_tables::index_map(t.generic_insts);
            let types = type_tables::index_map(t.types);
            &&& reg.generic_method_table == t.generic_method_table
            &&& reg.method_specs == t.method_specs
            &&& type_tables::collect(
                t.generic_classes.len(),
                class_reads(img, t.generic_classes, insts, types),
            ) == Ok::<Seq<Il2CppGenericClass>, ReadFailure>(reg.generic_classes)
            &&& type_tables::collect(
                t.generic_insts.len(),
                inst_reads(img, t.generic_insts, types),
            ) == Ok::<Seq<Seq<usize>>, ReadFailure>(reg.generic_insts)
            &&& reg.type_definition_sizes matches Some(sizes) && type_tables::collect(
                t.type_definition_sizes.len(),
                sizes_reads(img, t.type_definition_sizes),
            ) == Ok::<Seq<Il2CppTypeDefinitionSizes>, ReadFailure>(sizes)
            &&& reg.field_offsets matches Some(offsets) && type_tables::collect(
                t.field_offsets.len(),
                field_offset_reads(img, t.field_offsets, counts),
            ) == Ok::<Seq<Seq<u32>>, ReadFailure>(offsets)
        }),
{
}

/// The generic classes of a registration are those at the listed addresses, in the order of the
/// list.
pub proof fn law_registered_classes(
    img: Image,
    vaddr: u64,
    pos: u64,
    counts: Seq<u16>,
    t: TablesView,
    reg: MetadataRegistrationView,
)
    requires
        object_file::locate(img.segments, vaddr) == Ok::<u64, ReadFailure>(pos),
        tables_at(img, pos as int) == Ok::<TablesView, ReadFailure>(t),
        metadata_registration_at(img, vaddr, counts) == Ok::<MetadataRegistrationView, ReadFailure>(
            reg,
        ),
    ensures
        reg.generic_classes.len() == t.generic_classes.len(),
        forall|i: int|
            0 <= i < t.generic_classes.len() ==> type_tables::generic_class_at(
                img,
                t.generic_classes[i],
                type_tables::index_map(t.generic_insts),
                type_tables::index_map(t.types),
            ) == Ok::<Il2CppGenericClass, ReadFailure>(#[trigger] reg.generic_classes[i]),
{
    lemma_resolved(img, t, counts);
    let insts = type_tables::index_map(t.generic_insts);
    let types = type_tables::index_map(t.types);
    let f = class_reads(img, t.generic_classes, insts, types);
    type_tables::law_collect(t.generic_classes.len(), f);
    assert forall|i: int| 0 <= i < t.generic_classes.len() implies type_tables::generic_class_at(
        img,
        t.generic_classes[i],
        insts,
        types,
    ) == Ok::<Il2CppGenericClass, ReadFailure>(#[trigger] reg.generic_classes[i]) by {
        assert(f(i) == Ok::<Il2CppGenericClass, ReadFailure>(reg.generic_classes[i]));
    }
}

/// The generic instantiations of a registration are those at the listed addresses, in the order
/// of the list.
pub proof fn law_registered_insts(
    img: Image,
    vaddr: u64,
    pos: u64,
    counts: Seq<u16>,
    t: TablesView,
    reg: MetadataRegistrationView,
)
    requires
        object_file::locate(img.segments, vaddr) == Ok::<u64, ReadFailure>(pos),
        tables_at(img, pos as int) == Ok::<TablesView, ReadFailure>(t),
        metadata_registration_at(img, vaddr, counts) == Ok::<MetadataRegistrationView, ReadFailure>(
            reg,
        ),
    ensures
        reg.generic_insts.len() == t.generic_insts.len(),
        forall|i: int|
            0 <= i < t.generic_insts.len() ==> type_tables::generic_inst_at(
                img,
                t.generic_insts[i],
                type_tables::index_map(t.types),
            ) == Ok::<Seq<usize>, ReadFailure>(#[trigger] reg.generic_insts[i]),
{
    lemma_resolved(img, t, counts);
    let types = type_tables::index_map(t.types);
    let g = inst_reads(img, t.generic_insts, types);
    type_tables::law_collect(t.generic_insts.len(), g);
    assert forall|i: int| 0 <= i < t.generic_insts.len() implies type_tables::generic_inst_at(
        img,
        t.generic_insts[i],
        types,
    ) == Ok::<Seq<usize>, ReadFailure>(#[trigger] reg.generic_insts[i]) by {
        assert(g(i) == Ok::<Seq<usize>, ReadFailure>(reg.generic_insts[i]));
    }
}

/// The sizes of a registration are those at the listed addresses, in the order of the list. The
/// generic methods and the method specifications are those of its own arrays.
pub proof fn law_registered_sizes_and_methods(
    img: Image,
    vaddr: u64,
    pos: u64,
    counts: Seq<u16>,
    t: TablesView,
    reg: MetadataRegistrationView,
)
    requires
        object_file::locate(img.segments, vaddr) == Ok::<u64, ReadFailure>(pos),
        tables_at(img, pos as int) == Ok::<TablesView, ReadFailure>(t),
        metadata_registration_at(img, vaddr, counts) == Ok::<MetadataRegistrationView, ReadFailure>(
            reg,
        ),
    ensures
        reg.generic_method_table == t.generic_method_table,
        reg.method_specs == t.method_specs,
        reg.type_definition_sizes is Some,
        ({
            let sizes = reg.type_definition_sizes.unwrap();
            &&& sizes.len() == t.type_definition_sizes.len()
            &&& forall|i: int|
                0 <= i < sizes.len() ==> sizes_at(img, t.type_definition_sizes[i]) == Ok::<
                    Il2CppTypeDefinitionSizes,
                    ReadFailure,
                >(#[trigger] sizes[i])
        }),
{
    lemma_resolved(img, t, counts);
    let h = sizes_reads(img, t.type_definition_sizes);
    type_tables::law_collect(t.type_definition_sizes.len(), h);
    let sizes = reg.type_definition_sizes.unwrap();
    assert forall|i: int| 0 <= i < sizes.len() implies sizes_at(img, t.type_definition_sizes[i])
        == Ok::<Il2CppTypeDefinitionSizes, ReadFailure>(#[trigger] sizes[i]) by {
        assert(h(i) == Ok::<Il2CppTypeDefinitionSizes, ReadFailure>(sizes[i]));
    }
}

/// Whether this number is the k-th of 32 bits from an address on.
pub open spec fn offset_is_at(img: Image, vaddr: u64, k: int, offset: u32) -> bool {
    object_file::locate(img.segments, vaddr) matches Ok(at) && at + 4 * k + 4 <= img.data.len()
        && offset == bytes::u32_at(img.data, at + 4 * k)
}

/// Field offsets are as many 32-bit numbers as the type definition has fields, from their address
/// on. A null address stands for no offsets.
pub proof fn law_field_offsets(img: Image, vaddr: u64, counts: Seq<u16>, i: int, list: Seq<u32>)
    requires
        0 <= i,
        field_offsets_at(img, vaddr, counts, i) == Ok::<Seq<u32>, ReadFailure>(list),
    ensures
        vaddr == 0 ==> list.len() == 0,
        vaddr != 0 ==> i < counts.len() && list.len() == counts[i] && forall|k: int|
            0 <= k < list.len() ==> offset_is_at(img, vaddr, k, #[trigger] list[k]),
{
}

/// The field offsets of a registration are those at the listed addresses, each for the type
/// definition at the same position.
pub proof fn law_registered_offsets(
    img: Image,
    vaddr: u64,
    pos: u64,
    counts: Seq<u16>,
    addrs: Seq<u64>,
    reg: MetadataRegistrationView,
)
    requires
        object_file::locate(img.segments, vaddr) == Ok::<u64, ReadFailure>(pos),
        reader::counted_array::<u64>(img, pos + 80) == Ok::<Seq<u64>, ReadFailure>(addrs),
        metadata_registration_at(img, vaddr, counts) == Ok::<MetadataRegistrationView, ReadFailure>(
            reg,
        ),
    ensures
        reg.field_offsets is Some,
        reg.field_offsets.unwrap().len() == addrs.len(),
        forall|i: int|
            0 <= i < addrs.len() ==> field_offsets_at(img, addrs[i], counts, i) == Ok::<
                Seq<u32>,
                ReadFailure,
            >(#[trigger] reg.field_offsets.unwrap()[i]),
{
    let tables = tables_at(img, pos as int).unwrap();
    law_tables(img, pos as int, tables);
    lemma_resolved(img, tables, counts);
    let f = field_offset_reads(img, addrs, counts);
    type_tables::law_collect(addrs.len(), f);
    let offsets = reg.field_offsets.unwrap();
    assert forall|i: int| 0 <= i < addrs.len() implies field_offsets_at(img, addrs[i], counts, i)
        == Ok::<Seq<u32>, ReadFailure>(#[trigger] offsets[i]) by {
        assert(f(i) == Ok::<Seq<u32>, ReadFailure>(offsets[i]));
    }
}

/// Field offsets fail where their address cannot be located, where there is no such type
/// definition, or where the data ends inside them; they can be read otherwise.
pub proof fn law_field_offsets_fail(img: Image, vaddr: u64, counts: Seq<u16>, i: int)
    requires
        0 <= i,
        vaddr != 0,
    ensures
        match object_file::locate(img.segments, vaddr) {
            Err(e) => field_offsets_at(img, vaddr, counts, i) == Err::<Seq<u32>, ReadFailure>(e),
            Ok(pos) => {
                &&& i >= counts.len() ==> field_offsets_at(img, vaddr, counts, i) == Err::<
                    Seq<u32>,
                    ReadFailure,
                >(ReadFailure::Malformed)
                &&& i < counts.len() && counts[i] > 0 && pos + 4 * counts[i] > img.data.len()
                    ==> field_offsets_at(img, vaddr, counts, i) == Err::<Seq<u32>, ReadFailure>(
                    ReadFailure::Error(Il2CppBinaryError::Io),
                )
                &&& i < counts.len() && (counts[i] == 0 || pos + 4 * counts[i] <= img.data.len())
                    ==> field_offsets_at(img, vaddr, counts, i) is Ok
            },
        },
{
}

/// A registration can be read exactly if its arrays can be and everything that they list can be.
pub proof fn law_registration_reads(img: Image, vaddr: u64, pos: u64, counts: Seq<u16>)
    requires
        object_file::locate(img.segments, vaddr) == Ok::<u64, ReadFailure>(pos),
    ensures
        metadata_registration_at(img, vaddr, counts) is Ok <==> (tables_at(
            img,
            pos as int,
        ) matches Ok(t) && {
            &&& forall|i: int|
                0 <= i < t.generic_classes.len() ==> type_tables::generic_class_at(
                    img,
                    #[trigger] t.generic_classes[i],
                    type_tables::index_map(t.generic_insts),
                    type_tables::index_map(t.types),
                ) is Ok
            &&& forall|i: int|
                0 <= i < t.types.len() ==> type_is_readable(
                    img,
                    #[trigger] t.types[i],
                    t.types,
                    t.generic_classes,
                )
            &&& forall|i: int|
                0 <= i < t.generic_insts.len() ==> type_tables::generic_inst_at(
                    img,
                    #[trigger] t.generic_insts[i],
                    type_tables::index_map(t.types),
                ) is Ok
            &&& forall|i: int|
                0 <= i < t.type_definition_sizes.len() ==> sizes_at(
                    img,
                    #[trigger] t.type_definition_sizes[i],
                ) is Ok
            &&& forall|i: int|
                0 <= i < t.field_offsets.len() ==> field_offsets_at(
                    img,
                    #[trigger] t.field_offsets[i],
                    counts,
                    i,
                ) is Ok
        }),
{
    if let Ok(t) = tables_at(img, pos as int) {
        law_tables(img, pos as int, t);
        reader::law_counted_array_length::<u64>(img, pos as int);
        reader::law_counted_array_length::<u64>(img, pos + 48);
        let insts = type_tables::index_map(t.generic_insts);
        let types = type_tables::index_map(t.types);
        let f = class_reads(img, t.generic_classes, insts, types);
        type_tables::law_collect(t.generic_classes.len(), f);
        lemma_types_described(img, t.types, t.generic_classes, t.types.len());
        let g = inst_reads(img, t.generic_insts, types);
        type_tables::law_collect(t.generic_insts.len(), g);
        let h = sizes_reads(img, t.type_definition_sizes);
        type_tables::law_collect(t.type_definition_sizes.len(), h);
        let o = field_offset_reads(img, t.field_offsets, counts);
        type_tables::law_collect(t.field_offsets.len(), o);
        assert((forall|i: int| 0 <= i < t.generic_classes.len() ==> (#[trigger] f(i)) is Ok)
            <==> forall|i: int|
            0 <= i < t.generic_classes.len() ==> type_tables::generic_class_at(
                img,
                #[trigger] t.generic_classes[i],
                insts,
                types,
            ) is Ok) by {
            if forall|i: int| 0 <= i < t.generic_classes.len() ==> (#[trigger] f(i)) is Ok {
                assert forall|i: int|
                    0 <= i < t.generic_classes.len() implies type_tables::generic_class_at(
                    img,
                    #[trigger] t.generic_classes[i],
                    insts,
                    types,
                ) is Ok by {
                    assert(f(i) is Ok);
                }
            }
        }
        assert((forall|i: int| 0 <= i < t.generic_insts.len() ==> (#[trigger] g(i)) is Ok)
            <==> forall|i: int|
            0 <= i < t.generic_insts.len() ==> type_tables::generic_inst_at(
                img,
                #[trigger] t.generic_insts[i],
                types,
            ) is Ok) by {
            if forall|i: int| 0 <= i < t.generic_insts.len() ==> (#[trigger] g(i)) is Ok {
                assert forall|i: int|
                    0 <= i < t.generic_insts.len() implies type_tables::generic_inst_at(
                    img,
                    #[trigger] t.generic_insts[i],
                    types,
                ) is Ok by {
                    assert(g(i) is Ok);
                }
            }
        }
        assert((forall|i: int| 0 <= i < t.type_definition_sizes.len() ==> (#[trigger] h(i)) is Ok)
            <==> forall|i: int|
            0 <= i < t.type_definition_sizes.len() ==> sizes_at(
                img,
                #[trigger] t.type_definition_sizes[i],
            ) is Ok) by {
            if forall|i: int| 0 <= i < t.type_definition_sizes.len() ==> (#[trigger] h(i)) is Ok {
                assert forall|i: int| 0 <= i < t.type_definition_sizes.len() implies sizes_at(
                    img,
                    #[trigger] t.type_definition_sizes[i],
                ) is Ok by {
                    assert(h(i) is Ok);
                }
            }
        }
        assert((forall|i: int| 0 <= i < t.field_offsets.len() ==> (#[trigger] o(i)) is Ok)
            <==> forall|i: int|
            0 <= i < t.field_offsets.len() ==> field_offsets_at(
                img,
                #[trigger] t.field_offsets[i],
                counts,
                i,
            ) is Ok) by {
            if forall|i: int| 0 <= i < t.field_offsets.len() ==> (#[trigger] o(i)) is Ok {
                assert forall|i: int| 0 <= i < t.field_offsets.len() implies field_offsets_at(
                    img,
                    #[trigger] t.field_offsets[i],
                    counts,
                    i,
                ) is Ok by {
                    assert(o(i) is Ok);
                }
            }
        }
    }
}

/// The sizes of a type definition fail where their address cannot be located or the data ends
/// inside them.
pub proof fn law_sizes_fail(img: Image, vaddr: u64)
    ensures
        match object_file::locate(img.segments, vaddr) {
            Err(e) => sizes_at(img, vaddr) == Err::<Il2CppTypeDefinitionSizes, ReadFailure>(e),
            Ok(pos) => match Il2CppTypeDefinitionSizes::decode(img.data, pos as int) {
                Err(e) => sizes_at(img, vaddr) == Err::<Il2CppTypeDefinitionSizes, ReadFailure>(
                    ReadFailure::Error(Il2CppBinaryError::BinRead(e)),
                ),
                Ok((sizes, _)) => sizes_at(img, vaddr) == Ok::<
                    Il2CppTypeDefinitionSizes,
                    ReadFailure,
                >(sizes),
            },
        },
{
}

/// The classes of a registration are read first, then its types, instantiations, sizes and field
/// offsets; the first that fails stops it.
pub proof fn law_registration_fails(
    img: Image,
    vaddr: u64,
    pos: u64,
    counts: Seq<u16>,
    t: TablesView,
)
    requires
        object_file::locate(img.segments, vaddr) == Ok::<u64, ReadFailure>(pos),
        tables_at(img, pos as int) == Ok::<TablesView, ReadFailure>(t),
    ensures
        ({
            let r = metadata_registration_at(img, vaddr, counts);
            let insts = type_tables::index_map(t.generic_insts);
            let types = type_tables::index_map(t.types);
            let classes = type_tables::index_map(t.generic_classes);
            let a = type_tables::collect(
                t.generic_classes.len(),
                |i: int| type_tables::generic_class_at(img, t.generic_classes[i], insts, types),
            );
            let b = types_at(img, t.types, types, classes, t.types.len());
            let c = type_tables::collect(
                t.generic_insts.len(),
                |i: int| type_tables::generic_inst_at(img, t.generic_insts[i], types),
            );
            let d = type_tables::collect(
                t.type_definition_sizes.len(),
                |i: int| sizes_at(img, t.type_definition_sizes[i]),
            );
            let e = type_tables::collect(
                t.field_offsets.len(),
                |i: int| field_offsets_at(img, t.field_offsets[i], counts, i),
            );
            &&& a is Err ==> r is Err && r->Err_0 == a->Err_0
            &&& a is Ok && b is Err ==> r is Err && r->Err_0 == b->Err_0
            &&& a is Ok && b is Ok && c is Err ==> r is Err && r->Err_0 == c->Err_0
            &&& a is Ok && b is Ok && c is Ok && d is Err ==> r is Err && r->Err_0 == d->Err_0
            &&& a is Ok && b is Ok && c is Ok && d is Ok && e is Err ==> r is Err && r->Err_0
                == e->Err_0
        }),
{
}

/// Types fail with the first of them that cannot be read.
pub proof fn law_types_fail(
    img: Image,
    addrs: Seq<u64>,
    types: Map<u64, usize>,
    classes: Map<u64, usize>,
    n: nat,
    k: nat,
)
    requires
        k < n,
        types_at(img, addrs, types, classes, k) matches Ok((_, arrays))
            && type_tables::type_at(img, addrs[k as int], types, classes, arrays) is Err,
    ensures
        types_at(img, addrs, types, classes, n) is Err,
        types_at(img, addrs, types, classes, n)->Err_0 == type_tables::type_at(
            img,
            addrs[k as int],
            types,
            classes,
            types_at(img, addrs, types, classes, k).unwrap().1,
        )->Err_0,
{
    lemma_types_stop(img, addrs, types, classes, k + 1, n);
}

/// The number of fields of a type definition is its own.
pub proof fn law_field_counts(definitions: Seq<Il2CppTypeDefinition>)
    ensures
        field_counts(definitions).len() == definitions.len(),
        forall|i: int|
            0 <= i < definitions.len() ==> #[trigger] field_counts(definitions)[i]
                == definitions[i].field_count,
{
}

/// The value of a registration is its fields.
pub proof fn law_registration_view(reg: Il2CppMetadataRegistration)
    ensures
        reg@.generic_classes == reg.generic_classes@,
        reg@.generic_insts.len() == reg.generic_insts@.len(),
        forall|i: int|
            0 <= i < reg.generic_insts@.len() ==> #[trigger] reg@.generic_insts[i]
                == reg.generic_insts@[i].types@,
        reg@.generic_method_table == reg.generic_method_table@,
        reg@.types == reg.types@,
        reg@.array_types.len() == reg.array_types@.len(),
        forall|i: int|
            0 <= i < reg.array_types@.len() ==> {
                &&& (#[trigger] reg@.array_types[i]).elem_ty == reg.array_types@[i].elem_ty
                &&& reg@.array_types[i].rank == reg.array_types@[i].rank
                &&& reg@.array_types[i].sizes == reg.array_types@[i].sizes@
                &&& reg@.array_types[i].lower_bounds == reg.array_types@[i].lower_bounds@
            },
        reg@.method_specs == reg.method_specs@,
        reg@.field_offsets is Some <==> reg.field_offsets is Some,
        reg.field_offsets matches Some(offsets) ==> {
            &&& reg@.field_offsets.unwrap().len() == offsets@.len()
            &&& forall|i: int|
                0 <= i < offsets@.len() ==> #[trigger] reg@.field_offsets.unwrap()[i]
                    == offsets@[i]@
        },
        reg@.type_definition_sizes is Some <==> reg.type_definition_sizes is Some,
        reg.type_definition_sizes matches Some(sizes) ==> reg@.type_definition_sizes == Some(
            sizes@,
        ),
{
}

/// A null address stands for no field offsets, whatever the type definition.
pub proof fn law_null_field_offsets(img: Image, counts: Seq<u16>, i: int)
    ensures
        field_offsets_at(img, 0, counts, i) == Ok::<Seq<u32>, ReadFailure>(Seq::empty()),
{
}

/// A registration whose address cannot be located, or whose arrays cannot be read, fails with
/// them.
pub proof fn law_registration_unreadable(img: Image, vaddr: u64, counts: Seq<u16>)
    ensures
        match object_file::locate(img.segments, vaddr) {
            Err(e) => metadata_registration_at(img, vaddr, counts) == Err::<
                MetadataRegistrationView,
                ReadFailure,
            >(e),
            Ok(pos) => tables_at(img, pos as int) matches Err(e) ==> metadata_registration_at(
                img,
                vaddr,
                counts,
            ) == Err::<MetadataRegistrationView, ReadFailure>(e),
        },
{
}

} // verus!
