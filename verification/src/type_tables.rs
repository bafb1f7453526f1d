//! The types of a program, its generic classes and its generic instantiations.

use std::collections::HashMap;

use vstd::prelude::*;

use crate::bytes;
use crate::bytes::Cursor;
use crate::errors::{Il2CppBinaryError, ReadFailure};
use crate::global_metadata::{GenericParameterIndex, TypeDefinitionIndex};
use crate::object_file;
use crate::reader;
use crate::reader::{read_arr, read_len_arr, Image, ObjectReader};
use crate::types;
use crate::types::{
    ArrayTypeView, Il2CppArrayType, Il2CppGenericClass, Il2CppGenericContext, Il2CppGenericInst,
    Il2CppType, Il2CppTypeEnum, TypeData,
};

verus! {

/// From each address to the last position at which it stands in the list.
pub open spec fn index_map(addrs: Seq<u64>) -> Map<u64, usize>
    decreases addrs.len(),
{
    if addrs.len() == 0 {
        Map::empty()
    } else {
        index_map(addrs.drop_last()).insert(addrs.last(), (addrs.len() - 1) as usize)
    }
}

/// The map knows exactly the listed addresses, each by the last position at which it stands.
pub proof fn law_index_map(addrs: Seq<u64>, addr: u64)
    requires
        addrs.len() <= usize::MAX,
    ensures
        index_map(addrs).dom().contains(addr) <==> addrs.contains(addr),
        index_map(addrs).dom().contains(addr) ==> {
            let index = index_map(addrs)[addr];
            &&& index < addrs.len()
            &&& addrs[index as int] == addr
            &&& forall|k: int| index < k < addrs.len() ==> #[trigger] addrs[k] != addr
        },
    decreases addrs.len(),
{
    if addrs.len() > 0 {
        let front = addrs.drop_last();
        law_index_map(front, addr);
        if addrs.contains(addr) {
            let k = choose|k: int| 0 <= k < addrs.len() && addrs[k] == addr;
            if k < front.len() {
                assert(front[k] == addr);
            }
        }
        if front.contains(addr) {
            let k = choose|k: int| 0 <= k < front.len() && front[k] == addr;
            assert(addrs[k] == addr);
        }
        assert(addrs[addrs.len() - 1] == addrs.last());
        assert forall|k: int| 0 <= k < front.len() implies front[k] == addrs[k] by {}
    }
}

/// What a map holds for a key, if anything.
pub open spec fn lookup(map: Map<u64, usize>, key: u64) -> Option<usize> {
    if map.dom().contains(key) {
        Some(map[key])
    } else {
        None
    }
}

/// The results of `f` on `0`, `1` and so on up to `n`, or the first failure among them.
pub open spec fn collect<B>(n: nat, f: spec_fn(int) -> Result<B, ReadFailure>) -> Result<
    Seq<B>,
    ReadFailure,
>
    decreases n,
{
    if n == 0 {
        Ok(Seq::empty())
    } else {
        match collect((n - 1) as nat, f) {
            Ok(front) => match f(n - 1) {
                Ok(last) => Ok(front.push(last)),
                Err(e) => Err(e),
            },
            Err(e) => Err(e),
        }
    }
}

/// The first failure stops the whole list.
pub proof fn lemma_collect_stop<B>(n: nat, m: nat, f: spec_fn(int) -> Result<B, ReadFailure>)
    requires
        n <= m,
        collect(n, f) is Err,
    ensures
        collect(m, f) == collect(n, f),
    decreases m - n,
{
    if n < m {
        lemma_collect_stop(n, (m - 1) as nat, f);
    }
}

/// A complete list holds one result per number.
pub proof fn lemma_collect_items<B>(n: nat, f: spec_fn(int) -> Result<B, ReadFailure>)
    requires
        collect(n, f) is Ok,
    ensures
        collect(n, f).unwrap().len() == n,
        forall|i: int|
            0 <= i < n ==> f(i) == Ok::<B, ReadFailure>(#[trigger] collect(n, f).unwrap()[i]),
    decreases n,
{
    if n > 0 {
        lemma_collect_items((n - 1) as nat, f);
    }
}

/// A list is complete exactly if every one of its results is there, and it holds them in order.
pub proof fn law_collect<B>(n: nat, f: spec_fn(int) -> Result<B, ReadFailure>)
    ensures
        collect(n, f) is Ok <==> forall|i: int| 0 <= i < n ==> (#[trigger] f(i)) is Ok,
        collect(n, f) matches Ok(list) ==> list.len() == n && forall|i: int|
            0 <= i < n ==> #[trigger] f(i) == Ok::<B, ReadFailure>(list[i]),
    decreases n,
{
    if n > 0 {
        law_collect((n - 1) as nat, f);
        if collect(n, f) is Ok {
            lemma_collect_items(n, f);
            assert forall|i: int| 0 <= i < n implies #[trigger] f(i) == Ok::<B, ReadFailure>(
                collect(n, f).unwrap()[i],
            ) by {}
        } else if forall|i: int| 0 <= i < n ==> (#[trigger] f(i)) is Ok {
            assert(f(n - 1) is Ok);
        }
    }
}

/// A list that is not complete fails with the first of its failures.
pub proof fn law_collect_fails<B>(n: nat, k: int, f: spec_fn(int) -> Result<B, ReadFailure>)
    requires
        0 <= k < n,
        f(k) is Err,
        forall|i: int| 0 <= i < k ==> (#[trigger] f(i)) is Ok,
    ensures
        collect(n, f) is Err,
        collect(n, f)->Err_0 == f(k)->Err_0,
{
    law_collect(k as nat, f);
    lemma_collect_stop((k + 1) as nat, n, f);
}

/// Maps each address to the last position at which it stands in the list.
pub(crate) fn make_index_map(addrs: &Vec<u64>) -> (map: HashMap<u64, usize>)
    ensures
        map@ == index_map(addrs@),
{
    let mut map: HashMap<u64, usize> = HashMap::new();
    let mut i: usize = 0;
    while i < addrs.len()
        invariant
            i <= addrs@.len(),
            map@ == index_map(addrs@.take(i as int)),
        decreases addrs@.len() - i,
    {
        map.insert(addrs[i], i);
        assert(addrs@.take(i + 1).drop_last() =~= addrs@.take(i as int));
        i += 1;
    }
    assert(addrs@.take(i as int) =~= addrs@);
    map
}

// ---------------------------------------------------------------------------------------------
// Generic classes and instantiations
// ---------------------------------------------------------------------------------------------

/// The generic context at offset `pos`: the addresses of a class instantiation and of a method
/// instantiation. An address that is not listed stands for none.
pub open spec fn generic_context_at(
    data: Seq<u8>,
    pos: int,
    insts: Map<u64, usize>,
) -> Result<Il2CppGenericContext, ReadFailure> {
    if bytes::fits(data, pos, 16) {
        Ok(
            Il2CppGenericContext {
                class_inst_idx: lookup(insts, bytes::u64_at(data, pos)),
                method_inst_idx: lookup(insts, bytes::u64_at(data, pos + 8)),
            },
        )
    } else {
        Err(reader::io_failure())
    }
}

/// The generic class at `vaddr`: the address of its type, which is one of the listed, and its
/// context.
pub open spec fn generic_class_at(
    img: Image,
    vaddr: u64,
    insts: Map<u64, usize>,
    types: Map<u64, usize>,
) -> Result<Il2CppGenericClass, ReadFailure> {
    match object_file::locate(img.segments, vaddr) {
        Err(e) => Err(e),
        Ok(pos) => if !bytes::fits(img.data, pos as int, 8) {
            Err(reader::io_failure())
        } else {
            match lookup(types, bytes::u64_at(img.data, pos as int)) {
                None => Err(ReadFailure::Malformed),
                Some(type_index) => match generic_context_at(img.data, pos + 8, insts) {
                    Err(e) => Err(e),
                    Ok(context) => Ok(Il2CppGenericClass { type_index, context }),
                },
            }
        },
    }
}

/// The generic instantiation at `vaddr`: a counted array of addresses of listed types.
pub open spec fn generic_inst_at(img: Image, vaddr: u64, types: Map<u64, usize>) -> Result<
    Seq<usize>,
    ReadFailure,
> {
    match object_file::locate(img.segments, vaddr) {
        Err(e) => Err(e),
        Ok(pos) => match reader::counted_array::<u64>(img, pos as int) {
            Err(e) => Err(e),
            Ok(ptrs) => if forall|i: int|
                0 <= i < ptrs.len() ==> types.dom().contains(#[trigger] ptrs[i]) {
                Ok(ptrs.map_values(|ptr: u64| types[ptr]))
            } else {
                Err(ReadFailure::Malformed)
            },
        },
    }
}

impl Il2CppGenericContext {
    /// Reads a generic context.
    pub fn read(cur: &mut Cursor, generic_inst_map: &HashMap<u64, usize>) -> (r: Result<
        Self,
        ReadFailure,
    >)
        ensures
            final(cur).data == old(cur).data,
            r == generic_context_at(old(cur).data@, old(cur).pos as int, generic_inst_map@),
            r is Ok ==> final(cur).pos == old(cur).pos + 16,
    {
        let class_inst_idx: Option<usize> = match cur.read_u64() {
            Ok(addr) => find(generic_inst_map, addr),
            Err(e) => return Err(ReadFailure::Error(e)),
        };
        let method_inst_idx: Option<usize> = match cur.read_u64() {
            Ok(addr) => find(generic_inst_map, addr),
            Err(e) => return Err(ReadFailure::Error(e)),
        };
        Ok(Il2CppGenericContext { class_inst_idx, method_inst_idx })
    }
}

/// Looks an address up.
fn find(map: &HashMap<u64, usize>, addr: u64) -> (r: Option<usize>)
    ensures
        r == lookup(map@, addr),
{
    match map.get(&addr) {
        Some(index) => Some(*index),
        None => None,
    }
}

impl Il2CppGenericClass {
    /// Reads a generic class.
    pub fn read(
        reader: &ObjectReader,
        vaddr: u64,
        generic_inst_map: &HashMap<u64, usize>,
        type_map: &HashMap<u64, usize>,
    ) -> (r: Result<Self, ReadFailure>)
        ensures
            r == generic_class_at(reader@, vaddr, generic_inst_map@, type_map@),
    {
        let mut cur = match reader.make_cur(vaddr) {
            Ok(cur) => cur,
            Err(e) => return Err(e),
        };
        let type_ptr: u64 = match cur.read_u64() {
            Ok(ptr) => ptr,
            Err(e) => return Err(ReadFailure::Error(e)),
        };
        let type_index: usize = match find(type_map, type_ptr) {
            Some(index) => index,
            None => return Err(ReadFailure::Malformed),
        };
        match Il2CppGenericContext::read(&mut cur, generic_inst_map) {
            Ok(context) => Ok(Il2CppGenericClass { type_index, context }),
            Err(e) => Err(e),
        }
    }
}

impl Il2CppGenericInst {
    /// Reads a generic instantiation.
    pub fn read(reader: &ObjectReader, vaddr: u64, types_map: &HashMap<u64, usize>) -> (r: Result<
        Self,
        ReadFailure,
    >)
        ensures
            match r {
                Ok(inst) => generic_inst_at(reader@, vaddr, types_map@) == Ok::<
                    Seq<usize>,
                    ReadFailure,
                >(inst@),
                Err(e) => generic_inst_at(reader@, vaddr, types_map@) == Err::<
                    Seq<usize>,
                    ReadFailure,
                >(e),
            },
    {
        let mut cur = match reader.make_cur(vaddr) {
            Ok(cur) => cur,
            Err(e) => return Err(e),
        };
        let type_ptrs: Vec<u64> = match read_len_arr(reader, &mut cur) {
            Ok(ptrs) => ptrs,
            Err(e) => return Err(e),
        };
        let mut types: Vec<usize> = Vec::with_capacity(type_ptrs.len());
        let mut i: usize = 0;
        while i < type_ptrs.len()
            invariant
                i <= type_ptrs@.len(),
                types@.len() == i,
                forall|k: int| 0 <= k < i ==> types_map@.dom().contains(#[trigger] type_ptrs@[k]),
                forall|k: int| 0 <= k < i ==> #[trigger] types@[k] == types_map@[type_ptrs@[k]],
                object_file::locate(reader@.segments, vaddr) is Ok,
                reader::counted_array::<u64>(
                    reader@,
                    object_file::locate(reader@.segments, vaddr).unwrap() as int,
                ) == Ok::<Seq<u64>, ReadFailure>(type_ptrs@),
            decreases type_ptrs@.len() - i,
        {
            match find(types_map, type_ptrs[i]) {
                Some(index) => types.push(index),
                None => {
                    assert(!types_map@.dom().contains(type_ptrs@[i as int]));
                    return Err(ReadFailure::Malformed);
                },
            }
            i += 1;
        }
        assert(types@ =~= type_ptrs@.map_values(|ptr: u64| types_map@[ptr]));
        Ok(Il2CppGenericInst { types })
    }
}

// ---------------------------------------------------------------------------------------------
// Types
// ---------------------------------------------------------------------------------------------

/// The array type at `vaddr`: the address of the element type, which is one of the listed, the
/// rank, the numbers of sizes and of lower bounds, and the addresses of both.
pub open spec fn array_type_at(img: Image, vaddr: u64, types: Map<u64, usize>) -> Result<
    ArrayTypeView,
    ReadFailure,
> {
    match object_file::locate(img.segments, vaddr) {
        Err(e) => Err(e),
        Ok(pos) => if !bytes::fits(img.data, pos as int, 8) {
            Err(reader::io_failure())
        } else {
            match lookup(types, bytes::u64_at(img.data, pos as int)) {
                None => Err(ReadFailure::Malformed),
                Some(elem_ty) => if !bytes::fits(img.data, pos as int, 24) {
                    Err(reader::io_failure())
                } else {
                    match reader::array_at::<u32>(
                        img,
                        bytes::u64_at(img.data, pos + 16),
                        img.data[pos + 9] as nat,
                    ) {
                        Err(e) => Err(e),
                        Ok(sizes) => if !bytes::fits(img.data, pos as int, 32) {
                            Err(reader::io_failure())
                        } else {
                            match reader::array_at::<u32>(
                                img,
                                bytes::u64_at(img.data, pos + 24),
                                img.data[pos + 10] as nat,
                            ) {
                                Err(e) => Err(e),
                                Ok(lower_bounds) => Ok(
                                    ArrayTypeView {
                                        elem_ty,
                                        rank: img.data[pos + 8],
                                        sizes,
                                        lower_bounds,
                                    },
                                ),
                            }
                        },
                    }
                },
            }
        },
    }
}

impl Il2CppArrayType {
    /// Reads an array type.
    pub fn read(reader: &ObjectReader, vaddr: u64, types_map: &HashMap<u64, usize>) -> (r: Result<
        Self,
        ReadFailure,
    >)
        ensures
            match r {
                Ok(array_type) => array_type_at(reader@, vaddr, types_map@) == Ok::<
                    ArrayTypeView,
                    ReadFailure,
                >(array_type@),
                Err(e) => array_type_at(reader@, vaddr, types_map@) == Err::<
                    ArrayTypeView,
                    ReadFailure,
                >(e),
            },
    {
        let mut cur = match reader.make_cur(vaddr) {
            Ok(cur) => cur,
            Err(e) => return Err(e),
        };
        let elem_ty_ptr: u64 = match cur.read_u64() {
            Ok(ptr) => ptr,
            Err(e) => return Err(ReadFailure::Error(e)),
        };
        let elem_ty: usize = match find(types_map, elem_ty_ptr) {
            Some(index) => index,
            None => return Err(ReadFailure::Malformed),
        };
        let rank: u8 = match cur.read_u8() {
            Ok(rank) => rank,
            Err(e) => return Err(ReadFailure::Error(e)),
        };
        let num_sizes: u8 = match cur.read_u8() {
            Ok(n) => n,
            Err(e) => return Err(ReadFailure::Error(e)),
        };
        let num_lobounds: u8 = match cur.read_u8() {
            Ok(n) => n,
            Err(e) => return Err(ReadFailure::Error(e)),
        };
        match cur.read_u32() {
            Ok(_) => {},
            Err(e) => return Err(ReadFailure::Error(e)),
        }
        match cur.read_u8() {
            Ok(_) => {},
            Err(e) => return Err(ReadFailure::Error(e)),
        }
        let sizes_ptr: u64 = match cur.read_u64() {
            Ok(ptr) => ptr,
            Err(e) => return Err(ReadFailure::Error(e)),
        };
        let sizes: Vec<u32> = match read_arr(reader, sizes_ptr, num_sizes as usize) {
            Ok(sizes) => sizes,
            Err(e) => return Err(e),
        };
        let lobounds_ptr: u64 = match cur.read_u64() {
            Ok(ptr) => ptr,
            Err(e) => return Err(ReadFailure::Error(e)),
        };
        let lower_bounds: Vec<u32> = match read_arr(reader, lobounds_ptr, num_lobounds as usize) {
            Ok(bounds) => bounds,
            Err(e) => return Err(e),
        };
        Ok(Il2CppArrayType { elem_ty, rank, sizes, lower_bounds })
    }
}

/// The array types found so far, and from the address of each to its position.
#[verifier::ext_equal]
pub struct ArrayTables {
    pub list: Seq<ArrayTypeView>,
    pub index: Map<u64, usize>,
}

/// What the data word of a type stands for, and the array types known after it. The word is an
/// index, or an address that one of the maps knows; an array type that is not known yet is read
/// and listed.
pub open spec fn type_data_at(
    img: Image,
    ty: Il2CppTypeEnum,
    raw: u64,
    types: Map<u64, usize>,
    classes: Map<u64, usize>,
    arrays: ArrayTables,
) -> Result<(TypeData, ArrayTables), ReadFailure> {
    match ty {
        Il2CppTypeEnum::Var | Il2CppTypeEnum::Mvar => Ok(
            (
                TypeData::GenericParameterIndex(
                    GenericParameterIndex { index: (raw % 0x1_0000_0000) as u32 },
                ),
                arrays,
            ),
        ),
        Il2CppTypeEnum::Ptr | Il2CppTypeEnum::Szarray => match lookup(types, raw) {
            Some(index) => Ok((TypeData::TypeIndex(index), arrays)),
            None => Err(ReadFailure::Malformed),
        },
        Il2CppTypeEnum::Array => match lookup(arrays.index, raw) {
            Some(index) => Ok((TypeData::ArrayType(index), arrays)),
            None => match array_type_at(img, raw, types) {
                Ok(array_type) => Ok(
                    (
                        TypeData::ArrayType(arrays.list.len() as usize),
                        ArrayTables {
                            list: arrays.list.push(array_type),
                            index: arrays.index.insert(raw, arrays.list.len() as usize),
                        },
                    ),
                ),
                Err(e) => Err(e),
            },
        },
        Il2CppTypeEnum::Genericinst => match lookup(classes, raw) {
            Some(index) => Ok((TypeData::GenericClassIndex(index), arrays)),
            None => Err(ReadFailure::Malformed),
        },
        _ => Ok(
            (
                TypeData::TypeDefinitionIndex(
                    TypeDefinitionIndex { index: (raw % 0x1_0000_0000) as u32 },
                ),
                arrays,
            ),
        ),
    }
}

/// The type at `vaddr` and the array types known after it: a data word, 16 bits of attributes,
/// the byte of the element type and a byte of flags.
pub open spec fn type_at(
    img: Image,
    vaddr: u64,
    types: Map<u64, usize>,
    classes: Map<u64, usize>,
    arrays: ArrayTables,
) -> Result<(Il2CppType, ArrayTables), ReadFailure> {
    match object_file::locate(img.segments, vaddr) {
        Err(e) => Err(e),
        Ok(pos) => if !bytes::fits(img.data, pos as int, 11) {
            Err(reader::io_failure())
        } else {
            match types::type_of_code(img.data[pos + 10]) {
                None => Err(
                    ReadFailure::Error(Il2CppBinaryError::InvalidType(img.data[pos + 10])),
                ),
                Some(ty) => if !bytes::fits(img.data, pos as int, 12) {
                    Err(reader::io_failure())
                } else {
                    match type_data_at(
                        img,
                        ty,
                        bytes::u64_at(img.data, pos as int),
                        types,
                        classes,
                        arrays,
                    ) {
                        Err(e) => Err(e),
                        Ok((data, after)) => Ok(
                            (
                                Il2CppType {
                                    data,
                                    attrs: bytes::u16_at(img.data, pos + 8),
                                    ty,
                                    byref: img.data[pos + 11] >= 0x20,
                                    pinned: img.data[pos + 11] >= 0x40,
                                    valuetype: img.data[pos + 11] >= 0x80,
                                },
                                after,
                            ),
                        ),
                    }
                },
            }
        },
    }
}

/// The low half of a word.
fn low_half(word: u64) -> (r: u32)
    ensures
        r == word % 0x1_0000_0000,
{
    (word % 0x1_0000_0000) as u32
}

impl Il2CppType {
    /// Reads a type. An array type that it refers to and that is not known yet is read too, and
    /// listed.
    pub fn read(
        reader: &ObjectReader,
        vaddr: u64,
        type_map: &HashMap<u64, usize>,
        generic_class_map: &HashMap<u64, usize>,
        array_types: &mut Vec<Il2CppArrayType>,
        array_type_map: &mut HashMap<u64, usize>,
    ) -> (r: Result<Il2CppType, ReadFailure>)
        ensures
            ({
                let before = ArrayTables {
                    list: types::array_type_views(old(array_types)@),
                    index: old(array_type_map)@,
                };
                let after = ArrayTables {
                    list: types::array_type_views(final(array_types)@),
                    index: final(array_type_map)@,
                };
                match r {
                    Ok(ty) => type_at(reader@, vaddr, type_map@, generic_class_map@, before)
                        == Ok::<(Il2CppType, ArrayTables), ReadFailure>((ty, after)),
                    Err(e) => {
                        &&& type_at(reader@, vaddr, type_map@, generic_class_map@, before)
                            == Err::<(Il2CppType, ArrayTables), ReadFailure>(e)
                        &&& after == before
                    },
                }
            }),
    {
        let mut cur = match reader.make_cur(vaddr) {
            Ok(cur) => cur,
            Err(e) => return Err(e),
        };
        let raw_data: u64 = match cur.read_u64() {
            Ok(raw) => raw,
            Err(e) => return Err(ReadFailure::Error(e)),
        };
        let attrs: u16 = match cur.read_u16() {
            Ok(attrs) => attrs,
            Err(e) => return Err(ReadFailure::Error(e)),
        };
        let ty_id: u8 = match cur.read_u8() {
            Ok(id) => id,
            Err(e) => return Err(ReadFailure::Error(e)),
        };
        let ty = match Il2CppTypeEnum::from_ty(ty_id) {
            Some(ty) => ty,
            None => return Err(ReadFailure::Error(Il2CppBinaryError::InvalidType(ty_id))),
        };
        let bitfield: u8 = match cur.read_u8() {
            Ok(bits) => bits,
            Err(e) => return Err(ReadFailure::Error(e)),
        };
        let data = match ty {
            Il2CppTypeEnum::Var | Il2CppTypeEnum::Mvar => TypeData::GenericParameterIndex(
                GenericParameterIndex::new(low_half(raw_data)),
            ),
            Il2CppTypeEnum::Ptr | Il2CppTypeEnum::Szarray => match find(type_map, raw_data) {
                Some(index) => TypeData::TypeIndex(index),
                None => return Err(ReadFailure::Malformed),
            },
            Il2CppTypeEnum::Array => match find(array_type_map, raw_data) {
                Some(index) => TypeData::ArrayType(index),
                None => {
                    let index: usize = array_types.len();
                    match Il2CppArrayType::read(reader, raw_data, type_map) {
                        Ok(array_type) => {
                            let ghost known = types::array_type_views(array_types@);
                            array_types.push(array_type);
                            assert(types::array_type_views(array_types@) =~= known.push(
                                array_type@,
                            ));
                            array_type_map.insert(raw_data, index);
                            TypeData::ArrayType(index)
                        },
                        Err(e) => return Err(e),
                    }
                },
            },
            Il2CppTypeEnum::Genericinst => match find(generic_class_map, raw_data) {
                Some(index) => TypeData::GenericClassIndex(index),
                None => return Err(ReadFailure::Malformed),
            },
            _ => TypeData::TypeDefinitionIndex(TypeDefinitionIndex::new(low_half(raw_data))),
        };
        assert((bitfield >> 5) != 0 <==> bitfield >= 0x20) by (bit_vector);
        assert((bitfield >> 6) != 0 <==> bitfield >= 0x40) by (bit_vector);
        assert((bitfield >> 7) != 0 <==> bitfield >= 0x80) by (bit_vector);
        let byref: bool = (bitfield >> 5) != 0;
        let pinned: bool = (bitfield >> 6) != 0;
        let valuetype: bool = (bitfield >> 7) != 0;
        Ok(Il2CppType { data, attrs, ty, byref, pinned, valuetype })
    }
}

// ---------------------------------------------------------------------------------------------
// What addresses refer to
// ---------------------------------------------------------------------------------------------

/// Whether `i` is the last position at which the address stands in the list.
pub open spec fn is_last_position(addrs: Seq<u64>, addr: u64, i: int) -> bool {
    &&& 0 <= i < addrs.len()
    &&& addrs[i] == addr
    &&& forall|k: int| i < k < addrs.len() ==> #[trigger] addrs[k] != addr
}

/// Whether an index that may be missing is the last position of an address that may not be
/// listed.
pub open spec fn refers_to(addrs: Seq<u64>, addr: u64, index: Option<usize>) -> bool {
    match index {
        Some(i) => is_last_position(addrs, addr, i as int),
        None => forall|k: int| 0 <= k < addrs.len() ==> #[trigger] addrs[k] != addr,
    }
}

/// An address is looked up by its last position in the list.
pub proof fn law_lookup(addrs: Seq<u64>, addr: u64)
    requires
        addrs.len() <= usize::MAX,
    ensures
        refers_to(addrs, addr, lookup(index_map(addrs), addr)),
{
    law_index_map(addrs, addr);
    if !index_map(addrs).dom().contains(addr) {
        assert forall|k: int| 0 <= k < addrs.len() implies #[trigger] addrs[k] != addr by {
            if addrs[k] == addr {
                assert(addrs.contains(addr));
            }
        }
    }
}

/// A generic context is the addresses of two instantiations, each of which may not be listed.
pub proof fn law_generic_context(data: Seq<u8>, pos: int, insts: Seq<u64>)
    requires
        0 <= pos,
        insts.len() <= usize::MAX,
    ensures
        pos + 16 > data.len() ==> generic_context_at(data, pos, index_map(insts)) == Err::<
            Il2CppGenericContext,
            ReadFailure,
        >(ReadFailure::Error(Il2CppBinaryError::Io)),
        pos + 16 <= data.len() ==> (generic_context_at(data, pos, index_map(insts)) matches Ok(
            context,
        ) && {
            &&& refers_to(insts, bytes::u64_at(data, pos), context.class_inst_idx)
            &&& refers_to(insts, bytes::u64_at(data, pos + 8), context.method_inst_idx)
        }),
{
    law_lookup(insts, bytes::u64_at(data, pos));
    law_lookup(insts, bytes::u64_at(data, pos + 8));
}

/// A generic class is the address of a listed type and a context.
pub proof fn law_generic_class(
    img: Image,
    vaddr: u64,
    pos: u64,
    insts: Seq<u64>,
    types: Seq<u64>,
)
    requires
        insts.len() <= usize::MAX,
        types.len() <= usize::MAX,
        object_file::locate(img.segments, vaddr) == Ok::<u64, ReadFailure>(pos),
    ensures
        ({
            let r = generic_class_at(img, vaddr, index_map(insts), index_map(types));
            let ptr = bytes::u64_at(img.data, pos as int);
            let io = Err::<Il2CppGenericClass, ReadFailure>(
                ReadFailure::Error(Il2CppBinaryError::Io),
            );
            &&& pos + 8 > img.data.len() ==> r == io
            &&& pos + 8 <= img.data.len() && !types.contains(ptr) ==> r == Err::<
                Il2CppGenericClass,
                ReadFailure,
            >(ReadFailure::Malformed)
            &&& pos + 8 <= img.data.len() < pos + 24 && types.contains(ptr) ==> r == io
            &&& pos + 24 <= img.data.len() && types.contains(ptr) ==> (r matches Ok(class) && {
                &&& is_last_position(types, ptr, class.type_index as int)
                &&& refers_to(
                    insts,
                    bytes::u64_at(img.data, pos + 8),
                    class.context.class_inst_idx,
                )
                &&& refers_to(
                    insts,
                    bytes::u64_at(img.data, pos + 16),
                    class.context.method_inst_idx,
                )
            })
        }),
{
    let ptr = bytes::u64_at(img.data, pos as int);
    law_index_map(types, ptr);
    law_lookup(types, ptr);
    law_generic_context(img.data, pos + 8, insts);
}

/// A generic instantiation refers to the listed types whose addresses it holds, in their order.
pub proof fn law_generic_inst(img: Image, vaddr: u64, pos: u64, types: Seq<u64>)
    requires
        types.len() <= usize::MAX,
        object_file::locate(img.segments, vaddr) == Ok::<u64, ReadFailure>(pos),
    ensures
        match reader::counted_array::<u64>(img, pos as int) {
            Err(e) => generic_inst_at(img, vaddr, index_map(types)) == Err::<
                Seq<usize>,
                ReadFailure,
            >(e),
            Ok(ptrs) => {
                &&& generic_inst_at(img, vaddr, index_map(types)) is Ok <==> forall|i: int|
                    0 <= i < ptrs.len() ==> types.contains(#[trigger] ptrs[i])
                &&& generic_inst_at(img, vaddr, index_map(types)) matches Err(e) ==> e
                    == ReadFailure::Malformed
                &&& generic_inst_at(img, vaddr, index_map(types)) matches Ok(list) ==> list.len()
                    == ptrs.len() && forall|i: int|
                    0 <= i < list.len() ==> is_last_position(
                        types,
                        ptrs[i],
                        #[trigger] list[i] as int,
                    )
            },
        },
{
    if let Ok(ptrs) = reader::counted_array::<u64>(img, pos as int) {
        let map = index_map(types);
        assert forall|i: int| 0 <= i < ptrs.len() implies map.dom().contains(#[trigger] ptrs[i])
            == types.contains(ptrs[i]) by {
            law_index_map(types, ptrs[i]);
        }
        if let Ok(list) = generic_inst_at(img, vaddr, map) {
            assert forall|i: int| 0 <= i < list.len() implies is_last_position(
                types,
                ptrs[i],
                #[trigger] list[i] as int,
            ) by {
                law_index_map(types, ptrs[i]);
                assert(map.dom().contains(ptrs[i]));
            }
        }
    }
}

/// An array type is the address of a listed element type, a rank, and two arrays of as many
/// numbers as the two bytes behind the rank say: the sizes and the lower bounds.
pub proof fn law_array_type(img: Image, vaddr: u64, pos: u64, types: Seq<u64>)
    requires
        types.len() <= usize::MAX,
        object_file::locate(img.segments, vaddr) == Ok::<u64, ReadFailure>(pos),
    ensures
        ({
            let r = array_type_at(img, vaddr, index_map(types));
            let ptr = bytes::u64_at(img.data, pos as int);
            let sizes = reader::array_at::<u32>(
                img,
                bytes::u64_at(img.data, pos + 16),
                img.data[pos + 9] as nat,
            );
            let bounds = reader::array_at::<u32>(
                img,
                bytes::u64_at(img.data, pos + 24),
                img.data[pos + 10] as nat,
            );
            let io = Err::<ArrayTypeView, ReadFailure>(ReadFailure::Error(Il2CppBinaryError::Io));
            &&& pos + 8 > img.data.len() ==> r == io
            &&& pos + 8 <= img.data.len() && !types.contains(ptr) ==> r == Err::<
                ArrayTypeView,
                ReadFailure,
            >(ReadFailure::Malformed)
            &&& pos + 8 <= img.data.len() < pos + 24 && types.contains(ptr) ==> r == io
            &&& pos + 24 <= img.data.len() && types.contains(ptr) ==> match sizes {
                Err(e) => r == Err::<ArrayTypeView, ReadFailure>(e),
                Ok(size_list) => if img.data.len() < pos + 32 {
                    r == io
                } else {
                    match bounds {
                        Err(e) => r == Err::<ArrayTypeView, ReadFailure>(e),
                        Ok(bound_list) => r matches Ok(array) && {
                            &&& is_last_position(types, ptr, array.elem_ty as int)
                            &&& array.rank == img.data[pos + 8]
                            &&& array.sizes == size_list
                            &&& array.lower_bounds == bound_list
                        },
                    }
                },
            }
        }),
{
    let ptr = bytes::u64_at(img.data, pos as int);
    law_index_map(types, ptr);
    law_lookup(types, ptr);
}

/// Whether the data of a type is what its element type makes of its data word: the number of a
/// generic parameter or of a type definition, or the last position of a listed address.
pub open spec fn data_is_word(
    ty: Il2CppType,
    word: u64,
    types: Seq<u64>,
    classes: Seq<u64>,
) -> bool {
    match ty.ty {
        Il2CppTypeEnum::Var | Il2CppTypeEnum::Mvar => ty.data matches TypeData::GenericParameterIndex(
            idx,
        ) && (word - idx.index) % 0x1_0000_0000 == 0,
        Il2CppTypeEnum::Ptr | Il2CppTypeEnum::Szarray => ty.data matches TypeData::TypeIndex(i)
            && is_last_position(types, word, i as int),
        Il2CppTypeEnum::Genericinst => ty.data matches TypeData::GenericClassIndex(i)
            && is_last_position(classes, word, i as int),
        Il2CppTypeEnum::Array => ty.data is ArrayType,
        _ => ty.data matches TypeData::TypeDefinitionIndex(idx) && (word - idx.index)
            % 0x1_0000_0000 == 0,
    }
}

/// Whether the data word of a type with this element type can be followed.
pub open spec fn word_is_known(
    img: Image,
    ty: Il2CppTypeEnum,
    word: u64,
    types: Seq<u64>,
    classes: Seq<u64>,
    arrays: ArrayTables,
) -> bool {
    match ty {
        Il2CppTypeEnum::Ptr | Il2CppTypeEnum::Szarray => types.contains(word),
        Il2CppTypeEnum::Genericinst => classes.contains(word),
        Il2CppTypeEnum::Array => arrays.index.dom().contains(word) || array_type_at(
            img,
            word,
            index_map(types),
        ) is Ok,
        _ => true,
    }
}

/// A type is a data word, 16 bits of attributes, the byte of its element type and a byte of
/// flags, of which the upper three bits mark it as passed by reference, pinned and of a value
/// type; each of these flags is also raised by the bits above its own.
pub proof fn law_type_fields(
    img: Image,
    vaddr: u64,
    pos: u64,
    types: Seq<u64>,
    classes: Seq<u64>,
    arrays: ArrayTables,
    element: Il2CppTypeEnum,
)
    requires
        types.len() <= usize::MAX,
        classes.len() <= usize::MAX,
        object_file::locate(img.segments, vaddr) == Ok::<u64, ReadFailure>(pos),
        pos + 12 <= img.data.len(),
        types::type_code(element) == img.data[pos + 10],
    ensures
        ({
            let r = type_at(img, vaddr, index_map(types), index_map(classes), arrays);
            let word = bytes::u64_at(img.data, pos as int);
            let flags = img.data[pos + 11];
            &&& r is Ok <==> word_is_known(img, element, word, types, classes, arrays)
            &&& r matches Ok((ty, _)) ==> {
                &&& ty.ty == element
                &&& ty.attrs == bytes::u16_at(img.data, pos + 8)
                &&& ty.byref <==> flags / 32 > 0
                &&& ty.pinned <==> flags / 64 > 0
                &&& ty.valuetype <==> flags / 128 > 0
                &&& data_is_word(ty, word, types, classes)
            }
            &&& r matches Err(e) ==> if element == Il2CppTypeEnum::Array {
                array_type_at(img, word, index_map(types)) == Err::<ArrayTypeView, ReadFailure>(e)
            } else {
                e == ReadFailure::Malformed
            }
        }),
{
    let word = bytes::u64_at(img.data, pos as int);
    types::law_type_code_reads_back(element);
    law_index_map(types, word);
    law_index_map(classes, word);
    law_lookup(types, word);
    law_lookup(classes, word);
}

/// A type whose bytes are not all there, or whose byte stands for no element type, is an error.
pub proof fn law_type_fails(
    img: Image,
    vaddr: u64,
    pos: u64,
    types: Map<u64, usize>,
    classes: Map<u64, usize>,
    arrays: ArrayTables,
)
    requires
        object_file::locate(img.segments, vaddr) == Ok::<u64, ReadFailure>(pos),
    ensures
        pos + 11 > img.data.len() ==> type_at(img, vaddr, types, classes, arrays) == Err::<
            (Il2CppType, ArrayTables),
            ReadFailure,
        >(ReadFailure::Error(Il2CppBinaryError::Io)),
        pos + 11 <= img.data.len() && (forall|element: Il2CppTypeEnum|
            #[trigger] types::type_code(element) != img.data[pos + 10]) ==> type_at(
            img,
            vaddr,
            types,
            classes,
            arrays,
        ) == Err::<(Il2CppType, ArrayTables), ReadFailure>(
            ReadFailure::Error(Il2CppBinaryError::InvalidType(img.data[pos + 10])),
        ),
        pos + 11 == img.data.len() && (exists|element: Il2CppTypeEnum|
            #[trigger] types::type_code(element) == img.data[pos + 10]) ==> type_at(
            img,
            vaddr,
            types,
            classes,
            arrays,
        ) == Err::<(Il2CppType, ArrayTables), ReadFailure>(
            ReadFailure::Error(Il2CppBinaryError::Io),
        ),
{
}

/// What stops an address from being located stops everything that is read there.
pub proof fn law_unlocated(
    img: Image,
    vaddr: u64,
    insts: Map<u64, usize>,
    types: Map<u64, usize>,
    classes: Map<u64, usize>,
    arrays: ArrayTables,
)
    requires
        object_file::locate(img.segments, vaddr) is Err,
    ensures
        ({
            let e = object_file::locate(img.segments, vaddr)->Err_0;
            &&& generic_class_at(img, vaddr, insts, types) == Err::<
                Il2CppGenericClass,
                ReadFailure,
            >(e)
            &&& generic_inst_at(img, vaddr, types) == Err::<Seq<usize>, ReadFailure>(e)
            &&& array_type_at(img, vaddr, types) == Err::<ArrayTypeView, ReadFailure>(e)
            &&& type_at(img, vaddr, types, classes, arrays) == Err::<
                (Il2CppType, ArrayTables),
                ReadFailure,
            >(e)
        }),
{
}

} // verus!
