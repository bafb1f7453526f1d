//! The names of types.

use vstd::prelude::*;
use vstd::string::StringExecFns;

use crate::global_metadata::{
    GenericParameterIndex, Il2CppGenericParameter, Il2CppTypeDefinition, TypeDefinitionIndex,
};
use crate::runtime_metadata::Metadata;
use crate::types::{
    ArrayTypeView, Il2CppGenericClass, Il2CppType, Il2CppTypeEnum, TypeData,
};

verus! {

/// The tables that a type's name is made from.
pub struct NameTables {
    pub types: Seq<Il2CppType>,
    pub array_types: Seq<ArrayTypeView>,
    pub generic_classes: Seq<Il2CppGenericClass>,
    pub generic_insts: Seq<Seq<usize>>,
    pub definitions: Seq<Seq<char>>,
    pub parameters: Seq<Seq<char>>,
}

/// The tables of a program.
pub open spec fn name_tables(metadata: Metadata) -> NameTables {
    let registration = metadata.runtime_metadata.metadata_registration@;
    NameTables {
        types: registration.types,
        array_types: registration.array_types,
        generic_classes: registration.generic_classes,
        generic_insts: registration.generic_insts,
        definitions: metadata.global_metadata.type_definitions@.map_values(
            |d: Il2CppTypeDefinition| d.full_name@,
        ),
        parameters: metadata.global_metadata.generic_parameters@.map_values(
            |p: Il2CppGenericParameter| p.name@,
        ),
    }
}

/// The name of an element type that has the same name wherever it occurs.
pub open spec fn fixed_name(ty: Il2CppTypeEnum) -> Option<Seq<char>> {
    match ty {
        Il2CppTypeEnum::Void => Some("System.Void"@),
        Il2CppTypeEnum::Boolean => Some("System.Boolean"@),
        Il2CppTypeEnum::Char => Some("System.Char"@),
        Il2CppTypeEnum::I1 => Some("System.SByte"@),
        Il2CppTypeEnum::U1 => Some("System.Byte"@),
        Il2CppTypeEnum::I2 => Some("System.Int16"@),
        Il2CppTypeEnum::U2 => Some("System.UInt16"@),
        Il2CppTypeEnum::I4 => Some("System.Int32"@),
        Il2CppTypeEnum::U4 => Some("System.UInt32"@),
        Il2CppTypeEnum::I8 => Some("System.Int64"@),
        Il2CppTypeEnum::U8 => Some("System.UInt64"@),
        Il2CppTypeEnum::R4 => Some("System.Single"@),
        Il2CppTypeEnum::R8 => Some("System.Double"@),
        Il2CppTypeEnum::String => Some("System.String"@),
        Il2CppTypeEnum::Typedbyref => Some("System.TypedReference"@),
        Il2CppTypeEnum::I => Some("System.IntPtr"@),
        Il2CppTypeEnum::U => Some("System.UIntPtr"@),
        Il2CppTypeEnum::Object => Some("System.Object"@),
        Il2CppTypeEnum::Sentinel => Some("<<SENTINEL>>"@),
        _ => None,
    }
}

/// The identifier of an element type that has no fixed name.
pub open spec fn type_label(ty: Il2CppTypeEnum) -> Seq<char> {
    match ty {
        Il2CppTypeEnum::End => "End"@,
        Il2CppTypeEnum::Ptr => "Ptr"@,
        Il2CppTypeEnum::Byref => "Byref"@,
        Il2CppTypeEnum::Valuetype => "Valuetype"@,
        Il2CppTypeEnum::Class => "Class"@,
        Il2CppTypeEnum::Var => "Var"@,
        Il2CppTypeEnum::Array => "Array"@,
        Il2CppTypeEnum::Genericinst => "Genericinst"@,
        Il2CppTypeEnum::Fnptr => "Fnptr"@,
        Il2CppTypeEnum::Szarray => "Szarray"@,
        Il2CppTypeEnum::Mvar => "Mvar"@,
        Il2CppTypeEnum::CmodReqd => "CmodReqd"@,
        Il2CppTypeEnum::CmodOpt => "CmodOpt"@,
        Il2CppTypeEnum::Internal => "Internal"@,
        Il2CppTypeEnum::Modifier => "Modifier"@,
        Il2CppTypeEnum::Pinned => "Pinned"@,
        Il2CppTypeEnum::Enum => "Enum"@,
        _ => ""@,
    }
}

/// `n` commas.
pub open spec fn commas(n: nat) -> Seq<char> {
    Seq::new(n, |i: int| ',')
}

/// The name of a type whose parts nest at most `depth` deep. There is none where they nest
/// deeper, where an index lies outside its table, where an array has no dimension, or where a
/// generic class is not instantiated.
pub open spec fn name_within(t: NameTables, ty: Il2CppType, depth: nat) -> Option<Seq<char>>
    decreases depth, 0nat,
{
    if depth == 0 {
        None
    } else if fixed_name(ty.ty) is Some {
        fixed_name(ty.ty)
    } else {
        let inner = (depth - 1) as nat;
        match (ty.ty, ty.data) {
            (
                Il2CppTypeEnum::Var | Il2CppTypeEnum::Mvar,
                TypeData::GenericParameterIndex(idx),
            ) => if idx.index < t.parameters.len() {
                Some(t.parameters[idx.index as int])
            } else {
                None
            },
            (Il2CppTypeEnum::Ptr, TypeData::TypeIndex(index)) => match listed_name_within(
                t,
                index,
                inner,
            ) {
                Some(name) => Some(name + "*"@),
                None => None,
            },
            (Il2CppTypeEnum::Szarray, TypeData::TypeIndex(index)) => match listed_name_within(
                t,
                index,
                inner,
            ) {
                Some(name) => Some(name + "[]"@),
                None => None,
            },
            (Il2CppTypeEnum::Array, TypeData::ArrayType(index)) => if index < t.array_types.len()
                && t.array_types[index as int].rank > 0 {
                match listed_name_within(t, t.array_types[index as int].elem_ty, inner) {
                    Some(name) => Some(
                        name + "["@ + commas((t.array_types[index as int].rank - 1) as nat) + "]"@,
                    ),
                    None => None,
                }
            } else {
                None
            },
            (
                Il2CppTypeEnum::Class | Il2CppTypeEnum::Valuetype,
                TypeData::TypeDefinitionIndex(idx),
            ) => if idx.index < t.definitions.len() {
                Some(t.definitions[idx.index as int])
            } else {
                None
            },
            (Il2CppTypeEnum::Genericinst, TypeData::GenericClassIndex(index)) => if index
                < t.generic_classes.len() {
                let class = t.generic_classes[index as int];
                match class.context.class_inst_idx {
                    Some(inst) => if inst < t.generic_insts.len() {
                        match (
                            argument_names_within(t, t.generic_insts[inst as int], inner),
                            listed_name_within(t, class.type_index, inner),
                        ) {
                            (Some(arguments), Some(name)) => Some(
                                name + "<"@ + arguments + ">"@,
                            ),
                            _ => None,
                        }
                    } else {
                        None
                    },
                    None => None,
                }
            } else {
                None
            },
            _ => Some("("@ + type_label(ty.ty) + "?)"@),
        }
    }
}

/// The name of the type at position `index` of the list.
pub open spec fn listed_name_within(t: NameTables, index: usize, depth: nat) -> Option<Seq<char>>
    decreases depth, 1nat,
{
    if index < t.types.len() {
        name_within(t, t.types[index as int], depth)
    } else {
        None
    }
}

/// The names of the types at these positions of the list, with commas between them.
pub open spec fn argument_names_within(t: NameTables, indices: Seq<usize>, depth: nat) -> Option<
    Seq<char>,
>
    decreases depth, 2 + indices.len(),
{
    if indices.len() == 0 {
        Some(Seq::empty())
    } else if indices.len() == 1 {
        listed_name_within(t, indices[0], depth)
    } else {
        match (
            argument_names_within(t, indices.drop_last(), depth),
            listed_name_within(t, indices.last(), depth),
        ) {
            (Some(front), Some(last)) => Some(front + ", "@ + last),
            _ => None,
        }
    }
}

/// Whether a type has a name.
pub open spec fn has_name(t: NameTables, ty: Il2CppType) -> bool {
    exists|depth: nat| name_within(t, ty, depth) is Some
}

/// The name of a type that has one.
pub open spec fn name_of_type(t: NameTables, ty: Il2CppType) -> Seq<char> {
    name_within(t, ty, choose|depth: nat| name_within(t, ty, depth) is Some).unwrap()
}

// ---------------------------------------------------------------------------------------------
// The depth does not matter
// ---------------------------------------------------------------------------------------------

/// A name found at one depth is the name at every greater depth.
pub proof fn lemma_name_monotone(t: NameTables, ty: Il2CppType, small: nat, large: nat)
    requires
        small <= large,
        name_within(t, ty, small) is Some,
    ensures
        name_within(t, ty, large) == name_within(t, ty, small),
    decreases small, 0nat,
{
    if fixed_name(ty.ty) is None {
        let s = (small - 1) as nat;
        let l = (large - 1) as nat;
        match (ty.ty, ty.data) {
            (Il2CppTypeEnum::Ptr, TypeData::TypeIndex(index)) => {
                lemma_name_monotone(t, t.types[index as int], s, l);
            },
            (Il2CppTypeEnum::Szarray, TypeData::TypeIndex(index)) => {
                lemma_name_monotone(t, t.types[index as int], s, l);
            },
            (Il2CppTypeEnum::Array, TypeData::ArrayType(index)) => {
                let elem_ty = t.array_types[index as int].elem_ty;
                lemma_name_monotone(t, t.types[elem_ty as int], s, l);
            },
            (Il2CppTypeEnum::Genericinst, TypeData::GenericClassIndex(index)) => {
                let class = t.generic_classes[index as int];
                let inst = class.context.class_inst_idx.unwrap();
                lemma_arguments_monotone(t, t.generic_insts[inst as int], s, l);
                lemma_name_monotone(t, t.types[class.type_index as int], s, l);
            },
            _ => {},
        }
    }
}

proof fn lemma_arguments_monotone(t: NameTables, indices: Seq<usize>, small: nat, large: nat)
    requires
        small <= large,
        argument_names_within(t, indices, small) is Some,
    ensures
        argument_names_within(t, indices, large) == argument_names_within(t, indices, small),
    decreases small, 1 + indices.len(),
{
    reveal_with_fuel(argument_names_within, 3);
    if indices.len() == 1 {
        lemma_name_monotone(t, t.types[indices[0] as int], small, large);
    } else if indices.len() > 1 {
        lemma_arguments_monotone(t, indices.drop_last(), small, large);
        lemma_name_monotone(t, t.types[indices.last() as int], small, large);
    }
}

/// A type has one name, at whatever depth it is found.
pub proof fn law_name_unique(t: NameTables, ty: Il2CppType, depth: nat)
    requires
        name_within(t, ty, depth) is Some,
    ensures
        has_name(t, ty),
        name_within(t, ty, depth) == Some(name_of_type(t, ty)),
{
    let other = choose|d: nat| name_within(t, ty, d) is Some;
    if other <= depth {
        lemma_name_monotone(t, ty, other, depth);
    } else {
        lemma_name_monotone(t, ty, depth, other);
    }
}

/// Whether the listed type gets its name at this depth and not before.
spec fn named_first_at(t: NameTables, index: int, depth: nat) -> bool {
    &&& 0 <= index < t.types.len()
    &&& depth > 0
    &&& name_within(t, t.types[index], depth) is Some
    &&& name_within(t, t.types[index], (depth - 1) as nat) is None
}

/// A type that gets its name late has a part that gets its name just before.
proof fn lemma_late_part(t: NameTables, ty: Il2CppType, depth: nat) -> (index: int)
    requires
        depth >= 2,
        name_within(t, ty, depth) is Some,
        name_within(t, ty, (depth - 1) as nat) is None,
    ensures
        named_first_at(t, index, (depth - 1) as nat),
{
    let d = (depth - 1) as nat;
    match (ty.ty, ty.data) {
        (Il2CppTypeEnum::Ptr, TypeData::TypeIndex(index)) => index as int,
        (Il2CppTypeEnum::Szarray, TypeData::TypeIndex(index)) => index as int,
        (Il2CppTypeEnum::Array, TypeData::ArrayType(index)) => t.array_types[index as int].elem_ty
            as int,
        (Il2CppTypeEnum::Genericinst, TypeData::GenericClassIndex(index)) => {
            let class = t.generic_classes[index as int];
            let inst = class.context.class_inst_idx.unwrap();
            if listed_name_within(t, class.type_index, (d - 1) as nat) is None {
                class.type_index as int
            } else {
                lemma_late_argument(t, t.generic_insts[inst as int], d)
            }
        },
        _ => 0,
    }
}

proof fn lemma_late_argument(t: NameTables, indices: Seq<usize>, depth: nat) -> (index: int)
    requires
        depth >= 1,
        argument_names_within(t, indices, depth) is Some,
        argument_names_within(t, indices, (depth - 1) as nat) is None,
    ensures
        named_first_at(t, index, depth),
    decreases indices.len(),
{
    reveal_with_fuel(argument_names_within, 3);
    if indices.len() == 1 {
        indices[0] as int
    } else if listed_name_within(t, indices.last(), (depth - 1) as nat) is None {
        indices.last() as int
    } else {
        lemma_late_argument(t, indices.drop_last(), depth)
    }
}

/// As many different listed types as the depth at which one of them gets its name.
proof fn lemma_late_chain(t: NameTables, index: int, depth: nat) -> (chain: Seq<int>)
    requires
        named_first_at(t, index, depth),
    ensures
        chain.len() == depth,
        forall|i: int| 0 <= i < depth ==> named_first_at(t, #[trigger] chain[i], (i + 1) as nat),
    decreases depth,
{
    if depth == 1 {
        seq![index]
    } else {
        let part = lemma_late_part(t, t.types[index], depth);
        let rest = lemma_late_chain(t, part, (depth - 1) as nat);
        rest.push(index)
    }
}

/// A listed type gets its name first at one depth only.
proof fn lemma_first_depth_unique(t: NameTables, index: int, a: nat, b: nat)
    requires
        named_first_at(t, index, a),
        named_first_at(t, index, b),
    ensures
        a == b,
{
    if a < b {
        lemma_name_monotone(t, t.types[index], a, (b - 1) as nat);
    } else if b < a {
        lemma_name_monotone(t, t.types[index], b, (a - 1) as nat);
    }
}

/// A type that has a name has it at a depth one above the number of listed types: no chain of
/// parts needs to pass the same listed type twice.
pub proof fn law_name_depth_bounded(t: NameTables, ty: Il2CppType)
    requires
        has_name(t, ty),
    ensures
        name_within(t, ty, t.types.len() + 1) == Some(name_of_type(t, ty)),
{
    let depth = choose|d: nat| name_within(t, ty, d) is Some;
    lemma_bounded_from(t, ty, depth);
    law_name_unique(t, ty, t.types.len() + 1);
}

proof fn lemma_bounded_from(t: NameTables, ty: Il2CppType, depth: nat)
    requires
        name_within(t, ty, depth) is Some,
    ensures
        name_within(t, ty, t.types.len() + 1) is Some,
    decreases depth,
{
    let n = t.types.len();
    if depth <= n + 1 {
        lemma_name_monotone(t, ty, depth, n + 1);
    } else if name_within(t, ty, (depth - 1) as nat) is Some {
        lemma_bounded_from(t, ty, (depth - 1) as nat);
    } else {
        let part = lemma_late_part(t, ty, depth);
        let chain = lemma_late_chain(t, part, (depth - 1) as nat);
        assert forall|i: int, j: int| 0 <= i < chain.len() && 0 <= j < chain.len() && i
            != j implies chain[i] != chain[j] by {
            if chain[i] == chain[j] {
                lemma_first_depth_unique(t, chain[i], (i + 1) as nat, (j + 1) as nat);
            }
        }
        chain.unique_seq_to_set();
        vstd::set_lib::lemma_int_range(0, n as int);
        assert(chain.to_set().subset_of(vstd::set_lib::set_int_range(0, n as int))) by {
            assert forall|x: int| chain.to_set().contains(x) implies vstd::set_lib::set_int_range(
                0,
                n as int,
            ).contains(x) by {
                let i = choose|i: int| 0 <= i < chain.len() && chain[i] == x;
                assert(named_first_at(t, chain[i], (i + 1) as nat));
            }
        }
        vstd::set_lib::lemma_len_subset(
            chain.to_set(),
            vstd::set_lib::set_int_range(0, n as int),
        );
    }
}

/// The name of a type depends on its element type and its data alone.
pub proof fn law_name_ignores_flags(t: NameTables, a: Il2CppType, b: Il2CppType, depth: nat)
    requires
        a.ty == b.ty,
        a.data == b.data,
    ensures
        name_within(t, a, depth) == name_within(t, b, depth),
        has_name(t, a) == has_name(t, b),
{
    assert forall|d: nat| name_within(t, a, d) == name_within(t, b, d) by {}
    if has_name(t, a) {
        let d = choose|d: nat| name_within(t, a, d) is Some;
        assert(name_within(t, b, d) is Some);
    }
    if has_name(t, b) {
        let d = choose|d: nat| name_within(t, b, d) is Some;
        assert(name_within(t, a, d) is Some);
    }
}

/// An element type with a fixed name has that name, whatever else the type holds.
pub proof fn law_fixed_name(t: NameTables, ty: Il2CppType)
    requires
        fixed_name(ty.ty) is Some,
    ensures
        has_name(t, ty),
        Some(name_of_type(t, ty)) == fixed_name(ty.ty),
{
    law_name_unique(t, ty, 1);
}

/// A class or a value type has the name of its definition.
pub proof fn law_definition_name(t: NameTables, ty: Il2CppType, index: u32)
    requires
        ty.ty == Il2CppTypeEnum::Class || ty.ty == Il2CppTypeEnum::Valuetype,
        ty.data == TypeData::TypeDefinitionIndex(TypeDefinitionIndex { index }),
        index < t.definitions.len(),
    ensures
        has_name(t, ty),
        name_of_type(t, ty) == t.definitions[index as int],
{
    law_name_unique(t, ty, 1);
}

/// A generic parameter goes by its own name.
pub proof fn law_parameter_name(t: NameTables, ty: Il2CppType, index: u32)
    requires
        ty.ty == Il2CppTypeEnum::Var || ty.ty == Il2CppTypeEnum::Mvar,
        ty.data == TypeData::GenericParameterIndex(GenericParameterIndex { index }),
        index < t.parameters.len(),
    ensures
        has_name(t, ty),
        name_of_type(t, ty) == t.parameters[index as int],
{
    law_name_unique(t, ty, 1);
}

/// A pointer has the name of what it points to, with a star behind it.
pub proof fn law_pointer_name(t: NameTables, ty: Il2CppType, index: usize)
    requires
        ty.ty == Il2CppTypeEnum::Ptr,
        ty.data == TypeData::TypeIndex(index),
        index < t.types.len(),
        has_name(t, t.types[index as int]),
    ensures
        has_name(t, ty),
        name_of_type(t, ty) == name_of_type(t, t.types[index as int]) + "*"@,
{
    reveal_with_fuel(name_within, 3);
    let depth = choose|d: nat| name_within(t, t.types[index as int], d) is Some;
    law_name_unique(t, t.types[index as int], depth);
    law_name_unique(t, ty, depth + 1);
}

/// A vector has the name of its elements, with empty brackets behind it.
pub proof fn law_vector_name(t: NameTables, ty: Il2CppType, index: usize)
    requires
        ty.ty == Il2CppTypeEnum::Szarray,
        ty.data == TypeData::TypeIndex(index),
        index < t.types.len(),
        has_name(t, t.types[index as int]),
    ensures
        has_name(t, ty),
        name_of_type(t, ty) == name_of_type(t, t.types[index as int]) + "[]"@,
{
    reveal_with_fuel(name_within, 3);
    let depth = choose|d: nat| name_within(t, t.types[index as int], d) is Some;
    law_name_unique(t, t.types[index as int], depth);
    law_name_unique(t, ty, depth + 1);
}

/// An array has the name of its elements, with brackets behind it that hold one comma less than
/// it has dimensions.
pub proof fn law_array_name(t: NameTables, ty: Il2CppType, index: usize)
    requires
        ty.ty == Il2CppTypeEnum::Array,
        ty.data == TypeData::ArrayType(index),
        index < t.array_types.len(),
        t.array_types[index as int].rank > 0,
        t.array_types[index as int].elem_ty < t.types.len(),
        has_name(t, t.types[t.array_types[index as int].elem_ty as int]),
    ensures
        has_name(t, ty),
        name_of_type(t, ty) == name_of_type(
            t,
            t.types[t.array_types[index as int].elem_ty as int],
        ) + "["@ + commas((t.array_types[index as int].rank - 1) as nat) + "]"@,
{
    reveal_with_fuel(name_within, 3);
    let element = t.types[t.array_types[index as int].elem_ty as int];
    let depth = choose|d: nat| name_within(t, element, d) is Some;
    law_name_unique(t, element, depth);
    law_name_unique(t, ty, depth + 1);
}

/// The names of the types at these positions of the list, with commas between them.
pub open spec fn joined_names(t: NameTables, indices: Seq<usize>) -> Seq<char>
    decreases indices.len(),
{
    if indices.len() == 0 {
        Seq::empty()
    } else if indices.len() == 1 {
        name_of_type(t, t.types[indices[0] as int])
    } else {
        joined_names(t, indices.drop_last()) + ", "@ + name_of_type(
            t,
            t.types[indices.last() as int],
        )
    }
}

/// The depth at which all of these types have their names.
proof fn lemma_joined_names(t: NameTables, indices: Seq<usize>) -> (depth: nat)
    requires
        forall|k: int|
            0 <= k < indices.len() ==> #[trigger] indices[k] < t.types.len() && has_name(
                t,
                t.types[indices[k] as int],
            ),
    ensures
        argument_names_within(t, indices, depth) == Some(joined_names(t, indices)),
    decreases indices.len(),
{
    reveal_with_fuel(argument_names_within, 3);
    if indices.len() == 0 {
        0
    } else {
        let last = t.types[indices[indices.len() - 1] as int];
        let d = choose|d: nat| name_within(t, last, d) is Some;
        law_name_unique(t, last, d);
        if indices.len() == 1 {
            d
        } else {
            let front = indices.drop_last();
            assert forall|k: int| 0 <= k < front.len() implies #[trigger] front[k] < t.types.len()
                && has_name(t, t.types[front[k] as int]) by {
                assert(front[k] == indices[k]);
            }
            let e = lemma_joined_names(t, front);
            let depth = d + e;
            lemma_name_monotone(t, last, d, depth);
            lemma_arguments_monotone(t, front, e, depth);
            depth
        }
    }
}

/// A generic instance has the name of its class, with the names of its arguments behind it in
/// angle brackets.
pub proof fn law_generic_name(t: NameTables, ty: Il2CppType, index: usize, inst: usize)
    requires
        ty.ty == Il2CppTypeEnum::Genericinst,
        ty.data == TypeData::GenericClassIndex(index),
        index < t.generic_classes.len(),
        t.generic_classes[index as int].context.class_inst_idx == Some(inst),
        inst < t.generic_insts.len(),
        t.generic_classes[index as int].type_index < t.types.len(),
        has_name(t, t.types[t.generic_classes[index as int].type_index as int]),
        forall|k: int|
            0 <= k < t.generic_insts[inst as int].len() ==> #[trigger] t.generic_insts[inst as int][k]
                < t.types.len() && has_name(
                t,
                t.types[t.generic_insts[inst as int][k] as int],
            ),
    ensures
        has_name(t, ty),
        name_of_type(t, ty) == name_of_type(
            t,
            t.types[t.generic_classes[index as int].type_index as int],
        ) + "<"@ + joined_names(t, t.generic_insts[inst as int]) + ">"@,
{
    reveal_with_fuel(name_within, 3);
    let class = t.types[t.generic_classes[index as int].type_index as int];
    let indices = t.generic_insts[inst as int];
    let d = choose|d: nat| name_within(t, class, d) is Some;
    law_name_unique(t, class, d);
    let e = lemma_joined_names(t, indices);
    let depth = d + e;
    lemma_name_monotone(t, class, d, depth);
    lemma_arguments_monotone(t, indices, e, depth);
    law_name_unique(t, ty, depth + 1);
}

// ---------------------------------------------------------------------------------------------
// Making names
// ---------------------------------------------------------------------------------------------

impl Il2CppTypeEnum {
    /// The name of an element type that has the same name wherever it occurs.
    fn fixed_name(self) -> (r: Option<&'static str>)
        ensures
            match r {
                Some(name) => fixed_name(self) == Some(name@),
                None => fixed_name(self) is None,
            },
    {
        Some(match self {
            Il2CppTypeEnum::Void => "System.Void",
            Il2CppTypeEnum::Boolean => "System.Boolean",
            Il2CppTypeEnum::Char => "System.Char",
            Il2CppTypeEnum::I1 => "System.SByte",
            Il2CppTypeEnum::U1 => "System.Byte",
            Il2CppTypeEnum::I2 => "System.Int16",
            Il2CppTypeEnum::U2 => "System.UInt16",
            Il2CppTypeEnum::I4 => "System.Int32",
            Il2CppTypeEnum::U4 => "System.UInt32",
            Il2CppTypeEnum::I8 => "System.Int64",
            Il2CppTypeEnum::U8 => "System.UInt64",
            Il2CppTypeEnum::R4 => "System.Single",
            Il2CppTypeEnum::R8 => "System.Double",
            Il2CppTypeEnum::String => "System.String",
            Il2CppTypeEnum::Typedbyref => "System.TypedReference",
            Il2CppTypeEnum::I => "System.IntPtr",
            Il2CppTypeEnum::U => "System.UIntPtr",
            Il2CppTypeEnum::Object => "System.Object",
            Il2CppTypeEnum::Sentinel => "<<SENTINEL>>",
            _ => return None,
        })
    }

    /// The identifier of an element type that has no fixed name.
    fn label(self) -> (r: &'static str)
        ensures
            r@ == type_label(self),
    {
        match self {
            Il2CppTypeEnum::End => "End",
            Il2CppTypeEnum::Ptr => "Ptr",
            Il2CppTypeEnum::Byref => "Byref",
            Il2CppTypeEnum::Valuetype => "Valuetype",
            Il2CppTypeEnum::Class => "Class",
            Il2CppTypeEnum::Var => "Var",
            Il2CppTypeEnum::Array => "Array",
            Il2CppTypeEnum::Genericinst => "Genericinst",
            Il2CppTypeEnum::Fnptr => "Fnptr",
            Il2CppTypeEnum::Szarray => "Szarray",
            Il2CppTypeEnum::Mvar => "Mvar",
            Il2CppTypeEnum::CmodReqd => "CmodReqd",
            Il2CppTypeEnum::CmodOpt => "CmodOpt",
            Il2CppTypeEnum::Internal => "Internal",
            Il2CppTypeEnum::Modifier => "Modifier",
            Il2CppTypeEnum::Pinned => "Pinned",
            Il2CppTypeEnum::Enum => "Enum",
            _ => "",
        }
    }
}

/// Whether a name that was looked for is the one that `expected` holds.
pub open spec fn same_name(r: Option<String>, expected: Option<Seq<char>>) -> bool {
    match r {
        Some(name) => expected == Some(name@),
        None => expected is None,
    }
}

/// The name of the type at position `index` of the list, if its parts nest at most `depth` deep.
fn listed_name(metadata: &Metadata, index: usize, depth: usize) -> (r: Option<String>)
    ensures
        same_name(r, listed_name_within(name_tables(*metadata), index, depth as nat)),
    decreases depth, 1nat,
{
    let types = &metadata.runtime_metadata.metadata_registration.types;
    if depth == 0 || index >= types.len() {
        return None;
    }
    name_to_depth(metadata, types[index], depth - 1)
}

/// The names of the types at these positions of the list, with commas between them, if their
/// parts nest at most `depth` deep.
fn argument_names(metadata: &Metadata, indices: &Vec<usize>, depth: usize) -> (r: Option<String>)
    ensures
        same_name(r, argument_names_within(name_tables(*metadata), indices@, depth as nat)),
    decreases depth, 2nat,
{
    let ghost t = name_tables(*metadata);
    let mut names: String = String::new();
    let mut i: usize = 0;
    while i < indices.len()
        invariant
            t == name_tables(*metadata),
            i <= indices@.len(),
            argument_names_within(t, indices@.take(i as int), depth as nat) == Some(names@),
        decreases indices@.len() - i,
    {
        let next = listed_name(metadata, indices[i], depth);
        proof {
            assert(indices@.take(i + 1).drop_last() =~= indices@.take(i as int));
            assert(indices@.take(i + 1).last() == indices@[i as int]);
        }
        match next {
            Some(name) => {
                if i > 0 {
                    names.append(", ");
                }
                names.append(name.as_str());
                assert(i == 0 ==> names@ =~= name@);
            },
            None => {
                proof {
                    lemma_arguments_stop(t, indices@, (i + 1) as nat, depth as nat);
                }
                return None;
            },
        }
        i += 1;
    }
    assert(indices@.take(i as int) =~= indices@);
    Some(names)
}

/// One argument without a name leaves the whole list without.
proof fn lemma_arguments_stop(t: NameTables, indices: Seq<usize>, n: nat, depth: nat)
    requires
        0 < n <= indices.len(),
        argument_names_within(t, indices.take(n as int), depth) is None,
    ensures
        argument_names_within(t, indices, depth) is None,
    decreases indices.len() - n,
{
    if n == indices.len() {
        assert(indices.take(n as int) =~= indices);
    } else {
        assert(indices.take((n + 1) as int).drop_last() =~= indices.take(n as int));
        lemma_arguments_stop(t, indices, n + 1, depth);
    }
}

/// `n` commas.
fn comma_string(n: u8) -> (r: String)
    ensures
        r@ == commas(n as nat),
{
    let mut s: String = String::new();
    let mut i: u8 = 0;
    assert(s@ =~= commas(0));
    while i < n
        invariant
            i <= n,
            s@ == commas(i as nat),
        decreases n - i,
    {
        s.append(",");
        proof {
            reveal_strlit(",");
            assert(s@ =~= commas((i + 1) as nat));
        }
        i += 1;
    }
    s
}

/// The name of a type whose parts are listed types with names at most `depth` deep.
fn name_to_depth(metadata: &Metadata, ty: Il2CppType, depth: usize) -> (r: Option<String>)
    ensures
        same_name(r, name_within(name_tables(*metadata), ty, depth as nat + 1)),
    decreases depth, 3nat,
{
    let ghost t = name_tables(*metadata);
    let registration = &metadata.runtime_metadata.metadata_registration;
    match ty.ty.fixed_name() {
        Some(name) => return Some(name.to_owned()),
        None => {},
    }
    match (ty.ty, ty.data) {
        (Il2CppTypeEnum::Var | Il2CppTypeEnum::Mvar, TypeData::GenericParameterIndex(idx)) => {
            let parameters = &metadata.global_metadata.generic_parameters;
            if (idx.index as usize) < parameters.len() {
                Some(parameters[idx.index as usize].name.clone())
            } else {
                None
            }
        },
        (Il2CppTypeEnum::Ptr, TypeData::TypeIndex(index)) => match listed_name(
            metadata,
            index,
            depth,
        ) {
            Some(name) => Some(name.concat("*")),
            None => None,
        },
        (Il2CppTypeEnum::Szarray, TypeData::TypeIndex(index)) => match listed_name(
            metadata,
            index,
            depth,
        ) {
            Some(name) => Some(name.concat("[]")),
            None => None,
        },
        (Il2CppTypeEnum::Array, TypeData::ArrayType(index)) => {
            if index >= registration.array_types.len() {
                return None;
            }
            let array_type = &registration.array_types[index];
            assert(t.array_types[index as int] == array_type@);
            if array_type.rank == 0 {
                return None;
            }
            match listed_name(metadata, array_type.elem_ty, depth) {
                Some(name) => Some(
                    name.concat("[").concat(comma_string(array_type.rank - 1).as_str()).concat("]"),
                ),
                None => None,
            }
        },
        (
            Il2CppTypeEnum::Class | Il2CppTypeEnum::Valuetype,
            TypeData::TypeDefinitionIndex(idx),
        ) => {
            let definitions = &metadata.global_metadata.type_definitions;
            if (idx.index as usize) < definitions.len() {
                Some(definitions[idx.index as usize].full_name.clone())
            } else {
                None
            }
        },
        (Il2CppTypeEnum::Genericinst, TypeData::GenericClassIndex(index)) => {
            if index >= registration.generic_classes.len() {
                return None;
            }
            let class = registration.generic_classes[index];
            let inst: usize = match class.context.class_inst_idx {
                Some(inst) => inst,
                None => return None,
            };
            if inst >= registration.generic_insts.len() {
                return None;
            }
            assert(t.generic_insts[inst as int] == registration.generic_insts@[inst as int]@);
            let arguments = match argument_names(
                metadata,
                &registration.generic_insts[inst].types,
                depth,
            ) {
                Some(arguments) => arguments,
                None => return None,
            };
            match listed_name(metadata, class.type_index, depth) {
                Some(name) => Some(name.concat("<").concat(arguments.as_str()).concat(">")),
                None => None,
            }
        },
        _ => {
            let mut name: String = String::new();
            name.append("(");
            name.append(ty.ty.label());
            name.append("?)");
            assert(name@ =~= "("@ + type_label(ty.ty) + "?)"@);
            Some(name)
        },
    }
}

impl Il2CppType {
    /// The full name of the type, with the names of its parts.
    pub fn full_name(&self, metadata: &Metadata) -> (r: String)
        requires
            has_name(name_tables(*metadata), *self),
        ensures
            r@ == name_of_type(name_tables(*metadata), *self),
    {
        let count: usize = metadata.runtime_metadata.metadata_registration.types.len();
        proof {
            law_name_depth_bounded(name_tables(*metadata), *self);
        }
        match name_to_depth(metadata, *self, count) {
            Some(name) => name,
            None => String::new(),
        }
    }

    /// The full name of the type, if it has one.
    pub fn try_full_name(&self, metadata: &Metadata) -> (r: Option<String>)
        ensures
            match r {
                Some(name) => {
                    &&& has_name(name_tables(*metadata), *self)
                    &&& name@ == name_of_type(name_tables(*metadata), *self)
                },
                None => !has_name(name_tables(*metadata), *self),
            },
    {
        let count: usize = metadata.runtime_metadata.metadata_registration.types.len();
        let r = name_to_depth(metadata, *self, count);
        proof {
            let t = name_tables(*metadata);
            if has_name(t, *self) {
                law_name_depth_bounded(t, *self);
            } else if r is Some {
                law_name_unique(t, *self, count as nat + 1);
            }
        }
        r
    }
}

// ---------------------------------------------------------------------------------------------
// The names of a program
// ---------------------------------------------------------------------------------------------

/// The name of a type in a program, if it has one. This is what [`Il2CppType::try_full_name`]
/// gives.
pub open spec fn full_name_in(metadata: Metadata, ty: Il2CppType) -> Option<Seq<char>> {
    if has_name(name_tables(metadata), ty) {
        Some(name_of_type(name_tables(metadata), ty))
    } else {
        None
    }
}

/// A generic parameter goes by the name of the entry at its index.
pub proof fn law_named_parameter(metadata: Metadata, ty: Il2CppType, k: u32)
    requires
        ty.ty == Il2CppTypeEnum::Var || ty.ty == Il2CppTypeEnum::Mvar,
        ty.data == TypeData::GenericParameterIndex(GenericParameterIndex { index: k }),
    ensures
        ({
            let parameters = metadata.global_metadata.generic_parameters@;
            full_name_in(metadata, ty) == if k < parameters.len() {
                Some(parameters[k as int].name@)
            } else {
                None
            }
        }),
{
    let t = name_tables(metadata);
    if k < metadata.global_metadata.generic_parameters@.len() {
        law_parameter_name(t, ty, k);
    } else {
        assert forall|depth: nat| name_within(t, ty, depth) is None by {}
    }
}

/// A class or a value type goes by the name of the type definition at its index.
pub proof fn law_named_definition(metadata: Metadata, ty: Il2CppType, k: u32)
    requires
        ty.ty == Il2CppTypeEnum::Class || ty.ty == Il2CppTypeEnum::Valuetype,
        ty.data == TypeData::TypeDefinitionIndex(TypeDefinitionIndex { index: k }),
    ensures
        ({
            let definitions = metadata.global_metadata.type_definitions@;
            full_name_in(metadata, ty) == if k < definitions.len() {
                Some(definitions[k as int].full_name@)
            } else {
                None
            }
        }),
{
    let t = name_tables(metadata);
    if k < metadata.global_metadata.type_definitions@.len() {
        law_definition_name(t, ty, k);
    } else {
        assert forall|depth: nat| name_within(t, ty, depth) is None by {}
    }
}

/// A pointer goes by the name of the listed type at its index, with a star behind it. It has no
/// name where that type has none.
pub proof fn law_named_pointer(metadata: Metadata, ty: Il2CppType, k: usize)
    requires
        ty.ty == Il2CppTypeEnum::Ptr,
        ty.data == TypeData::TypeIndex(k),
    ensures
        ({
            let types = metadata.runtime_metadata.metadata_registration.types@;
            full_name_in(metadata, ty) == if k < types.len() {
                match full_name_in(metadata, types[k as int]) {
                    Some(name) => Some(name + "*"@),
                    None => None,
                }
            } else {
                None
            }
        }),
{
    let t = name_tables(metadata);
    if k < t.types.len() && has_name(t, t.types[k as int]) {
        law_pointer_name(t, ty, k);
    } else if has_name(t, ty) {
        reveal_with_fuel(name_within, 3);
        let depth = choose|d: nat| name_within(t, ty, d) is Some;
        assert(listed_name_within(t, k, (depth - 1) as nat) is Some);
        assert(name_within(t, t.types[k as int], (depth - 1) as nat) is Some);
    }
}

/// A vector goes by the name of the listed type at its index, with empty brackets behind it. It
/// has no name where that type has none.
pub proof fn law_named_vector(metadata: Metadata, ty: Il2CppType, k: usize)
    requires
        ty.ty == Il2CppTypeEnum::Szarray,
        ty.data == TypeData::TypeIndex(k),
    ensures
        ({
            let types = metadata.runtime_metadata.metadata_registration.types@;
            full_name_in(metadata, ty) == if k < types.len() {
                match full_name_in(metadata, types[k as int]) {
                    Some(name) => Some(name + "[]"@),
                    None => None,
                }
            } else {
                None
            }
        }),
{
    let t = name_tables(metadata);
    if k < t.types.len() && has_name(t, t.types[k as int]) {
        law_vector_name(t, ty, k);
    } else if has_name(t, ty) {
        reveal_with_fuel(name_within, 3);
        let depth = choose|d: nat| name_within(t, ty, d) is Some;
        assert(listed_name_within(t, k, (depth - 1) as nat) is Some);
        assert(name_within(t, t.types[k as int], (depth - 1) as nat) is Some);
    }
}

/// An array goes by the name of the element type that the array type at its index has, with
/// brackets behind it that hold one comma less than the array type's rank.
pub proof fn law_named_array(metadata: Metadata, ty: Il2CppType, k: usize)
    requires
        ty.ty == Il2CppTypeEnum::Array,
        ty.data == TypeData::ArrayType(k),
    ensures
        ({
            let registration = metadata.runtime_metadata.metadata_registration;
            let types = registration.types@;
            let array = registration.array_types@[k as int];
            full_name_in(metadata, ty) == if k < registration.array_types@.len() && array.rank > 0
                && array.elem_ty < types.len() {
                match full_name_in(metadata, types[array.elem_ty as int]) {
                    Some(name) => Some(
                        name + "["@ + Seq::new((array.rank - 1) as nat, |i: int| ',') + "]"@,
                    ),
                    None => None,
                }
            } else {
                None
            }
        }),
{
    let t = name_tables(metadata);
    let registration = metadata.runtime_metadata.metadata_registration;
    let array = registration.array_types@[k as int];
    if k < t.array_types.len() {
        assert(t.array_types[k as int] == array@);
    }
    if k < t.array_types.len() && array.rank > 0 && array.elem_ty < t.types.len() && has_name(
        t,
        t.types[array.elem_ty as int],
    ) {
        law_array_name(t, ty, k);
        assert(commas((array.rank - 1) as nat) =~= Seq::new(
            (array.rank - 1) as nat,
            |i: int| ',',
        ));
    } else if has_name(t, ty) {
        reveal_with_fuel(name_within, 3);
        let depth = choose|d: nat| name_within(t, ty, d) is Some;
        assert(listed_name_within(t, array.elem_ty, (depth - 1) as nat) is Some);
        assert(name_within(t, t.types[array.elem_ty as int], (depth - 1) as nat) is Some);
    }
}

/// Names are joined in order, with a comma and a space between each and the next.
pub proof fn law_joined_names(t: NameTables, indices: Seq<usize>, last: usize)
    ensures
        joined_names(t, Seq::empty()) == Seq::<char>::empty(),
        joined_names(t, seq![last]) == name_of_type(t, t.types[last as int]),
        indices.len() > 0 ==> joined_names(t, indices.push(last)) == joined_names(t, indices)
            + ", "@ + name_of_type(t, t.types[last as int]),
{
    assert(indices.push(last).drop_last() =~= indices);
}

/// A generic instance goes by the name of the listed type that its class is of, with the names of
/// the listed types that its class's instantiation holds behind it in angle brackets. It has no
/// name where one of these has none.
pub proof fn law_named_generic(metadata: Metadata, ty: Il2CppType, k: usize, inst: usize)
    requires
        ty.ty == Il2CppTypeEnum::Genericinst,
        ty.data == TypeData::GenericClassIndex(k),
        k < metadata.runtime_metadata.metadata_registration.generic_classes@.len(),
        metadata.runtime_metadata.metadata_registration.generic_classes@[k as int].context.class_inst_idx
            == Some(inst),
        inst < metadata.runtime_metadata.metadata_registration.generic_insts@.len(),
    ensures
        ({
            let registration = metadata.runtime_metadata.metadata_registration;
            let types = registration.types@;
            let class = registration.generic_classes@[k as int].type_index;
            let arguments = registration.generic_insts@[inst as int].types@;
            let complete = class < types.len() && full_name_in(
                metadata,
                types[class as int],
            ) is Some && forall|j: int|
                0 <= j < arguments.len() ==> #[trigger] arguments[j] < types.len() && full_name_in(
                    metadata,
                    types[arguments[j] as int],
                ) is Some;
            full_name_in(metadata, ty) == if complete {
                Some(
                    full_name_in(metadata, types[class as int]).unwrap() + "<"@ + joined_names(
                        name_tables(metadata),
                        arguments,
                    ) + ">"@,
                )
            } else {
                None
            }
        }),
{
    let t = name_tables(metadata);
    let registration = metadata.runtime_metadata.metadata_registration;
    let class = registration.generic_classes@[k as int].type_index;
    let arguments = registration.generic_insts@[inst as int].types@;
    assert(t.generic_insts[inst as int] == registration.generic_insts@[inst as int]@);
    assert(t.generic_insts[inst as int] == arguments);
    let complete = class < t.types.len() && has_name(t, t.types[class as int]) && forall|j: int|
        0 <= j < arguments.len() ==> #[trigger] arguments[j] < t.types.len() && has_name(
            t,
            t.types[arguments[j] as int],
        );
    if complete {
        law_generic_name(t, ty, k, inst);
    } else if has_name(t, ty) {
        reveal_with_fuel(name_within, 3);
        let depth = choose|d: nat| name_within(t, ty, d) is Some;
        let inner = (depth - 1) as nat;
        assert(listed_name_within(t, class, inner) is Some);
        assert(name_within(t, t.types[class as int], inner) is Some);
        assert(argument_names_within(t, arguments, inner) is Some);
        lemma_arguments_have_names(t, arguments, inner);
    }
}

/// Where a list of names is complete, every type in it has a name.
proof fn lemma_arguments_have_names(t: NameTables, indices: Seq<usize>, depth: nat)
    requires
        argument_names_within(t, indices, depth) is Some,
    ensures
        forall|j: int|
            0 <= j < indices.len() ==> #[trigger] indices[j] < t.types.len() && has_name(
                t,
                t.types[indices[j] as int],
            ),
    decreases indices.len(),
{
    reveal_with_fuel(argument_names_within, 3);
    if indices.len() == 1 {
        assert(name_within(t, t.types[indices[0] as int], depth) is Some);
    } else if indices.len() > 1 {
        lemma_arguments_have_names(t, indices.drop_last(), depth);
        assert(name_within(t, t.types[indices.last() as int], depth) is Some);
        assert forall|j: int| 0 <= j < indices.len() implies #[trigger] indices[j] < t.types.len()
            && has_name(t, t.types[indices[j] as int]) by {
            if j < indices.len() - 1 {
                assert(indices.drop_last()[j] == indices[j]);
            }
        }
    }
}

/// A generic instance whose class or instantiation is not there has no name.
pub proof fn law_unnamed_generic(metadata: Metadata, ty: Il2CppType, k: usize)
    requires
        ty.ty == Il2CppTypeEnum::Genericinst,
        ty.data == TypeData::GenericClassIndex(k),
        ({
            let registration = metadata.runtime_metadata.metadata_registration;
            ||| k >= registration.generic_classes@.len()
            ||| registration.generic_classes@[k as int].context.class_inst_idx is None
            ||| registration.generic_classes@[k as int].context.class_inst_idx.unwrap()
                >= registration.generic_insts@.len()
        }),
    ensures
        full_name_in(metadata, ty) is None,
{
    let t = name_tables(metadata);
    assert forall|depth: nat| name_within(t, ty, depth) is None by {}
}

/// A type whose data is not of the sort that its element type asks for is named by its element
/// type alone, whatever the program.
pub proof fn law_named_by_label(a: Metadata, b: Metadata, ty: Il2CppType)
    requires
        fixed_name(ty.ty) is None,
        match ty.ty {
            Il2CppTypeEnum::Var | Il2CppTypeEnum::Mvar => !(ty.data is GenericParameterIndex),
            Il2CppTypeEnum::Ptr | Il2CppTypeEnum::Szarray => !(ty.data is TypeIndex),
            Il2CppTypeEnum::Array => !(ty.data is ArrayType),
            Il2CppTypeEnum::Class | Il2CppTypeEnum::Valuetype => !(ty.data is TypeDefinitionIndex),
            Il2CppTypeEnum::Genericinst => !(ty.data is GenericClassIndex),
            _ => true,
        },
    ensures
        full_name_in(a, ty) == full_name_in(b, ty),
        full_name_in(a, ty) == Some("("@ + type_label(ty.ty) + "?)"@),
{
    law_name_unique(name_tables(a), ty, 1);
    law_name_unique(name_tables(b), ty, 1);
}

/// An element type with a fixed name has it in every program, whatever else the type holds.
pub proof fn law_fixed_names(a: Metadata, b: Metadata, x: Il2CppType, y: Il2CppType)
    requires
        fixed_name(x.ty) is Some,
        x.ty == y.ty,
    ensures
        full_name_in(a, x) == full_name_in(b, y),
        full_name_in(a, x) == fixed_name(x.ty),
{
    law_fixed_name(name_tables(a), x);
    law_fixed_name(name_tables(b), y);
}

} // verus!
