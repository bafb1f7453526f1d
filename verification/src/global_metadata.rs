//! What is known of the program apart from its binary: its type definitions and generic
//! parameters.

use vstd::prelude::*;

verus! {

/// A metadata token.
#[derive(Clone, Copy, PartialEq, Eq, Hash, Debug, Structural)]
pub struct Token(pub u32);

/// A position in [`GlobalMetadata::type_definitions`].
#[derive(Clone, Copy, PartialEq, Eq, Hash, Debug, Structural)]
pub struct TypeDefinitionIndex {
    pub index: u32,
}

impl TypeDefinitionIndex {
    pub fn new(index: u32) -> (r: TypeDefinitionIndex)
        ensures
            r.index == index,
    {
        TypeDefinitionIndex { index }
    }
}

/// A position in [`GlobalMetadata::generic_parameters`].
#[derive(Clone, Copy, PartialEq, Eq, Hash, Debug, Structural)]
pub struct GenericParameterIndex {
    pub index: u32,
}

impl GenericParameterIndex {
    pub fn new(index: u32) -> (r: GenericParameterIndex)
        ensures
            r.index == index,
    {
        GenericParameterIndex { index }
    }
}

/// The number of a method definition.
#[derive(Clone, Copy, PartialEq, Eq, Hash, Debug, Structural)]
pub struct MethodIndex {
    pub index: u32,
}

impl MethodIndex {
    pub fn new(index: u32) -> (r: MethodIndex)
        ensures
            r.index == index,
    {
        MethodIndex { index }
    }
}

/// A type definition.
#[derive(Debug)]
pub struct Il2CppTypeDefinition {
    /// The name with its namespace and enclosing types, without generic parameters.
    pub full_name: String,
    pub field_count: u16,
}

/// A generic parameter of a type or a method.
#[derive(Debug)]
pub struct Il2CppGenericParameter {
    pub name: String,
}

/// The tables that type names and field layouts refer to.
#[derive(Debug)]
pub struct GlobalMetadata {
    pub type_definitions: Vec<Il2CppTypeDefinition>,
    pub generic_parameters: Vec<Il2CppGenericParameter>,
}

} // verus!
