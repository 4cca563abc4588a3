use crate::bimap::Internable;
use crate::hashing::{mix, mix_spec};
use crate::interned::Interned;
use crate::tpe::{copy_types, same_types, types_code, types_code_spec, Type};
use vstd::prelude::*;

verus! {

/// A reference to a class: its name, the assembly that defines it (none for a
/// class of the assembly being built), whether it is a value type, and its
/// generic arguments.
#[derive(Debug, PartialEq, Eq, Hash)]
pub struct ClassRef {
    name: Interned<String>,
    assembly: Option<Interned<String>>,
    is_valuetype: bool,
    generics: Vec<Type>,
}

/// The mathematical model of a class reference.
pub struct ClassRefView {
    pub name: Interned<String>,
    pub assembly: Option<Interned<String>>,
    pub is_valuetype: bool,
    pub generics: Seq<Type>,
}

impl View for ClassRef {
    type V = ClassRefView;

    closed spec fn view(&self) -> ClassRefView {
        ClassRefView {
            name: self.name,
            assembly: self.assembly,
            is_valuetype: self.is_valuetype,
            generics: self.generics@,
        }
    }
}

impl ClassRef {
    pub fn new(
        name: Interned<String>,
        assembly: Option<Interned<String>>,
        is_valuetype: bool,
        generics: Vec<Type>,
    ) -> (r: Self)
        ensures
            r@ == (ClassRefView { name, assembly, is_valuetype, generics: generics@ }),
    {
        ClassRef { name, assembly, is_valuetype, generics }
    }

    pub fn name(&self) -> (r: Interned<String>)
        ensures
            r == self@.name,
    {
        self.name
    }

    pub fn assembly(&self) -> (r: Option<Interned<String>>)
        ensures
            r == self@.assembly,
    {
        self.assembly
    }

    pub fn is_valuetype(&self) -> (r: bool)
        ensures
            r == self@.is_valuetype,
    {
        self.is_valuetype
    }

    pub fn generics(&self) -> (r: &Vec<Type>)
        ensures
            r@ == self@.generics,
    {
        &self.generics
    }
}

impl Clone for ClassRef {
    fn clone(&self) -> (r: Self)
        ensures
            r@ == self@,
    {
        ClassRef {
            name: self.name,
            assembly: self.assembly,
            is_valuetype: self.is_valuetype,
            generics: copy_types(&self.generics),
        }
    }
}

impl Internable for ClassRef {
    closed spec fn hash_spec(v: ClassRefView) -> u64 {
        mix_spec(
            mix_spec(
                mix_spec(
                    v.name.idx,
                    match v.assembly {
                        Some(a) => mix_spec(1, a.idx),
                        None => 0,
                    },
                ),
                if v.is_valuetype {
                    1
                } else {
                    0
                },
            ),
            types_code_spec(v.generics),
        )
    }

    fn hash_code(&self) -> (h: u64) {
        let a: u64 = match self.assembly {
            Some(a) => mix(1, a.idx),
            None => 0,
        };
        let v: u64 = if self.is_valuetype {
            1
        } else {
            0
        };
        mix(mix(mix(self.name.idx, a), v), types_code(&self.generics))
    }

    fn same(&self, other: &Self) -> (b: bool) {
        let same_asm = match (self.assembly, other.assembly) {
            (Some(a), Some(b)) => a.is(&b),
            (None, None) => true,
            _ => false,
        };
        self.name.is(&other.name) && same_asm && self.is_valuetype == other.is_valuetype
            && same_types(&self.generics, &other.generics)
    }

    fn duplicate(&self) -> (r: Self) {
        self.clone()
    }
}

} // verus!
