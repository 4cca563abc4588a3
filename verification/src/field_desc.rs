use crate::bimap::Internable;
use crate::class_ref::ClassRef;
use crate::hashing::{mix, mix_spec};
use crate::interned::Interned;
use crate::tpe::Type;
use vstd::prelude::*;

verus! {

/// A field of an object: the class that owns it, its name and its type.
#[derive(Debug, Clone, Copy, PartialEq, Eq, Hash)]
pub struct FieldDesc {
    pub owner: Interned<ClassRef>,
    pub name: Interned<String>,
    pub tpe: Type,
}

impl View for FieldDesc {
    type V = FieldDesc;

    open spec fn view(&self) -> FieldDesc {
        *self
    }
}

impl FieldDesc {
    pub fn new(owner: Interned<ClassRef>, name: Interned<String>, tpe: Type) -> (r: Self)
        ensures
            r == (FieldDesc { owner, name, tpe }),
    {
        FieldDesc { owner, name, tpe }
    }
}

impl Internable for FieldDesc {
    closed spec fn hash_spec(v: FieldDesc) -> u64 {
        mix_spec(mix_spec(v.owner.idx, v.name.idx), v.tpe.code_spec())
    }

    fn hash_code(&self) -> (h: u64) {
        mix(mix(self.owner.idx, self.name.idx), self.tpe.code())
    }

    fn same(&self, other: &Self) -> (b: bool) {
        self.owner.is(&other.owner) && self.name.is(&other.name) && self.tpe.is(&other.tpe)
    }

    fn duplicate(&self) -> (r: Self) {
        *self
    }
}

/// A static field: the class that owns it, its name and its type.
#[derive(Debug, Clone, Copy, PartialEq, Eq, Hash)]
pub struct StaticFieldDesc {
    pub owner: Interned<ClassRef>,
    pub name: Interned<String>,
    pub tpe: Type,
}

impl View for StaticFieldDesc {
    type V = StaticFieldDesc;

    open spec fn view(&self) -> StaticFieldDesc {
        *self
    }
}

impl StaticFieldDesc {
    pub fn new(owner: Interned<ClassRef>, name: Interned<String>, tpe: Type) -> (r: Self)
        ensures
            r == (StaticFieldDesc { owner, name, tpe }),
    {
        StaticFieldDesc { owner, name, tpe }
    }
}

impl Internable for StaticFieldDesc {
    closed spec fn hash_spec(v: StaticFieldDesc) -> u64 {
        mix_spec(mix_spec(v.owner.idx, v.name.idx), v.tpe.code_spec())
    }

    fn hash_code(&self) -> (h: u64) {
        mix(mix(self.owner.idx, self.name.idx), self.tpe.code())
    }

    fn same(&self, other: &Self) -> (b: bool) {
        self.owner.is(&other.owner) && self.name.is(&other.name) && self.tpe.is(&other.tpe)
    }

    fn duplicate(&self) -> (r: Self) {
        *self
    }
}

} // verus!
