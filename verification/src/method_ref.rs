use crate::bimap::Internable;
use crate::cilnode::MethodKind;
use crate::class_ref::ClassRef;
use crate::fn_sig::FnSig;
use crate::hashing::{mix, mix_spec};
use crate::interned::Interned;
use crate::tpe::{copy_types, same_types, types_code, types_code_spec, Type};
use vstd::prelude::*;

verus! {

/// A reference to a method: the class that holds it, its name, its
/// signature, its kind and its generic arguments.
#[derive(Debug, PartialEq, Eq, Hash)]
pub struct MethodRef {
    class: Interned<ClassRef>,
    name: Interned<String>,
    sig: Interned<FnSig>,
    kind: MethodKind,
    generics: Vec<Type>,
}

/// The mathematical model of a method reference.
pub struct MethodRefView {
    pub class: Interned<ClassRef>,
    pub name: Interned<String>,
    pub sig: Interned<FnSig>,
    pub kind: MethodKind,
    pub generics: Seq<Type>,
}

impl View for MethodRef {
    type V = MethodRefView;

    closed spec fn view(&self) -> MethodRefView {
        MethodRefView {
            class: self.class,
            name: self.name,
            sig: self.sig,
            kind: self.kind,
            generics: self.generics@,
        }
    }
}

impl MethodRef {
    pub fn new(
        class: Interned<ClassRef>,
        name: Interned<String>,
        sig: Interned<FnSig>,
        kind: MethodKind,
        generics: Vec<Type>,
    ) -> (r: Self)
        ensures
            r@ == (MethodRefView { class, name, sig, kind, generics: generics@ }),
    {
        MethodRef { class, name, sig, kind, generics }
    }

    pub fn class(&self) -> (r: Interned<ClassRef>)
        ensures
            r == self@.class,
    {
        self.class
    }

    pub fn name(&self) -> (r: Interned<String>)
        ensures
            r == self@.name,
    {
        self.name
    }

    pub fn sig(&self) -> (r: Interned<FnSig>)
        ensures
            r == self@.sig,
    {
        self.sig
    }

    pub fn kind(&self) -> (r: MethodKind)
        ensures
            r == self@.kind,
    {
        self.kind
    }

    pub fn generics(&self) -> (r: &Vec<Type>)
        ensures
            r@ == self@.generics,
    {
        &self.generics
    }
}

impl Clone for MethodRef {
    fn clone(&self) -> (r: Self)
        ensures
            r@ == self@,
    {
        MethodRef {
            class: self.class,
            name: self.name,
            sig: self.sig,
            kind: self.kind,
            generics: copy_types(&self.generics),
        }
    }
}

impl Internable for MethodRef {
    closed spec fn hash_spec(v: MethodRefView) -> u64 {
        mix_spec(
            mix_spec(mix_spec(mix_spec(v.class.idx, v.name.idx), v.sig.idx), v.kind.code_spec()),
            types_code_spec(v.generics),
        )
    }

    fn hash_code(&self) -> (h: u64) {
        mix(
            mix(mix(mix(self.class.idx, self.name.idx), self.sig.idx), self.kind.code()),
            types_code(&self.generics),
        )
    }

    fn same(&self, other: &Self) -> (b: bool) {
        self.class.is(&other.class) && self.name.is(&other.name) && self.sig.is(&other.sig)
            && self.kind == other.kind && same_types(&self.generics, &other.generics)
    }

    fn duplicate(&self) -> (r: Self) {
        self.clone()
    }
}

} // verus!
