use crate::bimap::Internable;
use crate::hashing::{mix, mix_spec};
use crate::tpe::{copy_types, same_types, types_code, types_code_spec, Type};
use vstd::prelude::*;

verus! {

/// The signature of a function: the types of its arguments, in order, and the
/// type of its result.
#[derive(Debug, PartialEq, Eq, Hash)]
pub struct FnSig {
    inputs: Vec<Type>,
    output: Type,
}

/// The mathematical model of a signature.
pub struct FnSigView {
    pub inputs: Seq<Type>,
    pub output: Type,
}

impl View for FnSig {
    type V = FnSigView;

    closed spec fn view(&self) -> FnSigView {
        FnSigView { inputs: self.inputs@, output: self.output }
    }
}

impl FnSig {
    pub fn new(inputs: Vec<Type>, output: Type) -> (r: Self)
        ensures
            r@ == (FnSigView { inputs: inputs@, output }),
    {
        FnSig { inputs, output }
    }

    pub fn inputs(&self) -> (r: &Vec<Type>)
        ensures
            r@ == self@.inputs,
    {
        &self.inputs
    }

    pub fn output(&self) -> (r: &Type)
        ensures
            *r == self@.output,
    {
        &self.output
    }

    pub fn set_inputs(&mut self, inputs: Vec<Type>)
        ensures
            final(self)@ == (FnSigView { inputs: inputs@, output: old(self)@.output }),
    {
        self.inputs = inputs;
    }
}

impl Clone for FnSig {
    fn clone(&self) -> (r: Self)
        ensures
            r@ == self@,
    {
        FnSig { inputs: copy_types(&self.inputs), output: self.output }
    }
}

impl Internable for FnSig {
    closed spec fn hash_spec(v: FnSigView) -> u64 {
        mix_spec(types_code_spec(v.inputs), v.output.code_spec())
    }

    fn hash_code(&self) -> (h: u64) {
        mix(types_code(&self.inputs), self.output.code())
    }

    fn same(&self, other: &Self) -> (b: bool) {
        same_types(&self.inputs, &other.inputs) && self.output.is(&other.output)
    }

    fn duplicate(&self) -> (r: Self) {
        self.clone()
    }
}

} // verus!
