use crate::fn_sig::FnSig;
use crate::tpe::Type;
use vstd::prelude::*;

verus! {

/// What a method is checked against: its signature and its locals, each
/// with its name, if it has one, and its type.
#[derive(Clone, Copy)]
pub struct ValidationContext<'a> {
    sig: &'a FnSig,
    locals: &'a [(Option<String>, Type)],
}

impl<'a> ValidationContext<'a> {
    pub closed spec fn sig_spec(&self) -> &FnSig {
        self.sig
    }

    pub closed spec fn locals_spec(&self) -> &[(Option<String>, Type)] {
        self.locals
    }

    pub fn new(sig: &'a FnSig, locals: &'a [(Option<String>, Type)]) -> (r: Self)
        ensures
            r.sig_spec() == sig,
            r.locals_spec() == locals,
    {
        ValidationContext { sig, locals }
    }

    /// The signature of the method.
    pub fn sig(&self) -> (r: &FnSig)
        ensures
            r == self.sig_spec(),
    {
        self.sig
    }

    /// The locals of the method.
    pub fn locals(&self) -> (r: &[(Option<String>, Type)])
        ensures
            r == self.locals_spec(),
    {
        self.locals
    }
}

} // verus!
