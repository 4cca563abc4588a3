use crate::fn_sig::{FnSig, FnSigView};
use crate::tpe::{copy_types, Type};
use vstd::prelude::*;

verus! {

/// The calling convention of a function, as far as a call depends on it.
#[derive(Debug, Clone, Copy, PartialEq, Eq, Hash, Structural)]
pub enum CanonAbi {
    C,
    Rust,
    /// One of the conventions of the x86 family.
    X86,
    /// Any other convention. Calls with it are not supported.
    Other,
}

/// The declared ABI of a function, as far as a call depends on it.
#[derive(Debug, Clone, Copy, PartialEq, Eq, Hash, Structural)]
pub enum ExternAbi {
    C,
    Cdecl,
    Rust,
    RustCold,
    Unadjusted,
    SysV64,
    /// The ABI of closures: the last argument is a tuple of the arguments
    /// proper.
    RustCall,
    /// Any other ABI. Calls with it are not supported.
    Other,
}

/// What is known of a function that is to be called: its calling
/// convention, its declared ABI, the types of its result and of its
/// arguments, and for a variadic function the types of the arguments
/// beyond the fixed ones.
#[derive(Debug, PartialEq, Eq)]
pub struct InstanceAbi {
    pub conv: CanonAbi,
    pub internal_abi: ExternAbi,
    pub ret: Type,
    pub args: Vec<Type>,
    pub c_variadic: bool,
    pub variadic: Vec<Type>,
}

impl InstanceAbi {
    /// Whether a call of the function is supported: its calling convention
    /// and its declared ABI are among the supported ones.
    pub open spec fn supported_spec(&self) -> bool {
        !(self.conv is Other) && !(self.internal_abi is Other)
    }

    #[verifier::when_used_as_spec(supported_spec)]
    pub fn supported(&self) -> (r: bool)
        ensures
            r == self.supported_spec(),
    {
        let conv = match self.conv {
            CanonAbi::Other => false,
            _ => true,
        };
        let internal = match self.internal_abi {
            ExternAbi::Other => false,
            _ => true,
        };
        conv && internal
    }

    /// The types of the arguments of a call: the declared ones, followed
    /// for a variadic function by the variadic ones.
    pub open spec fn inputs_spec(self) -> Seq<Type> {
        if self.c_variadic {
            self.args@ + self.variadic@
        } else {
            self.args@
        }
    }
}

/// How a function is called: with what signature, and whether its last
/// argument is a tuple that the call spreads out.
pub struct CallInfo {
    sig: FnSig,
    split_last_tuple: bool,
}

impl CallInfo {
    pub closed spec fn sig_spec(&self) -> FnSigView {
        self.sig@
    }

    pub closed spec fn split_spec(&self) -> bool {
        self.split_last_tuple
    }

    /// How the function `function` is called.
    pub fn sig_from_instance_(function: &InstanceAbi) -> (r: Self)
        requires
            function.supported(),
        ensures
            r.sig_spec() == (FnSigView { inputs: function.inputs_spec(), output: function.ret }),
            r.split_spec() == (function.internal_abi is RustCall),
    {
        let split_last_tuple = match function.internal_abi {
            ExternAbi::RustCall => true,
            _ => false,
        };
        let mut sig = FnSig::new(copy_types(&function.args), function.ret);
        if function.c_variadic {
            let mut inputs = copy_types(sig.inputs());
            let mut i: usize = 0;
            while i < function.variadic.len()
                invariant
                    i <= function.variadic@.len(),
                    inputs@ == function.args@ + function.variadic@.take(i as int),
                decreases function.variadic@.len() - i,
            {
                inputs.push(function.variadic[i]);
                proof {
                    assert(function.variadic@.take(i as int + 1) =~= function.variadic@.take(
                        i as int,
                    ).push(function.variadic@[i as int]));
                    assert(inputs@ =~= function.args@ + function.variadic@.take(i as int + 1));
                }
                i += 1;
            }
            proof {
                assert(function.variadic@.take(i as int) =~= function.variadic@);
            }
            sig.set_inputs(inputs);
        }
        CallInfo { sig, split_last_tuple }
    }

    /// The signature of the call.
    pub fn sig(&self) -> (r: &FnSig)
        ensures
            r@ == self.sig_spec(),
    {
        &self.sig
    }

    /// Whether the last argument is a tuple that the call spreads out.
    pub fn split_last_tuple(&self) -> (r: bool)
        ensures
            r == self.split_spec(),
    {
        self.split_last_tuple
    }
}

} // verus!
