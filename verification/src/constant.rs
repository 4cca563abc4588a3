use crate::assembly::Assembly;
use crate::cilnode::{CILNode, MethodKind, NodeView};
use crate::cst::Const;
use crate::expr::{AssemblyView, Expr};
use crate::interned::Interned;
use crate::method_ref::MethodRef;
use crate::tpe::{Float, Int, Type};
use vstd::prelude::*;

verus! {

/// A signed integer type of the source language.
#[derive(Debug, Clone, Copy, PartialEq, Eq, Hash, Structural)]
pub enum IntTy {
    Isize,
    I8,
    I16,
    I32,
    I64,
    I128,
}

/// An unsigned integer type of the source language.
#[derive(Debug, Clone, Copy, PartialEq, Eq, Hash, Structural)]
pub enum UintTy {
    Usize,
    U8,
    U16,
    U32,
    U64,
    U128,
}

/// The number that the lowest `bits` bits of `value` spell as a signed
/// number in two's complement, where `value` has no higher bits set.
pub open spec fn signed_spec(value: int, modulus: int) -> int {
    if 2 * value < modulus {
        value
    } else {
        value - modulus
    }
}

impl IntTy {
    /// The number of values of the type, a pointer-sized integer having 64
    /// bits.
    pub open spec fn modulus(self) -> int {
        match self {
            IntTy::I8 => 0x100,
            IntTy::I16 => 0x1_0000,
            IntTy::I32 => 0x1_0000_0000,
            IntTy::I64 | IntTy::Isize => 0x1_0000_0000_0000_0000,
            IntTy::I128 => 0x1_0000_0000_0000_0000_0000_0000_0000_0000int,
        }
    }

    /// The constant of the type whose bits are those of `value`.
    pub open spec fn const_spec(self, value: u128) -> Const {
        let n = signed_spec(value as int, self.modulus());
        match self {
            IntTy::I8 => Const::I8(n as i8),
            IntTy::I16 => Const::I16(n as i16),
            IntTy::I32 => Const::I32(n as i32),
            IntTy::I64 => Const::I64(n as i64),
            IntTy::Isize => Const::ISize(n as i64),
            IntTy::I128 => Const::I128(n as i128),
        }
    }
}

impl UintTy {
    /// The number of values of the type, a pointer-sized integer having 64
    /// bits.
    pub open spec fn modulus(self) -> int {
        match self {
            UintTy::U8 => 0x100,
            UintTy::U16 => 0x1_0000,
            UintTy::U32 => 0x1_0000_0000,
            UintTy::U64 | UintTy::Usize => 0x1_0000_0000_0000_0000,
            UintTy::U128 => 0x1_0000_0000_0000_0000_0000_0000_0000_0000int,
        }
    }

    /// The constant of the type that has the value `value`.
    pub open spec fn const_spec(self, value: u128) -> Const {
        match self {
            UintTy::U8 => Const::U8(value as u8),
            UintTy::U16 => Const::U16(value as u16),
            UintTy::U32 => Const::U32(value as u32),
            UintTy::U64 => Const::U64(value as u64),
            UintTy::Usize => Const::USize(value as u64),
            UintTy::U128 => Const::U128(value),
        }
    }
}

/// Interns the node that holds the constant `c`, which is no string.
fn const_node(c: Const, store: &mut Assembly) -> (r: Interned<CILNode>)
    requires
        old(store).wf(),
        !(c is PlatformString),
    ensures
        final(store).wf(),
        final(store)@.extends(old(store)@),
        final(store)@.has_node(r),
        final(store)@.nodes[r.index()] == NodeView::Const(c),
        final(store)@.expr_at(r) == Expr::Const(c),
        final(store).initializers() == old(store).initializers(),
{
    let node = CILNode::Const(Box::new(c));
    assert(node@.kids() =~= Seq::empty());
    store.alloc_node(node)
}

/// The node that holds the constant of the signed integer type `int_type`
/// whose bits are those of `value`. The value has to fit in the width of
/// the type.
pub fn load_const_int(value: u128, int_type: IntTy, store: &mut Assembly) -> (r: Interned<CILNode>)
    requires
        old(store).wf(),
        value < int_type.modulus(),
    ensures
        final(store).wf(),
        final(store)@.extends(old(store)@),
        final(store)@.has_node(r),
        final(store)@.nodes[r.index()] == NodeView::Const(int_type.const_spec(value)),
        final(store).initializers() == old(store).initializers(),
{
    let c = match int_type {
        IntTy::I8 => Const::I8(
            if value < 0x80 {
                value as i8
            } else {
                (value as i16 - 0x100) as i8
            },
        ),
        IntTy::I16 => Const::I16(
            if value < 0x8000 {
                value as i16
            } else {
                (value as i32 - 0x1_0000) as i16
            },
        ),
        IntTy::I32 => Const::I32(
            if value < 0x8000_0000 {
                value as i32
            } else {
                (value as i64 - 0x1_0000_0000) as i32
            },
        ),
        IntTy::I64 => Const::I64(
            if value < 0x8000_0000_0000_0000 {
                value as i64
            } else {
                (value as i128 - 0x1_0000_0000_0000_0000) as i64
            },
        ),
        IntTy::Isize => Const::ISize(
            if value < 0x8000_0000_0000_0000 {
                value as i64
            } else {
                (value as i128 - 0x1_0000_0000_0000_0000) as i64
            },
        ),
        IntTy::I128 => Const::I128(
            if value < 0x8000_0000_0000_0000_0000_0000_0000_0000 {
                value as i128
            } else {
                -((u128::MAX - value) as i128) - 1
            },
        ),
    };
    const_node(c, store)
}

/// The node that holds the constant of the unsigned integer type
/// `int_type` that has the value `value`. The value has to fit in the width
/// of the type.
pub fn load_const_uint(value: u128, int_type: UintTy, store: &mut Assembly) -> (r: Interned<
    CILNode,
>)
    requires
        old(store).wf(),
        value < int_type.modulus(),
    ensures
        final(store).wf(),
        final(store)@.extends(old(store)@),
        final(store)@.has_node(r),
        final(store)@.nodes[r.index()] == NodeView::Const(int_type.const_spec(value)),
        final(store).initializers() == old(store).initializers(),
{
    let c = match int_type {
        UintTy::U8 => Const::U8(value as u8),
        UintTy::U16 => Const::U16(value as u16),
        UintTy::U32 => Const::U32(value as u32),
        UintTy::U64 => Const::U64(value as u64),
        UintTy::Usize => Const::USize(value as u64),
        UintTy::U128 => Const::U128(value),
    };
    const_node(c, store)
}

/// The node that holds the 32-bit or 64-bit floating-point constant whose
/// bits are those of `value`. The value has to fit in the width of the
/// type.
pub fn load_const_float_bits(value: u128, float_type: Float, store: &mut Assembly) -> (r: Interned<
    CILNode,
>)
    requires
        old(store).wf(),
        float_type is F32 || float_type is F64,
        float_type is F32 ==> value <= u32::MAX,
        float_type is F64 ==> value <= u64::MAX,
    ensures
        final(store).wf(),
        final(store)@.extends(old(store)@),
        final(store)@.has_node(r),
        final(store)@.nodes[r.index()] == NodeView::Const(
            if float_type is F32 {
                Const::F32(value as u32)
            } else {
                Const::F64(value as u64)
            },
        ),
        final(store).initializers() == old(store).initializers(),
{
    let c = match float_type {
        Float::F32 => Const::F32(value as u32),
        _ => Const::F64(value as u64),
    };
    const_node(c, store)
}

/// Whether two texts are the same.
fn same_text(a: &str, b: &str) -> (r: bool)
    ensures
        r == (a@ == b@),
{
    let x = a.to_owned();
    let y = b.to_owned();
    x == y
}

/// The functions of the system that a program may refer to through a
/// weakly linked static, each with the argument types and the result type
/// of the runtime helper that stands for it. The types are given the
/// pointer types that they are built from: pointers to `i8`, to `i64`, to
/// `i32`, to the empty type and to pointers to `i8`, and the pointer to
/// functions that take a pointer to the empty type and yield nothing.
pub open spec fn static_fn_sig(
    name: Seq<char>,
    i8_ptr: Type,
    i64_ptr: Type,
    i32_ptr: Type,
    void_ptr: Type,
    i8_ptr_ptr: Type,
    dtor: Type,
) -> Option<(Seq<Type>, Type)> {
    let i32t = Type::Int(Int::I32);
    let u32t = Type::Int(Int::U32);
    let usize = Type::Int(Int::USize);
    let isize = Type::Int(Int::ISize);
    if name == "statx"@ {
        Some((seq![i32t, i8_ptr, i32t, u32t, void_ptr], i32t))
    } else if name == "getrandom"@ {
        Some((seq![i8_ptr, usize, u32t], usize))
    } else if name == "posix_spawn"@ {
        Some((seq![i8_ptr, i8_ptr, i8_ptr, i8_ptr, i8_ptr, i8_ptr], i32t))
    } else if name == "posix_spawn_file_actions_addchdir_np"@ {
        Some((seq![i8_ptr, i8_ptr], i32t))
    } else if name == "__dso_handle"@ {
        Some((Seq::empty(), Type::Void))
    } else if name == "__cxa_thread_atexit_impl"@ {
        Some((seq![dtor, void_ptr, void_ptr], Type::Void))
    } else if name == "copy_file_range"@ {
        Some((seq![i32t, i64_ptr, i32t, i64_ptr, isize, u32t], isize))
    } else if name == "pidfd_spawnp"@ {
        Some((seq![i32_ptr, i8_ptr, void_ptr, void_ptr, i8_ptr_ptr, i8_ptr_ptr], i32t))
    } else if name == "pidfd_getpid"@ {
        Some((seq![i32t], i32t))
    } else {
        None
    }
}

impl AssemblyView {
    /// Whether `tpe` is the type of pointers to `inner`.
    pub open spec fn is_ptr_to(self, tpe: Type, inner: Type) -> bool {
        tpe matches Type::Ptr(h) && h.index() < self.types.len() && self.types[h.index()] == inner
    }

    /// Whether `site` refers to the runtime helper that stands for the
    /// function of the system with the given name.
    pub open spec fn is_static_fn(self, site: Interned<MethodRef>, name: Seq<char>) -> bool {
        exists|i8_ptr: Type, i64_ptr: Type, i32_ptr: Type, void_ptr: Type, i8_ptr_ptr: Type, dtor: Type|
            {
                &&& self.is_ptr_to(i8_ptr, Type::Int(Int::I8))
                &&& self.is_ptr_to(i64_ptr, Type::Int(Int::I64))
                &&& self.is_ptr_to(i32_ptr, Type::Int(Int::I32))
                &&& self.is_ptr_to(void_ptr, Type::Void)
                &&& self.is_ptr_to(i8_ptr_ptr, i8_ptr)
                &&& dtor matches Type::FnPtr(sig) && sig.index() < self.sigs.len() && self.sigs[sig.index()]
                    == (crate::fn_sig::FnSigView { inputs: seq![void_ptr], output: Type::Void })
                &&& #[trigger] static_fn_sig(
                    name,
                    i8_ptr,
                    i64_ptr,
                    i32_ptr,
                    void_ptr,
                    i8_ptr_ptr,
                    dtor,
                ) matches Some(sig) && self.is_helper(site, name, sig.0, sig.1)
            }
    }
}

/// Whether a function of the system with the given name may be referred to
/// through a weakly linked static.
pub fn is_static_fn_name(name: &str) -> (r: bool)
    ensures
        r == (static_fn_sig(
            name@,
            Type::Void,
            Type::Void,
            Type::Void,
            Type::Void,
            Type::Void,
            Type::Void,
        ) is Some),
{
    same_text(name, "statx") || same_text(name, "getrandom") || same_text(name, "posix_spawn")
        || same_text(name, "posix_spawn_file_actions_addchdir_np") || same_text(
        name,
        "__dso_handle",
    ) || same_text(name, "__cxa_thread_atexit_impl") || same_text(name, "copy_file_range")
        || same_text(name, "pidfd_spawnp") || same_text(name, "pidfd_getpid")
}

/// The runtime helper that stands for the function of the system with the
/// given name, which a program refers to through a weakly linked static.
pub fn get_fn_from_static_name(name: &str, store: &mut Assembly) -> (r: Interned<MethodRef>)
    requires
        old(store).wf(),
        static_fn_sig(
            name@,
            Type::Void,
            Type::Void,
            Type::Void,
            Type::Void,
            Type::Void,
            Type::Void,
        ) is Some,
    ensures
        final(store).wf(),
        final(store)@.extends(old(store)@),
        final(store)@.is_static_fn(r, name@),
        final(store).initializers() == old(store).initializers(),
{
    let ghost s0 = store@;
    let i8_ptr = store.nptr(Type::Int(Int::I8));
    let ghost s1 = store@;
    let i64_ptr = store.nptr(Type::Int(Int::I64));
    let ghost s2 = store@;
    let void_ptr = store.nptr(Type::Void);
    let ghost s3 = store@;
    let i8_ptr_ptr = store.nptr(i8_ptr);
    let ghost s4 = store@;
    let i32_ptr = store.nptr(Type::Int(Int::I32));
    let ghost s5 = store@;
    let dtor_inputs: Vec<Type> = vec![void_ptr];
    assert(dtor_inputs@ =~= seq![void_ptr]);
    let dtor_sig = store.sig(dtor_inputs, Type::Void);
    let dtor = Type::FnPtr(dtor_sig);
    let ghost s6 = store@;
    proof {
        s2.lemma_extends_transitive(s1, s0);
        s3.lemma_extends_transitive(s2, s0);
        s4.lemma_extends_transitive(s3, s0);
        s5.lemma_extends_transitive(s4, s0);
        s6.lemma_extends_transitive(s5, s0);
        s3.lemma_extends_transitive(s2, s1);
        s4.lemma_extends_transitive(s3, s1);
        s5.lemma_extends_transitive(s4, s1);
        s6.lemma_extends_transitive(s5, s1);
        s4.lemma_extends_transitive(s3, s2);
        s5.lemma_extends_transitive(s4, s2);
        s6.lemma_extends_transitive(s5, s2);
        s5.lemma_extends_transitive(s4, s3);
        s6.lemma_extends_transitive(s5, s3);
        s6.lemma_extends_transitive(s5, s4);
    }
    let i32t = Type::Int(Int::I32);
    let u32t = Type::Int(Int::U32);
    let usize = Type::Int(Int::USize);
    let isize = Type::Int(Int::ISize);
    let r = if same_text(name, "statx") {
        let inputs: Vec<Type> = vec![i32t, i8_ptr, i32t, u32t, void_ptr];
        assert(inputs@ =~= seq![i32t, i8_ptr, i32t, u32t, void_ptr]);
        store.helper("statx", inputs, i32t)
    } else if same_text(name, "getrandom") {
        let inputs: Vec<Type> = vec![i8_ptr, usize, u32t];
        assert(inputs@ =~= seq![i8_ptr, usize, u32t]);
        store.helper("getrandom", inputs, usize)
    } else if same_text(name, "posix_spawn") {
        let inputs: Vec<Type> = vec![i8_ptr, i8_ptr, i8_ptr, i8_ptr, i8_ptr, i8_ptr];
        assert(inputs@ =~= seq![i8_ptr, i8_ptr, i8_ptr, i8_ptr, i8_ptr, i8_ptr]);
        store.helper("posix_spawn", inputs, i32t)
    } else if same_text(name, "posix_spawn_file_actions_addchdir_np") {
        let inputs: Vec<Type> = vec![i8_ptr, i8_ptr];
        assert(inputs@ =~= seq![i8_ptr, i8_ptr]);
        store.helper("posix_spawn_file_actions_addchdir_np", inputs, i32t)
    } else if same_text(name, "__dso_handle") {
        let inputs: Vec<Type> = Vec::new();
        assert(inputs@ =~= Seq::<Type>::empty());
        store.helper("__dso_handle", inputs, Type::Void)
    } else if same_text(name, "__cxa_thread_atexit_impl") {
        let inputs: Vec<Type> = vec![dtor, void_ptr, void_ptr];
        assert(inputs@ =~= seq![dtor, void_ptr, void_ptr]);
        store.helper("__cxa_thread_atexit_impl", inputs, Type::Void)
    } else if same_text(name, "copy_file_range") {
        let inputs: Vec<Type> = vec![i32t, i64_ptr, i32t, i64_ptr, isize, u32t];
        assert(inputs@ =~= seq![i32t, i64_ptr, i32t, i64_ptr, isize, u32t]);
        store.helper("copy_file_range", inputs, isize)
    } else if same_text(name, "pidfd_spawnp") {
        let inputs: Vec<Type> = vec![i32_ptr, i8_ptr, void_ptr, void_ptr, i8_ptr_ptr, i8_ptr_ptr];
        assert(inputs@ =~= seq![i32_ptr, i8_ptr, void_ptr, void_ptr, i8_ptr_ptr, i8_ptr_ptr]);
        store.helper("pidfd_spawnp", inputs, i32t)
    } else {
        let inputs: Vec<Type> = vec![i32t];
        assert(inputs@ =~= seq![i32t]);
        store.helper("pidfd_getpid", inputs, i32t)
    };
    proof {
        store@.lemma_extends_transitive(s6, s0);
        store@.lemma_extends_transitive(s6, s1);
        store@.lemma_extends_transitive(s6, s2);
        store@.lemma_extends_transitive(s6, s3);
        store@.lemma_extends_transitive(s6, s4);
        store@.lemma_extends_transitive(s6, s5);
        let sig = static_fn_sig(name@, i8_ptr, i64_ptr, i32_ptr, void_ptr, i8_ptr_ptr, dtor);
        assert(sig is Some);
        assert(store@.is_ptr_to(i8_ptr, Type::Int(Int::I8)));
        assert(store@.is_ptr_to(i64_ptr, Type::Int(Int::I64)));
        assert(store@.is_ptr_to(i32_ptr, Type::Int(Int::I32)));
        assert(store@.is_ptr_to(void_ptr, Type::Void));
        assert(store@.is_ptr_to(i8_ptr_ptr, i8_ptr));
        assert(store@.sigs[dtor_sig.index()] == (crate::fn_sig::FnSigView {
            inputs: seq![void_ptr],
            output: Type::Void,
        }));
        let pair = sig->0;
        assert(store@.is_helper(r, name@, pair.0, pair.1));
    }
    r
}

/// The sixteen bytes of the scalar that can stand for a constant held in
/// memory, if one can: the constant is aligned to at most eight bytes, has
/// at most sixteen bytes and holds no pointer. The bytes of the scalar are
/// those of the constant, followed by zeros.
pub open spec fn scalar_bytes_spec(align: u64, bytes: Seq<u8>, has_pointers: bool) -> Option<
    Seq<u8>,
> {
    if align <= 8 && bytes.len() <= 16 && !has_pointers {
        Some(Seq::new(16, |i: int| if i < bytes.len() { bytes[i] } else { 0u8 }))
    } else {
        None
    }
}

/// The sixteen bytes of the scalar that can stand for the constant with
/// the given alignment and bytes, if one can.
pub fn scalar_bytes(align: u64, bytes: Vec<u8>, has_pointers: bool) -> (r: Option<Vec<u8>>)
    ensures
        r is Some <==> scalar_bytes_spec(align, bytes@, has_pointers) is Some,
        r matches Some(padded) ==> Some(padded@) == scalar_bytes_spec(align, bytes@, has_pointers),
{
    if align > 8 || bytes.len() > 16 || has_pointers {
        return None;
    }
    let ghost given = bytes@;
    let mut bytes = bytes;
    while bytes.len() < 16
        invariant
            given.len() <= bytes@.len() <= 16,
            forall|i: int| 0 <= i < given.len() ==> bytes@[i] == given[i],
            forall|i: int| given.len() <= i < bytes@.len() ==> bytes@[i] == 0u8,
        decreases 16 - bytes@.len(),
    {
        bytes.push(0u8);
    }
    assert(bytes@ =~= scalar_bytes_spec(align, given, has_pointers)->0);
    Some(bytes)
}

} // verus!
