use crate::bimap::Internable;
use crate::class_ref::ClassRef;
use crate::fn_sig::FnSig;
use crate::hashing::{fold_spec, mix, mix_spec};
use crate::interned::Interned;
use vstd::prelude::*;

verus! {

/// An integer type of the target.
#[derive(Debug, Clone, Copy, PartialEq, Eq, Hash, Structural)]
pub enum Int {
    U8,
    U16,
    U32,
    U64,
    U128,
    USize,
    I8,
    I16,
    I32,
    I64,
    I128,
    ISize,
}

impl Int {
    /// The short name of the type, as it appears in the names of runtime helpers.
    pub open spec fn name_spec(self) -> Seq<char> {
        match self {
            Int::U8 => "u8"@,
            Int::U16 => "u16"@,
            Int::U32 => "u32"@,
            Int::U64 => "u64"@,
            Int::U128 => "u128"@,
            Int::USize => "usize"@,
            Int::I8 => "i8"@,
            Int::I16 => "i16"@,
            Int::I32 => "i32"@,
            Int::I64 => "i64"@,
            Int::I128 => "i128"@,
            Int::ISize => "isize"@,
        }
    }

    pub fn name(&self) -> (r: &'static str)
        ensures
            r@ == self.name_spec(),
    {
        match self {
            Int::U8 => "u8",
            Int::U16 => "u16",
            Int::U32 => "u32",
            Int::U64 => "u64",
            Int::U128 => "u128",
            Int::USize => "usize",
            Int::I8 => "i8",
            Int::I16 => "i16",
            Int::I32 => "i32",
            Int::I64 => "i64",
            Int::I128 => "i128",
            Int::ISize => "isize",
        }
    }

    pub open spec fn is_signed_spec(&self) -> bool {
        *self is I8 || *self is I16 || *self is I32 || *self is I64 || *self is I128 || *self is ISize
    }

    /// Whether values of the type carry a sign.
    #[verifier::when_used_as_spec(is_signed_spec)]
    pub fn is_signed(&self) -> (r: bool)
        ensures
            r == self.is_signed_spec(),
    {
        match self {
            Int::I8 | Int::I16 | Int::I32 | Int::I64 | Int::I128 | Int::ISize => true,
            _ => false,
        }
    }

    pub open spec fn is_wide_spec(&self) -> bool {
        *self is U128 || *self is I128
    }

    /// Whether the type is 128 bits wide.
    #[verifier::when_used_as_spec(is_wide_spec)]
    pub fn is_wide(&self) -> (r: bool)
        ensures
            r == self.is_wide_spec(),
    {
        match self {
            Int::U128 | Int::I128 => true,
            _ => false,
        }
    }

    /// The width of the type in bits. The pointer-sized types count as 64 bits wide.
    pub open spec fn bits_spec(self) -> nat {
        match self {
            Int::U8 | Int::I8 => 8,
            Int::U16 | Int::I16 => 16,
            Int::U32 | Int::I32 => 32,
            Int::U64 | Int::I64 | Int::USize | Int::ISize => 64,
            Int::U128 | Int::I128 => 128,
        }
    }

    pub fn bits(&self) -> (r: u32)
        ensures
            r == self.bits_spec(),
    {
        match self {
            Int::U8 | Int::I8 => 8,
            Int::U16 | Int::I16 => 16,
            Int::U32 | Int::I32 => 32,
            Int::U64 | Int::I64 | Int::USize | Int::ISize => 64,
            Int::U128 | Int::I128 => 128,
        }
    }

    pub closed spec fn code_spec(self) -> u64 {
        match self {
            Int::U8 => 1,
            Int::U16 => 2,
            Int::U32 => 3,
            Int::U64 => 4,
            Int::U128 => 5,
            Int::USize => 6,
            Int::I8 => 7,
            Int::I16 => 8,
            Int::I32 => 9,
            Int::I64 => 10,
            Int::I128 => 11,
            Int::ISize => 12,
        }
    }

    /// A number that tells the integer types apart, for hashing.
    pub fn code(&self) -> (r: u64)
        ensures
            r == self.code_spec(),
    {
        match self {
            Int::U8 => 1,
            Int::U16 => 2,
            Int::U32 => 3,
            Int::U64 => 4,
            Int::U128 => 5,
            Int::USize => 6,
            Int::I8 => 7,
            Int::I16 => 8,
            Int::I32 => 9,
            Int::I64 => 10,
            Int::I128 => 11,
            Int::ISize => 12,
        }
    }
}

/// A floating-point type of the target.
#[derive(Debug, Clone, Copy, PartialEq, Eq, Hash, Structural)]
pub enum Float {
    F16,
    F32,
    F64,
    F128,
}

impl Float {
    pub closed spec fn code_spec(self) -> u64 {
        match self {
            Float::F16 => 1,
            Float::F32 => 2,
            Float::F64 => 3,
            Float::F128 => 4,
        }
    }

    /// A number that tells the floating-point types apart, for hashing.
    pub fn code(&self) -> (r: u64)
        ensures
            r == self.code_spec(),
    {
        match self {
            Float::F16 => 1,
            Float::F32 => 2,
            Float::F64 => 3,
            Float::F128 => 4,
        }
    }
}

/// A type of the target. Types that are built from other types refer to them
/// by handle.
#[derive(Debug, Clone, Copy, PartialEq, Eq, Hash)]
pub enum Type {
    /// An unmanaged pointer.
    Ptr(Interned<Type>),
    /// A managed reference.
    Ref(Interned<Type>),
    Int(Int),
    ClassRef(Interned<ClassRef>),
    Float(Float),
    PlatformString,
    PlatformChar,
    PlatformObject,
    Bool,
    Void,
    /// A pointer to a function of the given signature.
    FnPtr(Interned<FnSig>),
}

impl View for Type {
    type V = Type;

    open spec fn view(&self) -> Type {
        *self
    }
}

impl Type {
    /// Whether a pointer cast may have this type as its target: a pointer, a
    /// reference, a function pointer or a pointer-sized integer.
    pub open spec fn is_pointer_like_spec(&self) -> bool {
        *self is Ptr || *self is Ref || *self is FnPtr || *self == Type::Int(Int::USize) || *self
            == Type::Int(Int::ISize)
    }

    #[verifier::when_used_as_spec(is_pointer_like_spec)]
    pub fn is_pointer_like(&self) -> (r: bool)
        ensures
            r == self.is_pointer_like_spec(),
    {
        match self {
            Type::Ptr(_) | Type::Ref(_) | Type::FnPtr(_) => true,
            Type::Int(Int::USize) | Type::Int(Int::ISize) => true,
            _ => false,
        }
    }

    /// The class that the type names, if it names one.
    pub fn as_class_ref(&self) -> (r: Option<Interned<ClassRef>>)
        ensures
            r == (match *self {
                Type::ClassRef(c) => Some(c),
                _ => None,
            }),
    {
        match self {
            Type::ClassRef(c) => Some(*c),
            _ => None,
        }
    }

    /// The type that a pointer or reference type points to.
    pub fn pointed_to(&self) -> (r: Option<Interned<Type>>)
        ensures
            r == (match *self {
                Type::Ptr(t) | Type::Ref(t) => Some(t),
                _ => None,
            }),
    {
        match self {
            Type::Ptr(t) | Type::Ref(t) => Some(*t),
            _ => None,
        }
    }

    pub closed spec fn code_spec(self) -> u64 {
        match self {
            Type::Ptr(t) => mix_spec(1, t.idx),
            Type::Ref(t) => mix_spec(2, t.idx),
            Type::Int(i) => mix_spec(3, i.code_spec()),
            Type::ClassRef(c) => mix_spec(4, c.idx),
            Type::Float(f) => mix_spec(5, f.code_spec()),
            Type::PlatformString => 6,
            Type::PlatformChar => 7,
            Type::PlatformObject => 8,
            Type::Bool => 9,
            Type::Void => 10,
            Type::FnPtr(s) => mix_spec(11, s.idx),
        }
    }

    /// A hash of the type.
    pub fn code(&self) -> (r: u64)
        ensures
            r == self.code_spec(),
    {
        match self {
            Type::Ptr(t) => mix(1, t.idx),
            Type::Ref(t) => mix(2, t.idx),
            Type::Int(i) => mix(3, i.code()),
            Type::ClassRef(c) => mix(4, c.idx),
            Type::Float(f) => mix(5, f.code()),
            Type::PlatformString => 6,
            Type::PlatformChar => 7,
            Type::PlatformObject => 8,
            Type::Bool => 9,
            Type::Void => 10,
            Type::FnPtr(s) => mix(11, s.idx),
        }
    }

    /// Whether two types are equal.
    pub fn is(&self, other: &Type) -> (r: bool)
        ensures
            r == (*self == *other),
    {
        match (self, other) {
            (Type::Ptr(a), Type::Ptr(b)) => a.is(b),
            (Type::Ref(a), Type::Ref(b)) => a.is(b),
            (Type::Int(a), Type::Int(b)) => *a == *b,
            (Type::ClassRef(a), Type::ClassRef(b)) => a.is(b),
            (Type::Float(a), Type::Float(b)) => *a == *b,
            (Type::PlatformString, Type::PlatformString) => true,
            (Type::PlatformChar, Type::PlatformChar) => true,
            (Type::PlatformObject, Type::PlatformObject) => true,
            (Type::Bool, Type::Bool) => true,
            (Type::Void, Type::Void) => true,
            (Type::FnPtr(a), Type::FnPtr(b)) => a.is(b),
            _ => false,
        }
    }
}

impl Internable for Type {
    open spec fn hash_spec(v: Type) -> u64 {
        v.code_spec()
    }

    fn hash_code(&self) -> (h: u64) {
        self.code()
    }

    fn same(&self, other: &Self) -> (b: bool) {
        self.is(other)
    }

    fn duplicate(&self) -> (r: Self) {
        *self
    }
}

/// The hash of a list of types.
pub open spec fn types_code_spec(types: Seq<Type>) -> u64 {
    fold_spec(types.map_values(|t: Type| t.code_spec()))
}

pub fn types_code(types: &Vec<Type>) -> (r: u64)
    ensures
        r == types_code_spec(types@),
{
    let ghost words = types@.map_values(|t: Type| t.code_spec());
    let mut acc: u64 = 0xcbf2_9ce4_8422_2325;
    let mut i: usize = 0;
    while i < types.len()
        invariant
            i <= types@.len(),
            words == types@.map_values(|t: Type| t.code_spec()),
            acc == fold_spec(words.take(i as int)),
        decreases types@.len() - i,
    {
        proof {
            assert(words.take(i as int + 1).drop_last() =~= words.take(i as int));
        }
        acc = mix(acc, types[i].code());
        i += 1;
    }
    proof {
        assert(words.take(i as int) =~= words);
    }
    acc
}

/// Whether two lists hold the same types in the same order.
pub fn same_types(a: &Vec<Type>, b: &Vec<Type>) -> (r: bool)
    ensures
        r == (a@ == b@),
{
    if a.len() != b.len() {
        return false;
    }
    let mut i: usize = 0;
    while i < a.len()
        invariant
            i <= a@.len(),
            a@.len() == b@.len(),
            forall|k: int| 0 <= k < i ==> a@[k] == b@[k],
        decreases a@.len() - i,
    {
        if !a[i].is(&b[i]) {
            return false;
        }
        i += 1;
    }
    assert(a@ =~= b@);
    true
}

/// A copy of a list of types.
pub fn copy_types(types: &Vec<Type>) -> (r: Vec<Type>)
    ensures
        r@ == types@,
{
    let mut out: Vec<Type> = Vec::new();
    let mut i: usize = 0;
    while i < types.len()
        invariant
            i <= types@.len(),
            out@ == types@.take(i as int),
        decreases types@.len() - i,
    {
        out.push(types[i]);
        proof {
            assert(types@.take(i as int + 1) =~= types@.take(i as int).push(types@[i as int]));
        }
        i += 1;
    }
    proof {
        assert(types@.take(i as int) =~= types@);
    }
    out
}

} // verus!
