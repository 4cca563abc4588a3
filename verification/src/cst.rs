use crate::bimap::Internable;
use crate::class_ref::ClassRef;
use crate::hashing::{mix, mix_spec};
use crate::interned::Interned;
use crate::tpe::{Float, Int, Type};
use vstd::prelude::*;

verus! {

/// A constant of the intermediate representation. A floating-point constant is
/// held by its bit pattern, so that constants compare and hash bit for bit.
#[derive(Debug, Clone, Copy, PartialEq, Eq, Hash)]
pub enum Const {
    I8(i8),
    I16(i16),
    I32(i32),
    I64(i64),
    I128(i128),
    ISize(i64),
    U8(u8),
    U16(u16),
    U32(u32),
    U64(u64),
    U128(u128),
    USize(u64),
    /// A string of the target platform.
    PlatformString(Interned<String>),
    Bool(bool),
    /// The bits of a 32-bit floating-point number.
    F32(u32),
    /// The bits of a 64-bit floating-point number.
    F64(u64),
    /// The null reference of a class.
    Null(Interned<ClassRef>),
}

impl View for Const {
    type V = Const;

    open spec fn view(&self) -> Const {
        *self
    }
}

impl Const {
    /// The type of the constant.
    pub open spec fn tpe_spec(self) -> Type {
        match self {
            Const::I8(_) => Type::Int(Int::I8),
            Const::I16(_) => Type::Int(Int::I16),
            Const::I32(_) => Type::Int(Int::I32),
            Const::I64(_) => Type::Int(Int::I64),
            Const::I128(_) => Type::Int(Int::I128),
            Const::ISize(_) => Type::Int(Int::ISize),
            Const::U8(_) => Type::Int(Int::U8),
            Const::U16(_) => Type::Int(Int::U16),
            Const::U32(_) => Type::Int(Int::U32),
            Const::U64(_) => Type::Int(Int::U64),
            Const::U128(_) => Type::Int(Int::U128),
            Const::USize(_) => Type::Int(Int::USize),
            Const::PlatformString(_) => Type::PlatformString,
            Const::Bool(_) => Type::Bool,
            Const::F32(_) => Type::Float(Float::F32),
            Const::F64(_) => Type::Float(Float::F64),
            Const::Null(c) => Type::ClassRef(c),
        }
    }

    pub fn tpe(&self) -> (r: Type)
        ensures
            r == self.tpe_spec(),
    {
        match self {
            Const::I8(_) => Type::Int(Int::I8),
            Const::I16(_) => Type::Int(Int::I16),
            Const::I32(_) => Type::Int(Int::I32),
            Const::I64(_) => Type::Int(Int::I64),
            Const::I128(_) => Type::Int(Int::I128),
            Const::ISize(_) => Type::Int(Int::ISize),
            Const::U8(_) => Type::Int(Int::U8),
            Const::U16(_) => Type::Int(Int::U16),
            Const::U32(_) => Type::Int(Int::U32),
            Const::U64(_) => Type::Int(Int::U64),
            Const::U128(_) => Type::Int(Int::U128),
            Const::USize(_) => Type::Int(Int::USize),
            Const::PlatformString(_) => Type::PlatformString,
            Const::Bool(_) => Type::Bool,
            Const::F32(_) => Type::Float(Float::F32),
            Const::F64(_) => Type::Float(Float::F64),
            Const::Null(c) => Type::ClassRef(*c),
        }
    }

    pub closed spec fn code_spec(self) -> u64 {
        match self {
            Const::I8(x) => mix_spec(1, x as u64),
            Const::I16(x) => mix_spec(2, x as u64),
            Const::I32(x) => mix_spec(3, x as u64),
            Const::I64(x) => mix_spec(4, x as u64),
            Const::I128(x) => mix_spec(5, x as u64),
            Const::ISize(x) => mix_spec(6, x as u64),
            Const::U8(x) => mix_spec(7, x as u64),
            Const::U16(x) => mix_spec(8, x as u64),
            Const::U32(x) => mix_spec(9, x as u64),
            Const::U64(x) => mix_spec(10, x as u64),
            Const::U128(x) => mix_spec(11, x as u64),
            Const::USize(x) => mix_spec(12, x as u64),
            Const::PlatformString(s) => mix_spec(13, s.idx),
            Const::Bool(b) => mix_spec(14, if b { 1 } else { 0 }),
            Const::F32(x) => mix_spec(15, x as u64),
            Const::F64(x) => mix_spec(16, x),
            Const::Null(c) => mix_spec(17, c.idx),
        }
    }

    /// A hash of the constant.
    pub fn code(&self) -> (r: u64)
        ensures
            r == self.code_spec(),
    {
        match self {
            Const::I8(x) => mix(1, *x as u64),
            Const::I16(x) => mix(2, *x as u64),
            Const::I32(x) => mix(3, *x as u64),
            Const::I64(x) => mix(4, *x as u64),
            Const::I128(x) => mix(5, *x as u64),
            Const::ISize(x) => mix(6, *x as u64),
            Const::U8(x) => mix(7, *x as u64),
            Const::U16(x) => mix(8, *x as u64),
            Const::U32(x) => mix(9, *x as u64),
            Const::U64(x) => mix(10, *x as u64),
            Const::U128(x) => mix(11, *x as u64),
            Const::USize(x) => mix(12, *x as u64),
            Const::PlatformString(s) => mix(13, s.idx),
            Const::Bool(b) => mix(14, if *b { 1 } else { 0 }),
            Const::F32(x) => mix(15, *x as u64),
            Const::F64(x) => mix(16, *x),
            Const::Null(c) => mix(17, c.idx),
        }
    }

    /// Whether two constants are equal.
    pub fn is(&self, other: &Const) -> (r: bool)
        ensures
            r == (*self == *other),
    {
        match (self, other) {
            (Const::I8(a), Const::I8(b)) => *a == *b,
            (Const::I16(a), Const::I16(b)) => *a == *b,
            (Const::I32(a), Const::I32(b)) => *a == *b,
            (Const::I64(a), Const::I64(b)) => *a == *b,
            (Const::I128(a), Const::I128(b)) => *a == *b,
            (Const::ISize(a), Const::ISize(b)) => *a == *b,
            (Const::U8(a), Const::U8(b)) => *a == *b,
            (Const::U16(a), Const::U16(b)) => *a == *b,
            (Const::U32(a), Const::U32(b)) => *a == *b,
            (Const::U64(a), Const::U64(b)) => *a == *b,
            (Const::U128(a), Const::U128(b)) => *a == *b,
            (Const::USize(a), Const::USize(b)) => *a == *b,
            (Const::PlatformString(a), Const::PlatformString(b)) => a.is(b),
            (Const::Bool(a), Const::Bool(b)) => *a == *b,
            (Const::F32(a), Const::F32(b)) => *a == *b,
            (Const::F64(a), Const::F64(b)) => *a == *b,
            (Const::Null(a), Const::Null(b)) => a.is(b),
            _ => false,
        }
    }
}

} // verus!
