use crate::bimap::Internable;
use crate::cst::Const;
use crate::expr::{AssemblyView, Expr};
use crate::field_desc::{FieldDesc, StaticFieldDesc};
use crate::fn_sig::FnSig;
use crate::hashing::{fold_spec, mix, mix_spec};
use crate::interned::Interned;
use crate::method_ref::MethodRef;
use crate::tpe::{Float, Int, Type};
use vstd::prelude::*;

verus! {

/// Whether a call is free of side effects. A pure call may be reordered or
/// removed by later passes; a call is not pure unless it is marked so.
#[derive(Debug, Clone, Copy, PartialEq, Eq, Hash, Structural)]
pub struct IsPure(pub bool);

impl IsPure {
    /// The mark of a call that may have side effects.
    pub fn not() -> (r: Self)
        ensures
            r == IsPure(false),
    {
        IsPure(false)
    }

    /// The mark of a call without side effects.
    pub fn pure() -> (r: Self)
        ensures
            r == IsPure(true),
    {
        IsPure(true)
    }
}

/// The target of a pointer cast: exactly one of a typed pointer, a typed
/// reference, a function pointer, or a pointer-sized integer.
#[derive(Debug, Clone, Copy, PartialEq, Eq, Hash)]
pub enum PtrCastRes {
    Ptr(Interned<Type>),
    Ref(Interned<Type>),
    FnPtr(Interned<FnSig>),
    USize,
    ISize,
}

impl PtrCastRes {
    pub open spec fn as_type_spec(self) -> Type {
        match self {
            PtrCastRes::Ptr(t) => Type::Ptr(t),
            PtrCastRes::Ref(t) => Type::Ref(t),
            PtrCastRes::FnPtr(s) => Type::FnPtr(s),
            PtrCastRes::USize => Type::Int(Int::USize),
            PtrCastRes::ISize => Type::Int(Int::ISize),
        }
    }

    /// The type that the cast results in.
    pub fn as_type(&self) -> (r: Type)
        ensures
            r == self.as_type_spec(),
            r.is_pointer_like(),
    {
        match self {
            PtrCastRes::Ptr(t) => Type::Ptr(*t),
            PtrCastRes::Ref(t) => Type::Ref(*t),
            PtrCastRes::FnPtr(s) => Type::FnPtr(*s),
            PtrCastRes::USize => Type::Int(Int::USize),
            PtrCastRes::ISize => Type::Int(Int::ISize),
        }
    }

    /// The cast target that results in `tpe`, for the pointer-like types.
    pub open spec fn of_type_spec(tpe: Type) -> Option<PtrCastRes> {
        match tpe {
            Type::Int(Int::USize) => Some(PtrCastRes::USize),
            Type::Int(Int::ISize) => Some(PtrCastRes::ISize),
            Type::Ptr(t) => Some(PtrCastRes::Ptr(t)),
            Type::Ref(t) => Some(PtrCastRes::Ref(t)),
            Type::FnPtr(s) => Some(PtrCastRes::FnPtr(s)),
            _ => None,
        }
    }

    pub fn of_type(tpe: &Type) -> (r: Option<PtrCastRes>)
        ensures
            r == Self::of_type_spec(*tpe),
            r is Some <==> tpe.is_pointer_like(),
            r is Some ==> r->0.as_type_spec() == *tpe,
    {
        match tpe {
            Type::Int(Int::USize) => Some(PtrCastRes::USize),
            Type::Int(Int::ISize) => Some(PtrCastRes::ISize),
            Type::Ptr(t) => Some(PtrCastRes::Ptr(*t)),
            Type::Ref(t) => Some(PtrCastRes::Ref(*t)),
            Type::FnPtr(s) => Some(PtrCastRes::FnPtr(*s)),
            _ => None,
        }
    }

    pub closed spec fn code_spec(self) -> u64 {
        match self {
            PtrCastRes::Ptr(t) => mix_spec(1, t.idx),
            PtrCastRes::Ref(t) => mix_spec(2, t.idx),
            PtrCastRes::FnPtr(s) => mix_spec(3, s.idx),
            PtrCastRes::USize => 4,
            PtrCastRes::ISize => 5,
        }
    }

    /// A hash of the cast target.
    pub fn code(&self) -> (r: u64)
        ensures
            r == self.code_spec(),
    {
        match self {
            PtrCastRes::Ptr(t) => mix(1, t.idx),
            PtrCastRes::Ref(t) => mix(2, t.idx),
            PtrCastRes::FnPtr(s) => mix(3, s.idx),
            PtrCastRes::USize => 4,
            PtrCastRes::ISize => 5,
        }
    }

    /// Whether two cast targets are equal.
    pub fn is(&self, other: &PtrCastRes) -> (r: bool)
        ensures
            r == (*self == *other),
    {
        match (self, other) {
            (PtrCastRes::Ptr(a), PtrCastRes::Ptr(b)) => a.is(b),
            (PtrCastRes::Ref(a), PtrCastRes::Ref(b)) => a.is(b),
            (PtrCastRes::FnPtr(a), PtrCastRes::FnPtr(b)) => a.is(b),
            (PtrCastRes::USize, PtrCastRes::USize) => true,
            (PtrCastRes::ISize, PtrCastRes::ISize) => true,
            _ => false,
        }
    }
}

/// How an integer cast fills the bits that the source does not have.
#[derive(Debug, Clone, Copy, PartialEq, Eq, Hash, Structural)]
pub enum ExtendKind {
    ZeroExtend,
    SignExtend,
}

/// What kind of method a method reference names.
#[derive(Debug, Clone, Copy, PartialEq, Eq, Hash, Structural)]
pub enum MethodKind {
    Static,
    Instance,
    Virtual,
    Constructor,
}

impl MethodKind {
    pub closed spec fn code_spec(self) -> u64 {
        match self {
            MethodKind::Static => 1,
            MethodKind::Instance => 2,
            MethodKind::Virtual => 3,
            MethodKind::Constructor => 4,
        }
    }

    /// A number that tells the kinds apart, for hashing.
    pub fn code(&self) -> (r: u64)
        ensures
            r == self.code_spec(),
    {
        match self {
            MethodKind::Static => 1,
            MethodKind::Instance => 2,
            MethodKind::Virtual => 3,
            MethodKind::Constructor => 4,
        }
    }
}

/// A unary operation.
#[derive(Debug, Clone, Copy, PartialEq, Eq, Hash, Structural)]
pub enum UnOp {
    Not,
    Neg,
}

/// A binary operation. Where an operation reads its operands as signed or as
/// unsigned numbers, the two readings are two operations; on floating-point
/// operands the unsigned comparisons are the unordered ones.
#[derive(Debug, Clone, Copy, PartialEq, Eq, Hash, Structural)]
pub enum BinOp {
    Add,
    Eq,
    Sub,
    Mul,
    LtUn,
    Lt,
    GtUn,
    Gt,
    Or,
    XOr,
    And,
    Rem,
    RemUn,
    Shl,
    Shr,
    ShrUn,
    DivUn,
    Div,
}

impl BinOp {
    /// The operation that reads its operands as signed numbers: the
    /// operation itself, unless it is the unsigned one of a pair.
    pub open spec fn signed_spec(self) -> BinOp {
        match self {
            BinOp::LtUn => BinOp::Lt,
            BinOp::GtUn => BinOp::Gt,
            BinOp::RemUn => BinOp::Rem,
            BinOp::ShrUn => BinOp::Shr,
            BinOp::DivUn => BinOp::Div,
            _ => self,
        }
    }

    pub fn signed(&self) -> (r: BinOp)
        ensures
            r == self.signed_spec(),
    {
        match self {
            BinOp::LtUn => BinOp::Lt,
            BinOp::GtUn => BinOp::Gt,
            BinOp::RemUn => BinOp::Rem,
            BinOp::ShrUn => BinOp::Shr,
            BinOp::DivUn => BinOp::Div,
            _ => *self,
        }
    }

    pub open spec fn name_spec(self) -> Seq<char> {
        match self {
            BinOp::Add => "add"@,
            BinOp::Eq => "eq"@,
            BinOp::Sub => "sub"@,
            BinOp::Mul => "mul"@,
            BinOp::LtUn => "lt"@,
            BinOp::Lt => "lt"@,
            BinOp::GtUn => "gt"@,
            BinOp::Gt => "gt"@,
            BinOp::Or => "or"@,
            BinOp::XOr => "xor"@,
            BinOp::And => "and"@,
            BinOp::Rem => "mod"@,
            BinOp::RemUn => "mod"@,
            BinOp::Shl => "shl"@,
            BinOp::Shr => "shr"@,
            BinOp::ShrUn => "shr"@,
            BinOp::DivUn => "div"@,
            BinOp::Div => "div"@,
        }
    }

    /// A short name of the operation. The signed and the unsigned operation
    /// of a pair have the same name.
    pub fn name(&self) -> (r: &'static str)
        ensures
            r@ == self.name_spec(),
    {
        match self {
            BinOp::Add => "add",
            BinOp::Eq => "eq",
            BinOp::Sub => "sub",
            BinOp::Mul => "mul",
            BinOp::LtUn => "lt",
            BinOp::Lt => "lt",
            BinOp::GtUn => "gt",
            BinOp::Gt => "gt",
            BinOp::Or => "or",
            BinOp::XOr => "xor",
            BinOp::And => "and",
            BinOp::Rem => "mod",
            BinOp::RemUn => "mod",
            BinOp::Shl => "shl",
            BinOp::Shr => "shr",
            BinOp::ShrUn => "shr",
            BinOp::DivUn => "div",
            BinOp::Div => "div",
        }
    }

    pub open spec fn dotnet_name_spec(self) -> Seq<char> {
        match self {
            BinOp::Add => "op_Addition"@,
            BinOp::Eq => "op_Equality"@,
            BinOp::Sub => "op_Subtraction"@,
            BinOp::Mul => "op_Multiply"@,
            BinOp::LtUn => "op_LessThan"@,
            BinOp::Lt => "op_LessThan"@,
            BinOp::GtUn => "op_GreaterThan"@,
            BinOp::Gt => "op_GreaterThan"@,
            BinOp::Or => "op_BitwiseOr"@,
            BinOp::XOr => "op_ExclusiveOr"@,
            BinOp::And => "op_BitwiseAnd"@,
            BinOp::Rem => "op_Modulus"@,
            BinOp::RemUn => "op_Modulus"@,
            BinOp::Shl => "op_LeftShift"@,
            BinOp::Shr => "op_RightShift"@,
            BinOp::ShrUn => "op_RightShift"@,
            BinOp::DivUn => "op_Division"@,
            BinOp::Div => "op_Division"@,
        }
    }

    /// The name of the operator method of the platform that stands for the
    /// operation. The signed and the unsigned operation of a pair have the
    /// same name.
    pub fn dotnet_name(&self) -> (r: &'static str)
        ensures
            r@ == self.dotnet_name_spec(),
    {
        match self {
            BinOp::Add => "op_Addition",
            BinOp::Eq => "op_Equality",
            BinOp::Sub => "op_Subtraction",
            BinOp::Mul => "op_Multiply",
            BinOp::LtUn => "op_LessThan",
            BinOp::Lt => "op_LessThan",
            BinOp::GtUn => "op_GreaterThan",
            BinOp::Gt => "op_GreaterThan",
            BinOp::Or => "op_BitwiseOr",
            BinOp::XOr => "op_ExclusiveOr",
            BinOp::And => "op_BitwiseAnd",
            BinOp::Rem => "op_Modulus",
            BinOp::RemUn => "op_Modulus",
            BinOp::Shl => "op_LeftShift",
            BinOp::Shr => "op_RightShift",
            BinOp::ShrUn => "op_RightShift",
            BinOp::DivUn => "op_Division",
            BinOp::Div => "op_Division",
        }
    }

    /// The names of an operation do not tell the signed from the unsigned
    /// operation of a pair.
    pub proof fn lemma_names_ignore_signedness(self)
        ensures
            self.name_spec() == self.signed_spec().name_spec(),
            self.dotnet_name_spec() == self.signed_spec().dotnet_name_spec(),
    {
    }

    pub closed spec fn code_spec(self) -> u64 {
        match self {
            BinOp::Add => 1,
            BinOp::Eq => 2,
            BinOp::Sub => 3,
            BinOp::Mul => 4,
            BinOp::LtUn => 5,
            BinOp::Lt => 6,
            BinOp::GtUn => 7,
            BinOp::Gt => 8,
            BinOp::Or => 9,
            BinOp::XOr => 10,
            BinOp::And => 11,
            BinOp::Rem => 12,
            BinOp::RemUn => 13,
            BinOp::Shl => 14,
            BinOp::Shr => 15,
            BinOp::ShrUn => 16,
            BinOp::DivUn => 17,
            BinOp::Div => 18,
        }
    }

    /// A number that tells the operations apart, for hashing.
    pub fn code(&self) -> (r: u64)
        ensures
            r == self.code_spec(),
    {
        match self {
            BinOp::Add => 1,
            BinOp::Eq => 2,
            BinOp::Sub => 3,
            BinOp::Mul => 4,
            BinOp::LtUn => 5,
            BinOp::Lt => 6,
            BinOp::GtUn => 7,
            BinOp::Gt => 8,
            BinOp::Or => 9,
            BinOp::XOr => 10,
            BinOp::And => 11,
            BinOp::Rem => 12,
            BinOp::RemUn => 13,
            BinOp::Shl => 14,
            BinOp::Shr => 15,
            BinOp::ShrUn => 16,
            BinOp::DivUn => 17,
            BinOp::Div => 18,
        }
    }
}

/// A node of the graph form. The operands of a node are handles of nodes
/// that the store holds already; types, signatures, fields and methods are
/// handles too.
#[derive(Debug, PartialEq, Eq, Hash)]
pub enum CILNode {
    /// A constant.
    Const(Box<Const>),
    /// A binary operation on two values.
    BinOp(Interned<CILNode>, Interned<CILNode>, BinOp),
    /// A unary operation on a value.
    UnOp(Interned<CILNode>, UnOp),
    /// The value of the local with the given number.
    LdLoc(u32),
    /// A reference to the local with the given number.
    LdLocA(u32),
    /// The value of the argument with the given number.
    LdArg(u32),
    /// A reference to the argument with the given number.
    LdArgA(u32),
    /// A call of a method with the given arguments, in call order.
    Call(Box<(Interned<MethodRef>, Vec<Interned<CILNode>>, IsPure)>),
    /// A cast to an integer type, by sign or zero extension.
    IntCast { input: Interned<CILNode>, target: Int, extend: ExtendKind },
    /// A cast to a floating-point type; `is_signed` tells how the source is read.
    FloatCast { input: Interned<CILNode>, target: Float, is_signed: bool },
    /// A managed reference turned into an unmanaged pointer.
    RefToPtr(Interned<CILNode>),
    /// A pointer reinterpreted as another pointer-like type.
    PtrCast(Interned<CILNode>, Box<PtrCastRes>),
    /// The address of a field of the object at `addr`.
    LdFieldAddress { addr: Interned<CILNode>, field: Interned<FieldDesc> },
    /// The value of a field of the object at `addr`.
    LdField { addr: Interned<CILNode>, field: Interned<FieldDesc> },
    /// A value of type `tpe` loaded from `addr`.
    LdInd { addr: Interned<CILNode>, tpe: Interned<Type>, volatile: bool },
    /// The size of a type.
    SizeOf(Interned<Type>),
    /// The exception being handled.
    GetException,
    /// Whether an object is an instance of a class.
    IsInst(Interned<CILNode>, Interned<Type>),
    /// An object cast to a class; fails at run time if it is no instance of it.
    CheckedCast(Interned<CILNode>, Interned<Type>),
    /// A call through a function pointer of the given signature.
    CallI(Box<(Interned<CILNode>, Interned<FnSig>, Vec<Interned<CILNode>>)>),
    /// Memory of the given size, taken from the frame of the function.
    LocAlloc { size: Interned<CILNode> },
    /// The value of a static field.
    LdStaticField(Interned<StaticFieldDesc>),
    /// The address of a static field.
    LdStaticFieldAddress(Interned<StaticFieldDesc>),
    /// A pointer to a method.
    LdFtn(Interned<MethodRef>),
    /// The run-time token of a type.
    LdTypeToken(Interned<Type>),
    /// The length of a platform array.
    LdLen(Interned<CILNode>),
    /// A buffer in the frame of the function, large enough for `tpe` and aligned to `align`.
    LocAllocAlgined { tpe: Interned<Type>, align: u64 },
    /// The element of a platform array at an index.
    LdElelemRef { array: Interned<CILNode>, index: Interned<CILNode> },
    /// An object reference turned into a value of type `tpe`.
    UnboxAny { object: Interned<CILNode>, tpe: Interned<Type> },
}

/// The mathematical model of a node: the node with its argument lists as
/// sequences.
pub enum NodeView {
    Const(Const),
    BinOp(Interned<CILNode>, Interned<CILNode>, BinOp),
    UnOp(Interned<CILNode>, UnOp),
    LdLoc(u32),
    LdLocA(u32),
    LdArg(u32),
    LdArgA(u32),
    Call { site: Interned<MethodRef>, args: Seq<Interned<CILNode>>, is_pure: IsPure },
    IntCast { input: Interned<CILNode>, target: Int, extend: ExtendKind },
    FloatCast { input: Interned<CILNode>, target: Float, is_signed: bool },
    RefToPtr(Interned<CILNode>),
    PtrCast(Interned<CILNode>, PtrCastRes),
    LdFieldAddress { addr: Interned<CILNode>, field: Interned<FieldDesc> },
    LdField { addr: Interned<CILNode>, field: Interned<FieldDesc> },
    LdInd { addr: Interned<CILNode>, tpe: Interned<Type>, volatile: bool },
    SizeOf(Interned<Type>),
    GetException,
    IsInst(Interned<CILNode>, Interned<Type>),
    CheckedCast(Interned<CILNode>, Interned<Type>),
    CallI { ptr: Interned<CILNode>, sig: Interned<FnSig>, args: Seq<Interned<CILNode>> },
    LocAlloc { size: Interned<CILNode> },
    LdStaticField(Interned<StaticFieldDesc>),
    LdStaticFieldAddress(Interned<StaticFieldDesc>),
    LdFtn(Interned<MethodRef>),
    LdTypeToken(Interned<Type>),
    LdLen(Interned<CILNode>),
    LocAllocAlgined { tpe: Interned<Type>, align: u64 },
    LdElelemRef { array: Interned<CILNode>, index: Interned<CILNode> },
    UnboxAny { object: Interned<CILNode>, tpe: Interned<Type> },
}

impl View for CILNode {
    type V = NodeView;

    open spec fn view(&self) -> NodeView {
        match *self {
            CILNode::Const(c) => NodeView::Const(*c),
            CILNode::BinOp(lhs, rhs, op) => NodeView::BinOp(lhs, rhs, op),
            CILNode::UnOp(val, op) => NodeView::UnOp(val, op),
            CILNode::LdLoc(n) => NodeView::LdLoc(n),
            CILNode::LdLocA(n) => NodeView::LdLocA(n),
            CILNode::LdArg(n) => NodeView::LdArg(n),
            CILNode::LdArgA(n) => NodeView::LdArgA(n),
            CILNode::Call(info) => NodeView::Call { site: info.0, args: info.1@, is_pure: info.2 },
            CILNode::IntCast { input, target, extend } => NodeView::IntCast { input: input, target: target, extend: extend },
            CILNode::FloatCast { input, target, is_signed } => NodeView::FloatCast { input: input, target: target, is_signed: is_signed },
            CILNode::RefToPtr(val) => NodeView::RefToPtr(val),
            CILNode::PtrCast(val, res) => NodeView::PtrCast(val, *res),
            CILNode::LdFieldAddress { addr, field } => NodeView::LdFieldAddress { addr: addr, field: field },
            CILNode::LdField { addr, field } => NodeView::LdField { addr: addr, field: field },
            CILNode::LdInd { addr, tpe, volatile } => NodeView::LdInd { addr: addr, tpe: tpe, volatile: volatile },
            CILNode::SizeOf(tpe) => NodeView::SizeOf(tpe),
            CILNode::GetException => NodeView::GetException,
            CILNode::IsInst(val, tpe) => NodeView::IsInst(val, tpe),
            CILNode::CheckedCast(val, tpe) => NodeView::CheckedCast(val, tpe),
            CILNode::CallI(info) => NodeView::CallI { ptr: info.0, sig: info.1, args: info.2@ },
            CILNode::LocAlloc { size } => NodeView::LocAlloc { size: size },
            CILNode::LdStaticField(field) => NodeView::LdStaticField(field),
            CILNode::LdStaticFieldAddress(field) => NodeView::LdStaticFieldAddress(field),
            CILNode::LdFtn(site) => NodeView::LdFtn(site),
            CILNode::LdTypeToken(tpe) => NodeView::LdTypeToken(tpe),
            CILNode::LdLen(val) => NodeView::LdLen(val),
            CILNode::LocAllocAlgined { tpe, align } => NodeView::LocAllocAlgined { tpe: tpe, align: align },
            CILNode::LdElelemRef { array, index } => NodeView::LdElelemRef { array: array, index: index },
            CILNode::UnboxAny { object, tpe } => NodeView::UnboxAny { object: object, tpe: tpe },
        }
    }
}

/// The hash of a list of node handles.
pub open spec fn handles_code_spec(handles: Seq<Interned<CILNode>>) -> u64 {
    fold_spec(handles.map_values(|h: Interned<CILNode>| h.idx))
}

pub fn handles_code(handles: &Vec<Interned<CILNode>>) -> (r: u64)
    ensures
        r == handles_code_spec(handles@),
{
    let ghost words = handles@.map_values(|h: Interned<CILNode>| h.idx);
    let mut acc: u64 = 0xcbf2_9ce4_8422_2325;
    let mut i: usize = 0;
    while i < handles.len()
        invariant
            i <= handles@.len(),
            words == handles@.map_values(|h: Interned<CILNode>| h.idx),
            acc == fold_spec(words.take(i as int)),
        decreases handles@.len() - i,
    {
        proof {
            assert(words.take(i as int + 1).drop_last() =~= words.take(i as int));
        }
        acc = mix(acc, handles[i].idx);
        i += 1;
    }
    proof {
        assert(words.take(i as int) =~= words);
    }
    acc
}

/// Whether two lists hold the same handles in the same order.
pub fn same_handles(a: &Vec<Interned<CILNode>>, b: &Vec<Interned<CILNode>>) -> (r: bool)
    ensures
        r == (a@ == b@),
{
    if a.len() != b.len() {
        return false;
    }
    let mut i: usize = 0;
    while i < a.len()
        invariant
            i <= a@.len(),
            a@.len() == b@.len(),
            forall|k: int| 0 <= k < i ==> a@[k] == b@[k],
        decreases a@.len() - i,
    {
        if !a[i].is(&b[i]) {
            return false;
        }
        i += 1;
    }
    assert(a@ =~= b@);
    true
}

/// A copy of a list of handles.
pub fn copy_handles(handles: &Vec<Interned<CILNode>>) -> (r: Vec<Interned<CILNode>>)
    ensures
        r@ == handles@,
{
    let mut out: Vec<Interned<CILNode>> = Vec::new();
    let mut i: usize = 0;
    while i < handles.len()
        invariant
            i <= handles@.len(),
            out@ == handles@.take(i as int),
        decreases handles@.len() - i,
    {
        out.push(handles[i]);
        proof {
            assert(handles@.take(i as int + 1) =~= handles@.take(i as int).push(
                handles@[i as int],
            ));
        }
        i += 1;
    }
    proof {
        assert(handles@.take(i as int) =~= handles@);
    }
    out
}

impl NodeView {
    /// The operands of the node, in order.
    pub open spec fn kids(self) -> Seq<Interned<CILNode>> {
        match self {
            NodeView::Const(_) => Seq::empty(),
            NodeView::BinOp(lhs, rhs, _) => seq![lhs, rhs],
            NodeView::UnOp(val, _) => seq![val],
            NodeView::LdLoc(_) => Seq::empty(),
            NodeView::LdLocA(_) => Seq::empty(),
            NodeView::LdArg(_) => Seq::empty(),
            NodeView::LdArgA(_) => Seq::empty(),
            NodeView::Call { args, .. } => args,
            NodeView::IntCast { input, .. } => seq![input],
            NodeView::FloatCast { input, .. } => seq![input],
            NodeView::RefToPtr(val) => seq![val],
            NodeView::PtrCast(val, _) => seq![val],
            NodeView::LdFieldAddress { addr, .. } => seq![addr],
            NodeView::LdField { addr, .. } => seq![addr],
            NodeView::LdInd { addr, .. } => seq![addr],
            NodeView::SizeOf(_) => Seq::empty(),
            NodeView::GetException => Seq::empty(),
            NodeView::IsInst(val, _) => seq![val],
            NodeView::CheckedCast(val, _) => seq![val],
            NodeView::CallI { ptr, args, .. } => seq![ptr] + args,
            NodeView::LocAlloc { size, .. } => seq![size],
            NodeView::LdStaticField(_) => Seq::empty(),
            NodeView::LdStaticFieldAddress(_) => Seq::empty(),
            NodeView::LdFtn(_) => Seq::empty(),
            NodeView::LdTypeToken(_) => Seq::empty(),
            NodeView::LdLen(val) => seq![val],
            NodeView::LocAllocAlgined { .. } => Seq::empty(),
            NodeView::LdElelemRef { array, index, .. } => seq![array, index],
            NodeView::UnboxAny { object, .. } => seq![object],
        }
    }

    /// Whether the handles that the node holds refer to entries of `s`, its
    /// operands to nodes before position `bound`. Handles of fields, methods
    /// and classes are carried through and not looked at.
    pub open spec fn ok_below(self, bound: int, s: AssemblyView) -> bool {
        &&& forall|i: int| 0 <= i < self.kids().len() ==> (#[trigger] self.kids()[i]).index() < bound
        &&& match self {
            NodeView::Const(c) => (c matches Const::PlatformString(t) ==> t.index() < s.strings.len()),
            NodeView::LdInd { tpe, .. } => tpe.index() < s.types.len(),
            NodeView::SizeOf(tpe) => tpe.index() < s.types.len(),
            NodeView::IsInst(_, tpe) => tpe.index() < s.types.len(),
            NodeView::CheckedCast(_, tpe) => tpe.index() < s.types.len(),
            NodeView::CallI { sig, .. } => sig.index() < s.sigs.len(),
            NodeView::LdTypeToken(tpe) => tpe.index() < s.types.len(),
            NodeView::LocAllocAlgined { tpe, .. } => tpe.index() < s.types.len(),
            NodeView::UnboxAny { tpe, .. } => tpe.index() < s.types.len(),
            _ => true,
        }
    }

    /// Whether the node may be interned into `s`: every handle it holds
    /// refers to an entry of `s`.
    pub open spec fn wf_in(self, s: AssemblyView) -> bool {
        self.ok_below(s.nodes.len() as int, s)
    }

    /// The expression that the node stands for, given the expressions `prev`
    /// of the nodes that its operands refer to.
    pub open spec fn build(self, prev: Seq<Expr>, s: AssemblyView) -> Expr {
        match self {
            NodeView::Const(c) => match c {
                Const::PlatformString(t) => Expr::Str(s.strings[t.index()]),
                _ => Expr::Const(c),
            },
            NodeView::BinOp(lhs, rhs, op) => Expr::BinOp(Box::new(prev[lhs.index()]), Box::new(prev[rhs.index()]), op),
            NodeView::UnOp(val, op) => Expr::UnOp(Box::new(prev[val.index()]), op),
            NodeView::LdLoc(n) => Expr::LdLoc(n),
            NodeView::LdLocA(n) => Expr::LdLocA(n),
            NodeView::LdArg(n) => Expr::LdArg(n),
            NodeView::LdArgA(n) => Expr::LdArgA(n),
            NodeView::Call { site, args, is_pure } => Expr::Call { site: site, args: args.map_values(|h: Interned<CILNode>| prev[h.index()]), is_pure: is_pure },
            NodeView::IntCast { input, target, extend } => Expr::IntCast { input: Box::new(prev[input.index()]), target: target, extend: extend },
            NodeView::FloatCast { input, target, is_signed } => Expr::FloatCast { input: Box::new(prev[input.index()]), target: target, is_signed: is_signed },
            NodeView::RefToPtr(val) => Expr::RefToPtr(Box::new(prev[val.index()])),
            NodeView::PtrCast(val, res) => Expr::PtrCast(Box::new(prev[val.index()]), res),
            NodeView::LdFieldAddress { addr, field } => Expr::LdFieldAddress { addr: Box::new(prev[addr.index()]), field: field },
            NodeView::LdField { addr, field } => Expr::LdField { addr: Box::new(prev[addr.index()]), field: field },
            NodeView::LdInd { addr, tpe, volatile } => Expr::LdInd { addr: Box::new(prev[addr.index()]), tpe: s.types[tpe.index()], volatile: volatile },
            NodeView::SizeOf(tpe) => Expr::SizeOf(s.types[tpe.index()]),
            NodeView::GetException => Expr::GetException,
            NodeView::IsInst(val, tpe) => Expr::IsInst(Box::new(prev[val.index()]), s.types[tpe.index()]),
            NodeView::CheckedCast(val, tpe) => Expr::CheckedCast(Box::new(prev[val.index()]), s.types[tpe.index()]),
            NodeView::CallI { ptr, sig, args } => Expr::CallI { ptr: Box::new(prev[ptr.index()]), sig: s.sigs[sig.index()], args: args.map_values(|h: Interned<CILNode>| prev[h.index()]) },
            NodeView::LocAlloc { size } => Expr::LocAlloc { size: Box::new(prev[size.index()]) },
            NodeView::LdStaticField(field) => Expr::LdStaticField(field),
            NodeView::LdStaticFieldAddress(field) => Expr::LdStaticFieldAddress(field),
            NodeView::LdFtn(site) => Expr::LdFtn(site),
            NodeView::LdTypeToken(tpe) => Expr::LdTypeToken(s.types[tpe.index()]),
            NodeView::LdLen(val) => Expr::LdLen(Box::new(prev[val.index()])),
            NodeView::LocAllocAlgined { tpe, align } => Expr::LocAllocAlgined { tpe: s.types[tpe.index()], align: align },
            NodeView::LdElelemRef { array, index } => Expr::LdElelemRef { array: Box::new(prev[array.index()]), index: Box::new(prev[index.index()]) },
            NodeView::UnboxAny { object, tpe } => Expr::UnboxAny { object: Box::new(prev[object.index()]), tpe: s.types[tpe.index()] },
        }
    }

    /// One more than the greatest position that an operand refers to.
    pub open spec fn rank(self) -> nat
    {
        Self::rank_of(self.kids())
    }

    pub open spec fn rank_of(kids: Seq<Interned<CILNode>>) -> nat
        decreases kids.len(),
    {
        if kids.len() == 0 {
            0
        } else {
            let rest = Self::rank_of(kids.drop_last());
            let last = (kids.last().index() + 1) as nat;
            if last > rest {
                last
            } else {
                rest
            }
        }
    }

    pub closed spec fn code_spec(self) -> u64 {
        match self {
            NodeView::Const(c) => mix_spec(1, c.code_spec()),
            NodeView::BinOp(lhs, rhs, op) => mix_spec(mix_spec(mix_spec(2, lhs.idx), rhs.idx), op.code_spec()),
            NodeView::UnOp(val, op) => mix_spec(mix_spec(3, val.idx), match op { UnOp::Not => 1, UnOp::Neg => 2 }),
            NodeView::LdLoc(n) => mix_spec(4, n as u64),
            NodeView::LdLocA(n) => mix_spec(5, n as u64),
            NodeView::LdArg(n) => mix_spec(6, n as u64),
            NodeView::LdArgA(n) => mix_spec(7, n as u64),
            NodeView::Call { site, args, is_pure } => mix_spec(mix_spec(mix_spec(8, site.idx), handles_code_spec(args)), if is_pure.0 { 1 } else { 0 }),
            NodeView::IntCast { input, target, extend } => mix_spec(mix_spec(mix_spec(9, input.idx), target.code_spec()), match extend { ExtendKind::ZeroExtend => 1, ExtendKind::SignExtend => 2 }),
            NodeView::FloatCast { input, target, is_signed } => mix_spec(mix_spec(mix_spec(10, input.idx), target.code_spec()), if is_signed { 1 } else { 0 }),
            NodeView::RefToPtr(val) => mix_spec(11, val.idx),
            NodeView::PtrCast(val, res) => mix_spec(mix_spec(12, val.idx), res.code_spec()),
            NodeView::LdFieldAddress { addr, field } => mix_spec(mix_spec(13, addr.idx), field.idx),
            NodeView::LdField { addr, field } => mix_spec(mix_spec(14, addr.idx), field.idx),
            NodeView::LdInd { addr, tpe, volatile } => mix_spec(mix_spec(mix_spec(15, addr.idx), tpe.idx), if volatile { 1 } else { 0 }),
            NodeView::SizeOf(tpe) => mix_spec(16, tpe.idx),
            NodeView::GetException => 17,
            NodeView::IsInst(val, tpe) => mix_spec(mix_spec(18, val.idx), tpe.idx),
            NodeView::CheckedCast(val, tpe) => mix_spec(mix_spec(19, val.idx), tpe.idx),
            NodeView::CallI { ptr, sig, args } => mix_spec(mix_spec(mix_spec(20, ptr.idx), sig.idx), handles_code_spec(args)),
            NodeView::LocAlloc { size } => mix_spec(21, size.idx),
            NodeView::LdStaticField(field) => mix_spec(22, field.idx),
            NodeView::LdStaticFieldAddress(field) => mix_spec(23, field.idx),
            NodeView::LdFtn(site) => mix_spec(24, site.idx),
            NodeView::LdTypeToken(tpe) => mix_spec(25, tpe.idx),
            NodeView::LdLen(val) => mix_spec(26, val.idx),
            NodeView::LocAllocAlgined { tpe, align } => mix_spec(mix_spec(27, tpe.idx), align),
            NodeView::LdElelemRef { array, index } => mix_spec(mix_spec(28, array.idx), index.idx),
            NodeView::UnboxAny { object, tpe } => mix_spec(mix_spec(29, object.idx), tpe.idx),
        }
    }
}

impl CILNode {
    /// A call of `mref` with the given arguments, not marked pure.
    pub fn call(mref: Interned<MethodRef>, args: Vec<Interned<CILNode>>) -> (r: Self)
        ensures
            r@ == (NodeView::Call { site: mref, args: args@, is_pure: IsPure(false) }),
    {
        CILNode::Call(Box::new((mref, args, IsPure(false))))
    }

    /// The nodes that this node refers to: its operands, in order.
    pub fn child_nodes(&self) -> (r: Vec<Interned<CILNode>>)
        ensures
            r@ == self@.kids(),
    {
        match self {
            CILNode::Const(_) => Vec::new(),
            CILNode::BinOp(lhs, rhs, _) => {
                let mut out: Vec<Interned<CILNode>> = Vec::new();
                out.push(*lhs);
                out.push(*rhs);
                assert(out@ =~= self@.kids());
                out
            },
            CILNode::UnOp(val, _) => {
                let mut out: Vec<Interned<CILNode>> = Vec::new();
                out.push(*val);
                assert(out@ =~= self@.kids());
                out
            },
            CILNode::LdLoc(_) => Vec::new(),
            CILNode::LdLocA(_) => Vec::new(),
            CILNode::LdArg(_) => Vec::new(),
            CILNode::LdArgA(_) => Vec::new(),
            CILNode::Call(info) => {
                let out = copy_handles(&info.1);
                assert(out@ =~= self@.kids());
                out
            },
            CILNode::IntCast { input, .. } => {
                let mut out: Vec<Interned<CILNode>> = Vec::new();
                out.push(*input);
                assert(out@ =~= self@.kids());
                out
            },
            CILNode::FloatCast { input, .. } => {
                let mut out: Vec<Interned<CILNode>> = Vec::new();
                out.push(*input);
                assert(out@ =~= self@.kids());
                out
            },
            CILNode::RefToPtr(val) => {
                let mut out: Vec<Interned<CILNode>> = Vec::new();
                out.push(*val);
                assert(out@ =~= self@.kids());
                out
            },
            CILNode::PtrCast(val, _) => {
                let mut out: Vec<Interned<CILNode>> = Vec::new();
                out.push(*val);
                assert(out@ =~= self@.kids());
                out
            },
            CILNode::LdFieldAddress { addr, .. } => {
                let mut out: Vec<Interned<CILNode>> = Vec::new();
                out.push(*addr);
                assert(out@ =~= self@.kids());
                out
            },
            CILNode::LdField { addr, .. } => {
                let mut out: Vec<Interned<CILNode>> = Vec::new();
                out.push(*addr);
                assert(out@ =~= self@.kids());
                out
            },
            CILNode::LdInd { addr, .. } => {
                let mut out: Vec<Interned<CILNode>> = Vec::new();
                out.push(*addr);
                assert(out@ =~= self@.kids());
                out
            },
            CILNode::SizeOf(_) => Vec::new(),
            CILNode::GetException => Vec::new(),
            CILNode::IsInst(val, _) => {
                let mut out: Vec<Interned<CILNode>> = Vec::new();
                out.push(*val);
                assert(out@ =~= self@.kids());
                out
            },
            CILNode::CheckedCast(val, _) => {
                let mut out: Vec<Interned<CILNode>> = Vec::new();
                out.push(*val);
                assert(out@ =~= self@.kids());
                out
            },
            CILNode::CallI(info) => {
                let mut out: Vec<Interned<CILNode>> = Vec::new();
                out.push(info.0);
                let mut i: usize = 0;
                while i < info.2.len()
                    invariant
                        i <= info.2@.len(),
                        out@ == seq![info.0] + info.2@.take(i as int),
                    decreases info.2@.len() - i,
                {
                    out.push(info.2[i]);
                    proof {
                        assert(info.2@.take(i as int + 1) =~= info.2@.take(i as int).push(
                            info.2@[i as int],
                        ));
                        assert(out@ =~= seq![info.0] + info.2@.take(i as int + 1));
                    }
                    i += 1;
                }
                proof {
                    assert(info.2@.take(i as int) =~= info.2@);
                }
                out
            },
            CILNode::LocAlloc { size, .. } => {
                let mut out: Vec<Interned<CILNode>> = Vec::new();
                out.push(*size);
                assert(out@ =~= self@.kids());
                out
            },
            CILNode::LdStaticField(_) => Vec::new(),
            CILNode::LdStaticFieldAddress(_) => Vec::new(),
            CILNode::LdFtn(_) => Vec::new(),
            CILNode::LdTypeToken(_) => Vec::new(),
            CILNode::LdLen(val) => {
                let mut out: Vec<Interned<CILNode>> = Vec::new();
                out.push(*val);
                assert(out@ =~= self@.kids());
                out
            },
            CILNode::LocAllocAlgined { .. } => Vec::new(),
            CILNode::LdElelemRef { array, index, .. } => {
                let mut out: Vec<Interned<CILNode>> = Vec::new();
                out.push(*array);
                out.push(*index);
                assert(out@ =~= self@.kids());
                out
            },
            CILNode::UnboxAny { object, .. } => {
                let mut out: Vec<Interned<CILNode>> = Vec::new();
                out.push(*object);
                assert(out@ =~= self@.kids());
                out
            },
        }
    }

    /// A hash of the node.
    pub fn code(&self) -> (r: u64)
        ensures
            r == self@.code_spec(),
    {
        match self {
            CILNode::Const(c) => mix(1, c.code()),
            CILNode::BinOp(lhs, rhs, op) => mix(mix(mix(2, lhs.idx), rhs.idx), op.code()),
            CILNode::UnOp(val, op) => mix(mix(3, val.idx), match *op { UnOp::Not => 1, UnOp::Neg => 2 }),
            CILNode::LdLoc(n) => mix(4, *n as u64),
            CILNode::LdLocA(n) => mix(5, *n as u64),
            CILNode::LdArg(n) => mix(6, *n as u64),
            CILNode::LdArgA(n) => mix(7, *n as u64),
            CILNode::Call(info) => mix(mix(mix(8, info.0.idx), handles_code(&info.1)), if info.2.0 { 1 } else { 0 }),
            CILNode::IntCast { input, target, extend } => mix(mix(mix(9, input.idx), target.code()), match *extend { ExtendKind::ZeroExtend => 1, ExtendKind::SignExtend => 2 }),
            CILNode::FloatCast { input, target, is_signed } => mix(mix(mix(10, input.idx), target.code()), if *is_signed { 1 } else { 0 }),
            CILNode::RefToPtr(val) => mix(11, val.idx),
            CILNode::PtrCast(val, res) => mix(mix(12, val.idx), res.code()),
            CILNode::LdFieldAddress { addr, field } => mix(mix(13, addr.idx), field.idx),
            CILNode::LdField { addr, field } => mix(mix(14, addr.idx), field.idx),
            CILNode::LdInd { addr, tpe, volatile } => mix(mix(mix(15, addr.idx), tpe.idx), if *volatile { 1 } else { 0 }),
            CILNode::SizeOf(tpe) => mix(16, tpe.idx),
            CILNode::GetException => 17,
            CILNode::IsInst(val, tpe) => mix(mix(18, val.idx), tpe.idx),
            CILNode::CheckedCast(val, tpe) => mix(mix(19, val.idx), tpe.idx),
            CILNode::CallI(info) => mix(mix(mix(20, info.0.idx), info.1.idx), handles_code(&info.2)),
            CILNode::LocAlloc { size } => mix(21, size.idx),
            CILNode::LdStaticField(field) => mix(22, field.idx),
            CILNode::LdStaticFieldAddress(field) => mix(23, field.idx),
            CILNode::LdFtn(site) => mix(24, site.idx),
            CILNode::LdTypeToken(tpe) => mix(25, tpe.idx),
            CILNode::LdLen(val) => mix(26, val.idx),
            CILNode::LocAllocAlgined { tpe, align } => mix(mix(27, tpe.idx), *align),
            CILNode::LdElelemRef { array, index } => mix(mix(28, array.idx), index.idx),
            CILNode::UnboxAny { object, tpe } => mix(mix(29, object.idx), tpe.idx),
        }
    }

    /// Whether two nodes have the same model.
    pub fn is(&self, other: &CILNode) -> (r: bool)
        ensures
            r == (self@ == other@),
    {
        match (self, other) {
            (CILNode::Const(c_a), CILNode::Const(c_b)) => c_a.is(c_b),
            (CILNode::BinOp(lhs_a, rhs_a, op_a), CILNode::BinOp(lhs_b, rhs_b, op_b)) => lhs_a.is(lhs_b) && rhs_a.is(rhs_b) && *op_a == *op_b,
            (CILNode::UnOp(val_a, op_a), CILNode::UnOp(val_b, op_b)) => val_a.is(val_b) && *op_a == *op_b,
            (CILNode::LdLoc(n_a), CILNode::LdLoc(n_b)) => *n_a == *n_b,
            (CILNode::LdLocA(n_a), CILNode::LdLocA(n_b)) => *n_a == *n_b,
            (CILNode::LdArg(n_a), CILNode::LdArg(n_b)) => *n_a == *n_b,
            (CILNode::LdArgA(n_a), CILNode::LdArgA(n_b)) => *n_a == *n_b,
            (CILNode::Call(a), CILNode::Call(b)) => a.0.is(&b.0) && same_handles(&a.1, &b.1) && a.2.0 == b.2.0,
            (CILNode::IntCast { input: input_a, target: target_a, extend: extend_a }, CILNode::IntCast { input: input_b, target: target_b, extend: extend_b }) => input_a.is(input_b) && *target_a == *target_b && *extend_a == *extend_b,
            (CILNode::FloatCast { input: input_a, target: target_a, is_signed: is_signed_a }, CILNode::FloatCast { input: input_b, target: target_b, is_signed: is_signed_b }) => input_a.is(input_b) && *target_a == *target_b && *is_signed_a == *is_signed_b,
            (CILNode::RefToPtr(val_a), CILNode::RefToPtr(val_b)) => val_a.is(val_b),
            (CILNode::PtrCast(val_a, res_a), CILNode::PtrCast(val_b, res_b)) => val_a.is(val_b) && res_a.is(res_b),
            (CILNode::LdFieldAddress { addr: addr_a, field: field_a }, CILNode::LdFieldAddress { addr: addr_b, field: field_b }) => addr_a.is(addr_b) && field_a.is(field_b),
            (CILNode::LdField { addr: addr_a, field: field_a }, CILNode::LdField { addr: addr_b, field: field_b }) => addr_a.is(addr_b) && field_a.is(field_b),
            (CILNode::LdInd { addr: addr_a, tpe: tpe_a, volatile: volatile_a }, CILNode::LdInd { addr: addr_b, tpe: tpe_b, volatile: volatile_b }) => addr_a.is(addr_b) && tpe_a.is(tpe_b) && *volatile_a == *volatile_b,
            (CILNode::SizeOf(tpe_a), CILNode::SizeOf(tpe_b)) => tpe_a.is(tpe_b),
            (CILNode::GetException, CILNode::GetException) => true,
            (CILNode::IsInst(val_a, tpe_a), CILNode::IsInst(val_b, tpe_b)) => val_a.is(val_b) && tpe_a.is(tpe_b),
            (CILNode::CheckedCast(val_a, tpe_a), CILNode::CheckedCast(val_b, tpe_b)) => val_a.is(val_b) && tpe_a.is(tpe_b),
            (CILNode::CallI(a), CILNode::CallI(b)) => a.0.is(&b.0) && a.1.is(&b.1) && same_handles(&a.2, &b.2),
            (CILNode::LocAlloc { size: size_a }, CILNode::LocAlloc { size: size_b }) => size_a.is(size_b),
            (CILNode::LdStaticField(field_a), CILNode::LdStaticField(field_b)) => field_a.is(field_b),
            (CILNode::LdStaticFieldAddress(field_a), CILNode::LdStaticFieldAddress(field_b)) => field_a.is(field_b),
            (CILNode::LdFtn(site_a), CILNode::LdFtn(site_b)) => site_a.is(site_b),
            (CILNode::LdTypeToken(tpe_a), CILNode::LdTypeToken(tpe_b)) => tpe_a.is(tpe_b),
            (CILNode::LdLen(val_a), CILNode::LdLen(val_b)) => val_a.is(val_b),
            (CILNode::LocAllocAlgined { tpe: tpe_a, align: align_a }, CILNode::LocAllocAlgined { tpe: tpe_b, align: align_b }) => tpe_a.is(tpe_b) && *align_a == *align_b,
            (CILNode::LdElelemRef { array: array_a, index: index_a }, CILNode::LdElelemRef { array: array_b, index: index_b }) => array_a.is(array_b) && index_a.is(index_b),
            (CILNode::UnboxAny { object: object_a, tpe: tpe_a }, CILNode::UnboxAny { object: object_b, tpe: tpe_b }) => object_a.is(object_b) && tpe_a.is(tpe_b),
            _ => false,
        }
    }
}

impl Clone for CILNode {
    fn clone(&self) -> (r: Self)
        ensures
            r@ == self@,
    {
        match self {
            CILNode::Const(c) => CILNode::Const(Box::new(**c)),
            CILNode::BinOp(lhs, rhs, op) => CILNode::BinOp(*lhs, *rhs, *op),
            CILNode::UnOp(val, op) => CILNode::UnOp(*val, *op),
            CILNode::LdLoc(n) => CILNode::LdLoc(*n),
            CILNode::LdLocA(n) => CILNode::LdLocA(*n),
            CILNode::LdArg(n) => CILNode::LdArg(*n),
            CILNode::LdArgA(n) => CILNode::LdArgA(*n),
            CILNode::Call(info) => CILNode::Call(Box::new((info.0, copy_handles(&info.1), info.2))),
            CILNode::IntCast { input, target, extend } => CILNode::IntCast { input: *input, target: *target, extend: *extend },
            CILNode::FloatCast { input, target, is_signed } => CILNode::FloatCast { input: *input, target: *target, is_signed: *is_signed },
            CILNode::RefToPtr(val) => CILNode::RefToPtr(*val),
            CILNode::PtrCast(val, res) => CILNode::PtrCast(*val, Box::new(**res)),
            CILNode::LdFieldAddress { addr, field } => CILNode::LdFieldAddress { addr: *addr, field: *field },
            CILNode::LdField { addr, field } => CILNode::LdField { addr: *addr, field: *field },
            CILNode::LdInd { addr, tpe, volatile } => CILNode::LdInd { addr: *addr, tpe: *tpe, volatile: *volatile },
            CILNode::SizeOf(tpe) => CILNode::SizeOf(*tpe),
            CILNode::GetException => CILNode::GetException,
            CILNode::IsInst(val, tpe) => CILNode::IsInst(*val, *tpe),
            CILNode::CheckedCast(val, tpe) => CILNode::CheckedCast(*val, *tpe),
            CILNode::CallI(info) => CILNode::CallI(Box::new((info.0, info.1, copy_handles(&info.2)))),
            CILNode::LocAlloc { size } => CILNode::LocAlloc { size: *size },
            CILNode::LdStaticField(field) => CILNode::LdStaticField(*field),
            CILNode::LdStaticFieldAddress(field) => CILNode::LdStaticFieldAddress(*field),
            CILNode::LdFtn(site) => CILNode::LdFtn(*site),
            CILNode::LdTypeToken(tpe) => CILNode::LdTypeToken(*tpe),
            CILNode::LdLen(val) => CILNode::LdLen(*val),
            CILNode::LocAllocAlgined { tpe, align } => CILNode::LocAllocAlgined { tpe: *tpe, align: *align },
            CILNode::LdElelemRef { array, index } => CILNode::LdElelemRef { array: *array, index: *index },
            CILNode::UnboxAny { object, tpe } => CILNode::UnboxAny { object: *object, tpe: *tpe },
        }
    }
}

impl Internable for CILNode {
    open spec fn hash_spec(v: NodeView) -> u64 {
        v.code_spec()
    }

    fn hash_code(&self) -> (h: u64) {
        self.code()
    }

    fn same(&self, other: &Self) -> (b: bool) {
        self.is(other)
    }

    fn duplicate(&self) -> (r: Self) {
        self.clone()
    }
}

} // verus!
