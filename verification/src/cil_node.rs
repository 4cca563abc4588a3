use crate::cilnode::{BinOp, CILNode, ExtendKind, IsPure, PtrCastRes, UnOp};
use crate::class_ref::ClassRef;
use crate::expr::{AssemblyView, Expr};
use crate::field_desc::FieldDesc;
use crate::fn_sig::{FnSig, FnSigView};
use crate::interned::Interned;
use crate::method_ref::MethodRef;
use crate::tpe::{Float, Int, Type};
use vstd::prelude::*;
use vstd::string::StringExecFns;

verus! {

/// The callee, the arguments (in call order) and the purity of a call.
#[derive(Debug, PartialEq, Eq, Hash)]
pub struct CallOpArgs {
    pub args: Vec<V1Node>,
    pub site: Interned<MethodRef>,
    pub is_pure: IsPure,
}

/// A node of the tree form: an expression that owns its operands. The tree
/// form is what a front end builds; lowering turns it into the graph form.
#[derive(Debug, PartialEq, Eq, Hash)]
pub enum V1Node {
    /// A node that is in graph form already.
    V2(Interned<CILNode>),
    /// The value of the local with the given number.
    LDLoc(u32),
    /// A value that no pass may look into.
    BlackBox(Box<V1Node>),
    /// A signed value converted to a 32-bit floating-point number.
    ConvF32(Box<V1Node>),
    /// A signed value converted to a 64-bit floating-point number.
    ConvF64(Box<V1Node>),
    /// An unsigned value converted to a 64-bit floating-point number.
    ConvF64Un(Box<V1Node>),
    /// An `i8` loaded from a pointer.
    LDIndI8 { ptr: Box<V1Node> },
    /// A `bool` loaded from a pointer.
    LDIndBool { ptr: Box<V1Node> },
    /// An `i16` loaded from a pointer.
    LDIndI16 { ptr: Box<V1Node> },
    /// An `i32` loaded from a pointer.
    LDIndI32 { ptr: Box<V1Node> },
    /// An `i64` loaded from a pointer.
    LDIndI64 { ptr: Box<V1Node> },
    /// An `isize` loaded from a pointer.
    LDIndISize { ptr: Box<V1Node> },
    /// A pointer of type `loaded_ptr` loaded from a pointer.
    LDIndPtr { ptr: Box<V1Node>, loaded_ptr: Box<Type> },
    /// A `usize` loaded from a pointer.
    LDIndUSize { ptr: Box<V1Node> },
    /// An object of type `obj` loaded from a pointer.
    LdObj { ptr: Box<V1Node>, obj: Box<Type> },
    /// An `f32` loaded from a pointer.
    LDIndF32 { ptr: Box<V1Node> },
    /// An `f64` loaded from a pointer.
    LDIndF64 { ptr: Box<V1Node> },
    /// The address of `field` of the object that `addr` points to.
    LDFieldAdress { addr: Box<V1Node>, field: Interned<FieldDesc> },
    /// The value of `field` of the object that `addr` points to.
    LDField { addr: Box<V1Node>, field: Interned<FieldDesc> },
    /// The sum of two values.
    Add(Box<V1Node>, Box<V1Node>),
    /// The bitwise and of two values.
    And(Box<V1Node>, Box<V1Node>),
    /// The difference of two values.
    Sub(Box<V1Node>, Box<V1Node>),
    Mul(Box<V1Node>, Box<V1Node>),
    Div(Box<V1Node>, Box<V1Node>),
    DivUn(Box<V1Node>, Box<V1Node>),
    Rem(Box<V1Node>, Box<V1Node>),
    RemUn(Box<V1Node>, Box<V1Node>),
    Or(Box<V1Node>, Box<V1Node>),
    XOr(Box<V1Node>, Box<V1Node>),
    Shr(Box<V1Node>, Box<V1Node>),
    Shl(Box<V1Node>, Box<V1Node>),
    ShrUn(Box<V1Node>, Box<V1Node>),
    /// A direct call.
    Call(Box<CallOpArgs>),
    /// A virtual call.
    CallVirt(Box<CallOpArgs>),
    ConvU8(Box<V1Node>),
    ConvU16(Box<V1Node>),
    ConvU32(Box<V1Node>),
    ZeroExtendToU64(Box<V1Node>),
    ZeroExtendToUSize(Box<V1Node>),
    ZeroExtendToISize(Box<V1Node>),
    /// A managed reference turned into an unmanaged pointer.
    MRefToRawPtr(Box<V1Node>),
    ConvI8(Box<V1Node>),
    ConvI16(Box<V1Node>),
    ConvI32(Box<V1Node>),
    SignExtendToI64(Box<V1Node>),
    SignExtendToU64(Box<V1Node>),
    SignExtendToISize(Box<V1Node>),
    SignExtendToUSize(Box<V1Node>),
    Neg(Box<V1Node>),
    Not(Box<V1Node>),
    Eq(Box<V1Node>, Box<V1Node>),
    Lt(Box<V1Node>, Box<V1Node>),
    /// Whether the first operand is less than the second: unsigned for integers, unordered for floating-point numbers.
    LtUn(Box<V1Node>, Box<V1Node>),
    Gt(Box<V1Node>, Box<V1Node>),
    /// Whether the first operand is greater than the second: unsigned for integers, unordered for floating-point numbers.
    GtUn(Box<V1Node>, Box<V1Node>),
    /// A pointer to a method.
    LDFtn(Interned<MethodRef>),
    /// The run-time token of a type.
    LDTypeToken(Box<Type>),
    /// The construction of an object.
    NewObj(Box<CallOpArgs>),
    /// A string constant.
    LdStr(String),
    /// A call through a function pointer: the signature, the pointer and the arguments.
    CallI(Box<(FnSig, V1Node, Vec<V1Node>)>),
    LDIndU8 { ptr: Box<V1Node> },
    LDIndU16 { ptr: Box<V1Node> },
    LDIndU32 { ptr: Box<V1Node> },
    LDIndU64 { ptr: Box<V1Node> },
    /// The length of a platform array.
    LDLen { arr: Box<V1Node> },
    /// The element of a platform array at an index.
    LDElelemRef { arr: Box<V1Node>, idx: Box<V1Node> },
    /// A pointer reinterpreted as the pointer-like type `new_ptr`.
    CastPtr { val: Box<V1Node>, new_ptr: Box<Type> },
    /// A buffer in the frame of the function, large enough for `tpe` and aligned to `align`.
    LocAllocAligned { tpe: Box<Type>, align: u64 },
    /// Memory of the given size, taken from the frame of the function.
    LocAlloc { size: Box<V1Node> },
    /// The exception being handled.
    GetException,
    /// An object cast to a class; fails at run time if it is no instance of it.
    CheckedCast(Box<(V1Node, Interned<ClassRef>)>),
    /// Whether an object is an instance of a class.
    IsInst(Box<(V1Node, Interned<ClassRef>)>),
    /// Marks the load that it wraps as volatile.
    Volatile(Box<V1Node>),
    /// An object reference turned into a value of type `tpe`.
    UnboxAny(Box<V1Node>, Box<Type>),
}

/// How a call finds its callee.
#[derive(Debug, Clone, Copy, PartialEq, Eq, Hash, Structural)]
pub enum CallKind {
    Direct,
    Virtual,
    Construct,
}

/// The mathematical model of a tree. The many variants of the tree form that
/// differ only in a type or in an operation are one variant here, with the
/// type or the operation as a field; lists are sequences.
pub enum TreeView {
    /// A node that is in graph form already.
    Graph(Interned<CILNode>),
    Local(u32),
    /// A value that no pass may look into.
    Opaque(Box<TreeView>),
    FloatCast { input: Box<TreeView>, target: Float, is_signed: bool },
    /// A value of type `tpe` loaded through a pointer.
    Load { ptr: Box<TreeView>, tpe: Type },
    FieldAddress { addr: Box<TreeView>, field: Interned<FieldDesc> },
    Field { addr: Box<TreeView>, field: Interned<FieldDesc> },
    BinOp(Box<TreeView>, Box<TreeView>, BinOp),
    Call { how: CallKind, site: Interned<MethodRef>, args: Seq<TreeView>, is_pure: IsPure },
    IntCast { input: Box<TreeView>, target: Int, extend: ExtendKind },
    RefToPtr(Box<TreeView>),
    UnOp(Box<TreeView>, UnOp),
    FnPtr(Interned<MethodRef>),
    TypeToken(Type),
    Str(Seq<char>),
    CallI { sig: FnSigView, ptr: Box<TreeView>, args: Seq<TreeView> },
    Len(Box<TreeView>),
    Elem { arr: Box<TreeView>, idx: Box<TreeView> },
    CastPtr { val: Box<TreeView>, new_ptr: Type },
    AllocAligned { tpe: Type, align: u64 },
    Alloc { size: Box<TreeView> },
    Exception,
    CheckedCast { val: Box<TreeView>, class: Interned<ClassRef> },
    IsInst { val: Box<TreeView>, class: Interned<ClassRef> },
    /// A load marked as volatile.
    Volatile(Box<TreeView>),
    Unbox { object: Box<TreeView>, tpe: Type },
}

/// The models of the trees of a list.
pub open spec fn view_all(trees: Seq<V1Node>) -> Seq<TreeView>
    decreases trees,
{
    Seq::new(
        trees.len(),
        |i: int|
            if 0 <= i < trees.len() {
                trees[i].model()
            } else {
                TreeView::Exception
            },
    )
}

/// The list of models has one model for each tree, in order.
pub proof fn lemma_view_all(trees: Seq<V1Node>)
    ensures
        view_all(trees).len() == trees.len(),
        forall|i: int| 0 <= i < trees.len() ==> #[trigger] view_all(trees)[i] == trees[i]@,
{
    reveal(V1Node::model);
}

impl View for V1Node {
    type V = TreeView;

    open spec fn view(&self) -> TreeView {
        self.model()
    }
}

impl V1Node {
    /// The model of the tree.
    #[verifier::opaque]
    pub open spec fn model(self) -> TreeView
        decreases self,
    {
        match self {
            V1Node::V2(node) => TreeView::Graph(node),
            V1Node::LDLoc(n) => TreeView::Local(n),
            V1Node::BlackBox(inner) => TreeView::Opaque(Box::new((*inner).model())),
            V1Node::ConvF32(inner) => TreeView::FloatCast { input: Box::new((*inner).model()), target: Float::F32, is_signed: true },
            V1Node::ConvF64(inner) => TreeView::FloatCast { input: Box::new((*inner).model()), target: Float::F64, is_signed: true },
            V1Node::ConvF64Un(inner) => TreeView::FloatCast { input: Box::new((*inner).model()), target: Float::F64, is_signed: false },
            V1Node::LDIndI8 { ptr } => TreeView::Load { ptr: Box::new((*ptr).model()), tpe: Type::Int(Int::I8) },
            V1Node::LDIndBool { ptr } => TreeView::Load { ptr: Box::new((*ptr).model()), tpe: Type::Bool },
            V1Node::LDIndI16 { ptr } => TreeView::Load { ptr: Box::new((*ptr).model()), tpe: Type::Int(Int::I16) },
            V1Node::LDIndI32 { ptr } => TreeView::Load { ptr: Box::new((*ptr).model()), tpe: Type::Int(Int::I32) },
            V1Node::LDIndI64 { ptr } => TreeView::Load { ptr: Box::new((*ptr).model()), tpe: Type::Int(Int::I64) },
            V1Node::LDIndISize { ptr } => TreeView::Load { ptr: Box::new((*ptr).model()), tpe: Type::Int(Int::ISize) },
            V1Node::LDIndPtr { ptr, loaded_ptr } => TreeView::Load { ptr: Box::new((*ptr).model()), tpe: *loaded_ptr },
            V1Node::LDIndUSize { ptr } => TreeView::Load { ptr: Box::new((*ptr).model()), tpe: Type::Int(Int::USize) },
            V1Node::LdObj { ptr, obj } => TreeView::Load { ptr: Box::new((*ptr).model()), tpe: *obj },
            V1Node::LDIndF32 { ptr } => TreeView::Load { ptr: Box::new((*ptr).model()), tpe: Type::Float(Float::F32) },
            V1Node::LDIndF64 { ptr } => TreeView::Load { ptr: Box::new((*ptr).model()), tpe: Type::Float(Float::F64) },
            V1Node::LDFieldAdress { addr, field } => TreeView::FieldAddress { addr: Box::new((*addr).model()), field },
            V1Node::LDField { addr, field } => TreeView::Field { addr: Box::new((*addr).model()), field },
            V1Node::Add(lhs, rhs) => TreeView::BinOp(Box::new((*lhs).model()), Box::new((*rhs).model()), BinOp::Add),
            V1Node::And(lhs, rhs) => TreeView::BinOp(Box::new((*lhs).model()), Box::new((*rhs).model()), BinOp::And),
            V1Node::Sub(lhs, rhs) => TreeView::BinOp(Box::new((*lhs).model()), Box::new((*rhs).model()), BinOp::Sub),
            V1Node::Mul(lhs, rhs) => TreeView::BinOp(Box::new((*lhs).model()), Box::new((*rhs).model()), BinOp::Mul),
            V1Node::Div(lhs, rhs) => TreeView::BinOp(Box::new((*lhs).model()), Box::new((*rhs).model()), BinOp::Div),
            V1Node::DivUn(lhs, rhs) => TreeView::BinOp(Box::new((*lhs).model()), Box::new((*rhs).model()), BinOp::DivUn),
            V1Node::Rem(lhs, rhs) => TreeView::BinOp(Box::new((*lhs).model()), Box::new((*rhs).model()), BinOp::Rem),
            V1Node::RemUn(lhs, rhs) => TreeView::BinOp(Box::new((*lhs).model()), Box::new((*rhs).model()), BinOp::RemUn),
            V1Node::Or(lhs, rhs) => TreeView::BinOp(Box::new((*lhs).model()), Box::new((*rhs).model()), BinOp::Or),
            V1Node::XOr(lhs, rhs) => TreeView::BinOp(Box::new((*lhs).model()), Box::new((*rhs).model()), BinOp::XOr),
            V1Node::Shr(lhs, rhs) => TreeView::BinOp(Box::new((*lhs).model()), Box::new((*rhs).model()), BinOp::Shr),
            V1Node::Shl(lhs, rhs) => TreeView::BinOp(Box::new((*lhs).model()), Box::new((*rhs).model()), BinOp::Shl),
            V1Node::ShrUn(lhs, rhs) => TreeView::BinOp(Box::new((*lhs).model()), Box::new((*rhs).model()), BinOp::ShrUn),
            V1Node::Call(call) => TreeView::Call { how: CallKind::Direct, site: call.site, args: view_all(call.args@), is_pure: call.is_pure },
            V1Node::CallVirt(call) => TreeView::Call { how: CallKind::Virtual, site: call.site, args: view_all(call.args@), is_pure: call.is_pure },
            V1Node::ConvU8(inner) => TreeView::IntCast { input: Box::new((*inner).model()), target: Int::U8, extend: ExtendKind::ZeroExtend },
            V1Node::ConvU16(inner) => TreeView::IntCast { input: Box::new((*inner).model()), target: Int::U16, extend: ExtendKind::ZeroExtend },
            V1Node::ConvU32(inner) => TreeView::IntCast { input: Box::new((*inner).model()), target: Int::U32, extend: ExtendKind::ZeroExtend },
            V1Node::ZeroExtendToU64(inner) => TreeView::IntCast { input: Box::new((*inner).model()), target: Int::U64, extend: ExtendKind::ZeroExtend },
            V1Node::ZeroExtendToUSize(inner) => TreeView::IntCast { input: Box::new((*inner).model()), target: Int::USize, extend: ExtendKind::ZeroExtend },
            V1Node::ZeroExtendToISize(inner) => TreeView::IntCast { input: Box::new((*inner).model()), target: Int::ISize, extend: ExtendKind::ZeroExtend },
            V1Node::MRefToRawPtr(inner) => TreeView::RefToPtr(Box::new((*inner).model())),
            V1Node::ConvI8(inner) => TreeView::IntCast { input: Box::new((*inner).model()), target: Int::I8, extend: ExtendKind::SignExtend },
            V1Node::ConvI16(inner) => TreeView::IntCast { input: Box::new((*inner).model()), target: Int::I16, extend: ExtendKind::SignExtend },
            V1Node::ConvI32(inner) => TreeView::IntCast { input: Box::new((*inner).model()), target: Int::I32, extend: ExtendKind::SignExtend },
            V1Node::SignExtendToI64(inner) => TreeView::IntCast { input: Box::new((*inner).model()), target: Int::I64, extend: ExtendKind::SignExtend },
            V1Node::SignExtendToU64(inner) => TreeView::IntCast { input: Box::new((*inner).model()), target: Int::U64, extend: ExtendKind::SignExtend },
            V1Node::SignExtendToISize(inner) => TreeView::IntCast { input: Box::new((*inner).model()), target: Int::ISize, extend: ExtendKind::SignExtend },
            V1Node::SignExtendToUSize(inner) => TreeView::IntCast { input: Box::new((*inner).model()), target: Int::USize, extend: ExtendKind::SignExtend },
            V1Node::Neg(inner) => TreeView::UnOp(Box::new((*inner).model()), UnOp::Neg),
            V1Node::Not(inner) => TreeView::UnOp(Box::new((*inner).model()), UnOp::Not),
            V1Node::Eq(lhs, rhs) => TreeView::BinOp(Box::new((*lhs).model()), Box::new((*rhs).model()), BinOp::Eq),
            V1Node::Lt(lhs, rhs) => TreeView::BinOp(Box::new((*lhs).model()), Box::new((*rhs).model()), BinOp::Lt),
            V1Node::LtUn(lhs, rhs) => TreeView::BinOp(Box::new((*lhs).model()), Box::new((*rhs).model()), BinOp::LtUn),
            V1Node::Gt(lhs, rhs) => TreeView::BinOp(Box::new((*lhs).model()), Box::new((*rhs).model()), BinOp::Gt),
            V1Node::GtUn(lhs, rhs) => TreeView::BinOp(Box::new((*lhs).model()), Box::new((*rhs).model()), BinOp::GtUn),
            V1Node::LDFtn(site) => TreeView::FnPtr(site),
            V1Node::LDTypeToken(tpe) => TreeView::TypeToken(*tpe),
            V1Node::NewObj(call) => TreeView::Call { how: CallKind::Construct, site: call.site, args: view_all(call.args@), is_pure: call.is_pure },
            V1Node::LdStr(text) => TreeView::Str(text@),
            V1Node::CallI(call) => TreeView::CallI { sig: call.0@, ptr: Box::new(call.1.model()), args: view_all(call.2@) },
            V1Node::LDIndU8 { ptr } => TreeView::Load { ptr: Box::new((*ptr).model()), tpe: Type::Int(Int::U8) },
            V1Node::LDIndU16 { ptr } => TreeView::Load { ptr: Box::new((*ptr).model()), tpe: Type::Int(Int::U16) },
            V1Node::LDIndU32 { ptr } => TreeView::Load { ptr: Box::new((*ptr).model()), tpe: Type::Int(Int::U32) },
            V1Node::LDIndU64 { ptr } => TreeView::Load { ptr: Box::new((*ptr).model()), tpe: Type::Int(Int::U64) },
            V1Node::LDLen { arr } => TreeView::Len(Box::new((*arr).model())),
            V1Node::LDElelemRef { arr, idx } => TreeView::Elem { arr: Box::new((*arr).model()), idx: Box::new((*idx).model()) },
            V1Node::CastPtr { val, new_ptr } => TreeView::CastPtr { val: Box::new((*val).model()), new_ptr: *new_ptr },
            V1Node::LocAllocAligned { tpe, align } => TreeView::AllocAligned { tpe: *tpe, align },
            V1Node::LocAlloc { size } => TreeView::Alloc { size: Box::new((*size).model()) },
            V1Node::GetException => TreeView::Exception,
            V1Node::CheckedCast(cast) => TreeView::CheckedCast { val: Box::new(cast.0.model()), class: cast.1 },
            V1Node::IsInst(cast) => TreeView::IsInst { val: Box::new(cast.0.model()), class: cast.1 },
            V1Node::Volatile(inner) => TreeView::Volatile(Box::new((*inner).model())),
            V1Node::UnboxAny(inner, tpe) => TreeView::Unbox { object: Box::new((*inner).model()), tpe: *tpe },
        }
    }
}

/// The expressions that the trees of a list stand for in the store `s`.
pub open spec fn denote_all(trees: Seq<TreeView>, s: AssemblyView) -> Seq<Expr>
    decreases trees,
{
    Seq::new(
        trees.len(),
        |i: int|
            if 0 <= i < trees.len() {
                trees[i].denote(s)
            } else {
                Expr::GetException
            },
    )
}

/// The list of expressions has one expression for each tree, in order.
pub proof fn lemma_denote_all(trees: Seq<TreeView>, s: AssemblyView)
    ensures
        denote_all(trees, s).len() == trees.len(),
        forall|i: int| 0 <= i < trees.len() ==> #[trigger] denote_all(trees, s)[i] == trees[i].denote(s),
{
}

/// Whether every tree of a list can be lowered into the store `s`.
pub open spec fn lowerable_all(trees: Seq<TreeView>, s: AssemblyView) -> bool
    decreases trees,
{
    forall|i: int| 0 <= i < trees.len() ==> (#[trigger] trees[i]).lowerable(s)
}

impl TreeView {
    /// The expression that the tree stands for in the store `s`: what
    /// lowering it yields. The store gives the meaning of the graph nodes
    /// that the tree embeds. Every kind of call becomes a call of the
    /// callee, and only a direct call keeps its purity. A volatile mark
    /// sets the flag of the load that it wraps. For a tree that cannot be
    /// lowered the result says nothing.
    pub open spec fn denote(self, s: AssemblyView) -> Expr
        decreases self,
    {
        match self {
            TreeView::Graph(node) => s.expr_at(node),
            TreeView::Local(n) => Expr::LdLoc(n),
            TreeView::Opaque(inner) => (*inner).denote(s),
            TreeView::FloatCast { input, target, is_signed } => Expr::FloatCast {
                input: Box::new((*input).denote(s)),
                target,
                is_signed,
            },
            TreeView::Load { ptr, tpe } => Expr::LdInd {
                addr: Box::new((*ptr).denote(s)),
                tpe,
                volatile: false,
            },
            TreeView::FieldAddress { addr, field } => Expr::LdFieldAddress {
                addr: Box::new((*addr).denote(s)),
                field,
            },
            TreeView::Field { addr, field } => Expr::LdField {
                addr: Box::new((*addr).denote(s)),
                field,
            },
            TreeView::BinOp(lhs, rhs, op) => Expr::BinOp(
                Box::new((*lhs).denote(s)),
                Box::new((*rhs).denote(s)),
                op,
            ),
            TreeView::Call { how, site, args, is_pure } => Expr::Call {
                site,
                args: denote_all(args, s),
                is_pure: if how is Direct {
                    is_pure
                } else {
                    IsPure(false)
                },
            },
            TreeView::IntCast { input, target, extend } => Expr::IntCast {
                input: Box::new((*input).denote(s)),
                target,
                extend,
            },
            TreeView::RefToPtr(inner) => Expr::RefToPtr(Box::new((*inner).denote(s))),
            TreeView::UnOp(inner, op) => Expr::UnOp(Box::new((*inner).denote(s)), op),
            TreeView::FnPtr(site) => Expr::LdFtn(site),
            TreeView::TypeToken(tpe) => Expr::LdTypeToken(tpe),
            TreeView::Str(text) => Expr::Str(text),
            TreeView::CallI { sig, ptr, args } => Expr::CallI {
                ptr: Box::new((*ptr).denote(s)),
                sig,
                args: denote_all(args, s),
            },
            TreeView::Len(arr) => Expr::LdLen(Box::new((*arr).denote(s))),
            TreeView::Elem { arr, idx } => Expr::LdElelemRef {
                array: Box::new((*arr).denote(s)),
                index: Box::new((*idx).denote(s)),
            },
            TreeView::CastPtr { val, new_ptr } => match PtrCastRes::of_type_spec(new_ptr) {
                Some(res) => Expr::PtrCast(Box::new((*val).denote(s)), res),
                None => (*val).denote(s),
            },
            TreeView::AllocAligned { tpe, align } => Expr::LocAllocAlgined { tpe, align },
            TreeView::Alloc { size } => Expr::LocAlloc { size: Box::new((*size).denote(s)) },
            TreeView::Exception => Expr::GetException,
            TreeView::CheckedCast { val, class } => Expr::CheckedCast(
                Box::new((*val).denote(s)),
                Type::ClassRef(class),
            ),
            TreeView::IsInst { val, class } => Expr::IsInst(
                Box::new((*val).denote(s)),
                Type::ClassRef(class),
            ),
            TreeView::Volatile(inner) => match (*inner).denote(s) {
                Expr::LdInd { addr, tpe, volatile } => Expr::LdInd { addr, tpe, volatile: true },
                other => other,
            },
            TreeView::Unbox { object, tpe } => Expr::UnboxAny {
                object: Box::new((*object).denote(s)),
                tpe,
            },
        }
    }

    /// Whether the tree can be lowered into the store `s`: it has no part
    /// that lowering does not support, every pointer cast in it has a
    /// pointer-like target, every volatile mark in it wraps what lowers to a
    /// load, and every graph node that it embeds is in the store.
    pub open spec fn lowerable(self, s: AssemblyView) -> bool
        decreases self,
    {
        match self {
            TreeView::Graph(node) => s.has_node(node),
            TreeView::Opaque(_) => false,
            TreeView::Local(_) | TreeView::FnPtr(_) | TreeView::TypeToken(_) | TreeView::Str(_)
            | TreeView::AllocAligned { .. } | TreeView::Exception => true,
            TreeView::FloatCast { input, .. } | TreeView::IntCast { input, .. } => (*input).lowerable(s),
            TreeView::Load { ptr, .. } => (*ptr).lowerable(s),
            TreeView::FieldAddress { addr, .. } | TreeView::Field { addr, .. } => (*addr).lowerable(s),
            TreeView::BinOp(lhs, rhs, _) => (*lhs).lowerable(s) && (*rhs).lowerable(s),
            TreeView::Call { args, .. } => lowerable_all(args, s),
            TreeView::RefToPtr(inner) | TreeView::UnOp(inner, _) | TreeView::Len(inner) => (*inner).lowerable(s),
            TreeView::CallI { ptr, args, .. } => (*ptr).lowerable(s) && lowerable_all(args, s),
            TreeView::Elem { arr, idx } => (*arr).lowerable(s) && (*idx).lowerable(s),
            TreeView::CastPtr { val, new_ptr } => new_ptr.is_pointer_like() && (*val).lowerable(s),
            TreeView::Alloc { size } => (*size).lowerable(s),
            TreeView::CheckedCast { val, .. } | TreeView::IsInst { val, .. } => (*val).lowerable(s),
            TreeView::Volatile(inner) => (*inner).lowerable(s) && (*inner).denote(s) is LdInd,
            TreeView::Unbox { object, .. } => (*object).lowerable(s),
        }
    }

    /// A tree that can be lowered into a store can be lowered into every
    /// store that extends it, and stands for the same expression there.
    pub proof fn lemma_stable(self, s1: AssemblyView, s2: AssemblyView)
        requires
            s2.extends(s1),
            self.lowerable(s1),
        ensures
            self.lowerable(s2),
            self.denote(s2) == self.denote(s1),
        decreases self,
    {
        match self {
            TreeView::Graph(_) | TreeView::Opaque(_) | TreeView::Local(_) | TreeView::FnPtr(_)
            | TreeView::TypeToken(_) | TreeView::Str(_) | TreeView::AllocAligned { .. }
            | TreeView::Exception => {},
            TreeView::FloatCast { input, .. } | TreeView::IntCast { input, .. } => {
                (*input).lemma_stable(s1, s2);
            },
            TreeView::Load { ptr, .. } => {
                (*ptr).lemma_stable(s1, s2);
            },
            TreeView::FieldAddress { addr, .. } | TreeView::Field { addr, .. } => {
                (*addr).lemma_stable(s1, s2);
            },
            TreeView::BinOp(lhs, rhs, _) => {
                (*lhs).lemma_stable(s1, s2);
                (*rhs).lemma_stable(s1, s2);
            },
            TreeView::Call { args, .. } => {
                lemma_stable_all(args, s1, s2);
            },
            TreeView::RefToPtr(inner) | TreeView::UnOp(inner, _) | TreeView::Len(inner)
            | TreeView::Volatile(inner) => {
                (*inner).lemma_stable(s1, s2);
            },
            TreeView::CallI { ptr, args, .. } => {
                (*ptr).lemma_stable(s1, s2);
                lemma_stable_all(args, s1, s2);
            },
            TreeView::Elem { arr, idx } => {
                (*arr).lemma_stable(s1, s2);
                (*idx).lemma_stable(s1, s2);
            },
            TreeView::CastPtr { val, .. } => {
                (*val).lemma_stable(s1, s2);
            },
            TreeView::Alloc { size } => {
                (*size).lemma_stable(s1, s2);
            },
            TreeView::CheckedCast { val, .. } | TreeView::IsInst { val, .. } => {
                (*val).lemma_stable(s1, s2);
            },
            TreeView::Unbox { object, .. } => {
                (*object).lemma_stable(s1, s2);
            },
        }
    }

    /// A volatile mark around a load stands for the load with its flag set,
    /// and can be lowered wherever the load can; around anything else it
    /// cannot be lowered.
    pub proof fn lemma_volatile(self, s: AssemblyView)
        ensures
            TreeView::Volatile(Box::new(self)).lowerable(s) <==> self.lowerable(s) && self.denote(
                s,
            ) is LdInd,
            self.denote(s) matches Expr::LdInd { addr, tpe, volatile } ==> TreeView::Volatile(
                Box::new(self),
            ).denote(s) == (Expr::LdInd { addr, tpe, volatile: true }),
            (TreeView::Load { ptr: Box::new(self), tpe: Type::Bool }).denote(s) is LdInd,
    {
    }
}

/// Lists of trees that can be lowered into a store can be lowered into every
/// store that extends it, and stand for the same expressions there.
pub proof fn lemma_stable_all(trees: Seq<TreeView>, s1: AssemblyView, s2: AssemblyView)
    requires
        s2.extends(s1),
        lowerable_all(trees, s1),
    ensures
        lowerable_all(trees, s2),
        denote_all(trees, s2) == denote_all(trees, s1),
    decreases trees,
{
    assert forall|i: int| 0 <= i < trees.len() implies (#[trigger] trees[i]).lowerable(s2)
        && trees[i].denote(s2) == trees[i].denote(s1) by {
        trees[i].lemma_stable(s1, s2);
    }
    assert(denote_all(trees, s2) =~= denote_all(trees, s1));
}

impl V1Node {
    /// The binary operation that the tree applies at its root, if it is one
    /// of the binary-operation variants.
    pub open spec fn bin_op_spec(self) -> Option<BinOp> {
        match self@ {
            TreeView::BinOp(_, _, op) => Some(op),
            _ => None,
        }
    }

    pub fn bin_op(&self) -> (r: Option<BinOp>)
        ensures
            r == self.bin_op_spec(),
    {
        reveal(V1Node::model);
        match self {
            V1Node::Add(_, _) => Some(BinOp::Add),
            V1Node::And(_, _) => Some(BinOp::And),
            V1Node::Sub(_, _) => Some(BinOp::Sub),
            V1Node::Mul(_, _) => Some(BinOp::Mul),
            V1Node::Div(_, _) => Some(BinOp::Div),
            V1Node::DivUn(_, _) => Some(BinOp::DivUn),
            V1Node::Rem(_, _) => Some(BinOp::Rem),
            V1Node::RemUn(_, _) => Some(BinOp::RemUn),
            V1Node::Or(_, _) => Some(BinOp::Or),
            V1Node::XOr(_, _) => Some(BinOp::XOr),
            V1Node::Shr(_, _) => Some(BinOp::Shr),
            V1Node::Shl(_, _) => Some(BinOp::Shl),
            V1Node::ShrUn(_, _) => Some(BinOp::ShrUn),
            V1Node::Eq(_, _) => Some(BinOp::Eq),
            V1Node::Lt(_, _) => Some(BinOp::Lt),
            V1Node::LtUn(_, _) => Some(BinOp::LtUn),
            V1Node::Gt(_, _) => Some(BinOp::Gt),
            V1Node::GtUn(_, _) => Some(BinOp::GtUn),
            _ => None,
        }
    }

    /// The tree that applies the binary operation `op` to two operands.
    pub fn binary(op: BinOp, lhs: V1Node, rhs: V1Node) -> (r: V1Node)
        ensures
            r@ == TreeView::BinOp(Box::new(lhs@), Box::new(rhs@), op),
    {
        reveal(V1Node::model);
        let lhs = Box::new(lhs);
        let rhs = Box::new(rhs);
        match op {
            BinOp::Add => V1Node::Add(lhs, rhs),
            BinOp::And => V1Node::And(lhs, rhs),
            BinOp::Sub => V1Node::Sub(lhs, rhs),
            BinOp::Mul => V1Node::Mul(lhs, rhs),
            BinOp::Div => V1Node::Div(lhs, rhs),
            BinOp::DivUn => V1Node::DivUn(lhs, rhs),
            BinOp::Rem => V1Node::Rem(lhs, rhs),
            BinOp::RemUn => V1Node::RemUn(lhs, rhs),
            BinOp::Or => V1Node::Or(lhs, rhs),
            BinOp::XOr => V1Node::XOr(lhs, rhs),
            BinOp::Shr => V1Node::Shr(lhs, rhs),
            BinOp::Shl => V1Node::Shl(lhs, rhs),
            BinOp::ShrUn => V1Node::ShrUn(lhs, rhs),
            BinOp::Eq => V1Node::Eq(lhs, rhs),
            BinOp::Lt => V1Node::Lt(lhs, rhs),
            BinOp::LtUn => V1Node::LtUn(lhs, rhs),
            BinOp::Gt => V1Node::Gt(lhs, rhs),
            BinOp::GtUn => V1Node::GtUn(lhs, rhs),
        }
    }

    /// The tree that is the node `node` of the graph form.
    pub fn graph(node: Interned<CILNode>) -> (r: V1Node)
        ensures
            r@ == TreeView::Graph(node),
    {
        reveal(V1Node::model);
        V1Node::V2(node)
    }

    /// The tree that loads the field `field` of the object at `addr`.
    pub fn load_field(addr: V1Node, field: Interned<FieldDesc>) -> (r: V1Node)
        ensures
            r@ == (TreeView::Field { addr: Box::new(addr@), field }),
    {
        reveal(V1Node::model);
        V1Node::LDField { addr: Box::new(addr), field }
    }

    /// The tree that loads an object of type `obj` from the address `ptr`.
    pub fn load_object(ptr: V1Node, obj: Type) -> (r: V1Node)
        ensures
            r@ == (TreeView::Load { ptr: Box::new(ptr@), tpe: obj }),
    {
        reveal(V1Node::model);
        V1Node::LdObj { ptr: Box::new(ptr), obj: Box::new(obj) }
    }

    /// The tree that converts a value to a floating-point number of 32 or
    /// of 64 bits, reading the value as signed.
    pub fn float_cast(target: Float, operand: V1Node) -> (r: V1Node)
        requires
            target is F32 || target is F64,
        ensures
            r@ == (TreeView::FloatCast { input: Box::new(operand@), target, is_signed: true }),
    {
        reveal(V1Node::model);
        match target {
            Float::F32 => V1Node::ConvF32(Box::new(operand)),
            _ => V1Node::ConvF64(Box::new(operand)),
        }
    }

    /// The tree that turns a managed reference into an unmanaged pointer.
    pub fn ref_to_raw(inner: V1Node) -> (r: V1Node)
        ensures
            r@ == TreeView::RefToPtr(Box::new(inner@)),
    {
        reveal(V1Node::model);
        V1Node::MRefToRawPtr(Box::new(inner))
    }

    /// The tree that is the string constant `text`.
    pub fn string(text: &str) -> (r: V1Node)
        ensures
            r@ == TreeView::Str(text@),
    {
        reveal(V1Node::model);
        V1Node::LdStr(String::from_str(text))
    }

    /// The tree that is the pointer to the function `site`.
    pub fn fn_pointer(site: Interned<MethodRef>) -> (r: V1Node)
        ensures
            r@ == TreeView::FnPtr(site),
    {
        reveal(V1Node::model);
        V1Node::LDFtn(site)
    }

    /// The tree that calls `site` on the given arguments, in the given way.
    pub fn call_of(how: CallKind, site: Interned<MethodRef>, args: Vec<V1Node>, is_pure: IsPure) -> (r:
        V1Node)
        ensures
            r@ == (TreeView::Call { how, site, args: view_all(args@), is_pure }),
    {
        reveal(V1Node::model);
        let call = Box::new(CallOpArgs { args, site, is_pure });
        match how {
            CallKind::Direct => V1Node::Call(call),
            CallKind::Virtual => V1Node::CallVirt(call),
            CallKind::Construct => V1Node::NewObj(call),
        }
    }

    /// The tree that casts an operand to the integer type `target`, which
    /// is not 128 bits wide, extending by the sign for a signed type and
    /// with zeros for an unsigned one.
    pub fn int_cast(target: Int, operand: V1Node) -> (r: V1Node)
        requires
            !target.is_wide(),
        ensures
            r@ == (TreeView::IntCast {
                input: Box::new(operand@),
                target,
                extend: if target.is_signed() {
                    ExtendKind::SignExtend
                } else {
                    ExtendKind::ZeroExtend
                },
            }),
    {
        reveal(V1Node::model);
        let inner = Box::new(operand);
        match target {
            Int::I8 => V1Node::ConvI8(inner),
            Int::U8 => V1Node::ConvU8(inner),
            Int::I16 => V1Node::ConvI16(inner),
            Int::U16 => V1Node::ConvU16(inner),
            Int::I32 => V1Node::ConvI32(inner),
            Int::U32 => V1Node::ConvU32(inner),
            Int::I64 => V1Node::SignExtendToI64(inner),
            Int::U64 => V1Node::ZeroExtendToU64(inner),
            Int::ISize => V1Node::SignExtendToISize(inner),
            _ => V1Node::ZeroExtendToUSize(inner),
        }
    }

    /// The value with its pointer type changed to `new_ptr`, which has to
    /// be pointer-like.
    pub fn cast_ptr(self, new_ptr: Type) -> (r: Self)
        requires
            new_ptr.is_pointer_like(),
        ensures
            r@ == (TreeView::CastPtr { val: Box::new(self@), new_ptr }),
    {
        reveal(V1Node::model);
        V1Node::CastPtr { val: Box::new(self), new_ptr: Box::new(new_ptr) }
    }

    /// The tree with its variant resolved into the shape that it has in the
    /// model, and its operands borrowed.
    #[verifier::rlimit(50)]
    pub fn shape(&self) -> (r: Shape<'_>)
        ensures
            r@ == self@,
    {
        reveal(V1Node::model);
        match self {
            V1Node::V2(node) => {
                return Shape::Graph(*node);
            },
            V1Node::LDLoc(n) => {
                return Shape::Local(*n);
            },
            V1Node::BlackBox(inner) => {
                return Shape::Opaque(inner);
            },
            V1Node::ConvF32(inner) => {
                return Shape::FloatCast { input: inner, target: Float::F32, is_signed: true };
            },
            V1Node::ConvF64(inner) => {
                return Shape::FloatCast { input: inner, target: Float::F64, is_signed: true };
            },
            V1Node::ConvF64Un(inner) => {
                return Shape::FloatCast { input: inner, target: Float::F64, is_signed: false };
            },
            V1Node::LDIndI8 { ptr } => {
                return Shape::Load { ptr, tpe: Type::Int(Int::I8) };
            },
            V1Node::LDIndBool { ptr } => {
                return Shape::Load { ptr, tpe: Type::Bool };
            },
            V1Node::LDIndI16 { ptr } => {
                return Shape::Load { ptr, tpe: Type::Int(Int::I16) };
            },
            V1Node::LDIndI32 { ptr } => {
                return Shape::Load { ptr, tpe: Type::Int(Int::I32) };
            },
            V1Node::LDIndI64 { ptr } => {
                return Shape::Load { ptr, tpe: Type::Int(Int::I64) };
            },
            V1Node::LDIndISize { ptr } => {
                return Shape::Load { ptr, tpe: Type::Int(Int::ISize) };
            },
            V1Node::LDIndPtr { ptr, loaded_ptr } => {
                return Shape::Load { ptr, tpe: **loaded_ptr };
            },
            V1Node::LDIndUSize { ptr } => {
                return Shape::Load { ptr, tpe: Type::Int(Int::USize) };
            },
            V1Node::LdObj { ptr, obj } => {
                return Shape::Load { ptr, tpe: **obj };
            },
            V1Node::LDIndF32 { ptr } => {
                return Shape::Load { ptr, tpe: Type::Float(Float::F32) };
            },
            V1Node::LDIndF64 { ptr } => {
                return Shape::Load { ptr, tpe: Type::Float(Float::F64) };
            },
            V1Node::LDFieldAdress { addr, field } => {
                return Shape::FieldAddress { addr, field: *field };
            },
            V1Node::LDField { addr, field } => {
                return Shape::Field { addr, field: *field };
            },
            V1Node::Add(lhs, rhs) => {
                return Shape::BinOp(lhs, rhs, BinOp::Add);
            },
            V1Node::And(lhs, rhs) => {
                return Shape::BinOp(lhs, rhs, BinOp::And);
            },
            V1Node::Sub(lhs, rhs) => {
                return Shape::BinOp(lhs, rhs, BinOp::Sub);
            },
            V1Node::Mul(lhs, rhs) => {
                return Shape::BinOp(lhs, rhs, BinOp::Mul);
            },
            V1Node::Div(lhs, rhs) => {
                return Shape::BinOp(lhs, rhs, BinOp::Div);
            },
            V1Node::DivUn(lhs, rhs) => {
                return Shape::BinOp(lhs, rhs, BinOp::DivUn);
            },
            V1Node::Rem(lhs, rhs) => {
                return Shape::BinOp(lhs, rhs, BinOp::Rem);
            },
            V1Node::RemUn(lhs, rhs) => {
                return Shape::BinOp(lhs, rhs, BinOp::RemUn);
            },
            V1Node::Or(lhs, rhs) => {
                return Shape::BinOp(lhs, rhs, BinOp::Or);
            },
            V1Node::XOr(lhs, rhs) => {
                return Shape::BinOp(lhs, rhs, BinOp::XOr);
            },
            V1Node::Shr(lhs, rhs) => {
                return Shape::BinOp(lhs, rhs, BinOp::Shr);
            },
            V1Node::Shl(lhs, rhs) => {
                return Shape::BinOp(lhs, rhs, BinOp::Shl);
            },
            V1Node::ShrUn(lhs, rhs) => {
                return Shape::BinOp(lhs, rhs, BinOp::ShrUn);
            },
            V1Node::Call(call) => {
                return Shape::Call { how: CallKind::Direct, site: call.site, args: &call.args, is_pure: call.is_pure };
            },
            V1Node::CallVirt(call) => {
                return Shape::Call { how: CallKind::Virtual, site: call.site, args: &call.args, is_pure: call.is_pure };
            },
            V1Node::ConvU8(inner) => {
                return Shape::IntCast { input: inner, target: Int::U8, extend: ExtendKind::ZeroExtend };
            },
            V1Node::ConvU16(inner) => {
                return Shape::IntCast { input: inner, target: Int::U16, extend: ExtendKind::ZeroExtend };
            },
            V1Node::ConvU32(inner) => {
                return Shape::IntCast { input: inner, target: Int::U32, extend: ExtendKind::ZeroExtend };
            },
            V1Node::ZeroExtendToU64(inner) => {
                return Shape::IntCast { input: inner, target: Int::U64, extend: ExtendKind::ZeroExtend };
            },
            V1Node::ZeroExtendToUSize(inner) => {
                return Shape::IntCast { input: inner, target: Int::USize, extend: ExtendKind::ZeroExtend };
            },
            V1Node::ZeroExtendToISize(inner) => {
                return Shape::IntCast { input: inner, target: Int::ISize, extend: ExtendKind::ZeroExtend };
            },
            V1Node::MRefToRawPtr(inner) => {
                return Shape::RefToPtr(inner);
            },
            V1Node::ConvI8(inner) => {
                return Shape::IntCast { input: inner, target: Int::I8, extend: ExtendKind::SignExtend };
            },
            V1Node::ConvI16(inner) => {
                return Shape::IntCast { input: inner, target: Int::I16, extend: ExtendKind::SignExtend };
            },
            V1Node::ConvI32(inner) => {
                return Shape::IntCast { input: inner, target: Int::I32, extend: ExtendKind::SignExtend };
            },
            V1Node::SignExtendToI64(inner) => {
                return Shape::IntCast { input: inner, target: Int::I64, extend: ExtendKind::SignExtend };
            },
            V1Node::SignExtendToU64(inner) => {
                return Shape::IntCast { input: inner, target: Int::U64, extend: ExtendKind::SignExtend };
            },
            V1Node::SignExtendToISize(inner) => {
                return Shape::IntCast { input: inner, target: Int::ISize, extend: ExtendKind::SignExtend };
            },
            V1Node::SignExtendToUSize(inner) => {
                return Shape::IntCast { input: inner, target: Int::USize, extend: ExtendKind::SignExtend };
            },
            V1Node::Neg(inner) => {
                return Shape::UnOp(inner, UnOp::Neg);
            },
            V1Node::Not(inner) => {
                return Shape::UnOp(inner, UnOp::Not);
            },
            V1Node::Eq(lhs, rhs) => {
                return Shape::BinOp(lhs, rhs, BinOp::Eq);
            },
            V1Node::Lt(lhs, rhs) => {
                return Shape::BinOp(lhs, rhs, BinOp::Lt);
            },
            V1Node::LtUn(lhs, rhs) => {
                return Shape::BinOp(lhs, rhs, BinOp::LtUn);
            },
            V1Node::Gt(lhs, rhs) => {
                return Shape::BinOp(lhs, rhs, BinOp::Gt);
            },
            V1Node::GtUn(lhs, rhs) => {
                return Shape::BinOp(lhs, rhs, BinOp::GtUn);
            },
            V1Node::LDFtn(site) => {
                return Shape::FnPtr(*site);
            },
            V1Node::LDTypeToken(tpe) => {
                return Shape::TypeToken(**tpe);
            },
            V1Node::NewObj(call) => {
                return Shape::Call { how: CallKind::Construct, site: call.site, args: &call.args, is_pure: call.is_pure };
            },
            V1Node::LdStr(text) => {
                return Shape::Str(text);
            },
            V1Node::CallI(call) => {
                return Shape::CallI { sig: &call.0, ptr: &call.1, args: &call.2 };
            },
            V1Node::LDIndU8 { ptr } => {
                return Shape::Load { ptr, tpe: Type::Int(Int::U8) };
            },
            V1Node::LDIndU16 { ptr } => {
                return Shape::Load { ptr, tpe: Type::Int(Int::U16) };
            },
            V1Node::LDIndU32 { ptr } => {
                return Shape::Load { ptr, tpe: Type::Int(Int::U32) };
            },
            V1Node::LDIndU64 { ptr } => {
                return Shape::Load { ptr, tpe: Type::Int(Int::U64) };
            },
            V1Node::LDLen { arr } => {
                return Shape::Len(arr);
            },
            V1Node::LDElelemRef { arr, idx } => {
                return Shape::Elem { arr, idx };
            },
            V1Node::CastPtr { val, new_ptr } => {
                return Shape::CastPtr { val, new_ptr: **new_ptr };
            },
            V1Node::LocAllocAligned { tpe, align } => {
                return Shape::AllocAligned { tpe: **tpe, align: *align };
            },
            V1Node::LocAlloc { size } => {
                return Shape::Alloc { size };
            },
            V1Node::GetException => {
                return Shape::Exception;
            },
            V1Node::CheckedCast(cast) => {
                return Shape::CheckedCast { val: &cast.0, class: cast.1 };
            },
            V1Node::IsInst(cast) => {
                return Shape::IsInst { val: &cast.0, class: cast.1 };
            },
            V1Node::Volatile(inner) => {
                return Shape::Volatile(inner);
            },
            V1Node::UnboxAny(inner, tpe) => {
                return Shape::Unbox { object: inner, tpe: **tpe };
            },
        }
    }
}

/// A tree seen as its model sees it: one variant for each kind of tree,
/// with the operands borrowed from the tree.
pub enum Shape<'a> {
    Graph(Interned<CILNode>),
    Local(u32),
    Opaque(&'a V1Node),
    FloatCast { input: &'a V1Node, target: Float, is_signed: bool },
    Load { ptr: &'a V1Node, tpe: Type },
    FieldAddress { addr: &'a V1Node, field: Interned<FieldDesc> },
    Field { addr: &'a V1Node, field: Interned<FieldDesc> },
    BinOp(&'a V1Node, &'a V1Node, BinOp),
    Call { how: CallKind, site: Interned<MethodRef>, args: &'a Vec<V1Node>, is_pure: IsPure },
    IntCast { input: &'a V1Node, target: Int, extend: ExtendKind },
    RefToPtr(&'a V1Node),
    UnOp(&'a V1Node, UnOp),
    FnPtr(Interned<MethodRef>),
    TypeToken(Type),
    Str(&'a String),
    CallI { sig: &'a FnSig, ptr: &'a V1Node, args: &'a Vec<V1Node> },
    Len(&'a V1Node),
    Elem { arr: &'a V1Node, idx: &'a V1Node },
    CastPtr { val: &'a V1Node, new_ptr: Type },
    AllocAligned { tpe: Type, align: u64 },
    Alloc { size: &'a V1Node },
    Exception,
    CheckedCast { val: &'a V1Node, class: Interned<ClassRef> },
    IsInst { val: &'a V1Node, class: Interned<ClassRef> },
    Volatile(&'a V1Node),
    Unbox { object: &'a V1Node, tpe: Type },
}

impl<'a> Shape<'a> {
    /// The operands of a shape are parts of its model.
    pub proof fn lemma_operands(self)
        ensures
            match self {
                Shape::Opaque(inner) => decreases_to!(self@ => inner@),
                Shape::FloatCast { input, .. } => decreases_to!(self@ => input@),
                Shape::Load { ptr, .. } => decreases_to!(self@ => ptr@),
                Shape::FieldAddress { addr, .. } => decreases_to!(self@ => addr@),
                Shape::Field { addr, .. } => decreases_to!(self@ => addr@),
                Shape::BinOp(lhs, rhs, _) => decreases_to!(self@ => lhs@) && decreases_to!(self@ => rhs@),
                Shape::Call { args, .. } => decreases_to!(self@ => view_all(args@)),
                Shape::IntCast { input, .. } => decreases_to!(self@ => input@),
                Shape::RefToPtr(inner) => decreases_to!(self@ => inner@),
                Shape::UnOp(inner, _) => decreases_to!(self@ => inner@),
                Shape::CallI { ptr, args, .. } => decreases_to!(self@ => ptr@) && decreases_to!(self@ => view_all(args@)),
                Shape::Len(arr) => decreases_to!(self@ => arr@),
                Shape::Elem { arr, idx } => decreases_to!(self@ => arr@) && decreases_to!(self@ => idx@),
                Shape::CastPtr { val, .. } => decreases_to!(self@ => val@),
                Shape::Alloc { size } => decreases_to!(self@ => size@),
                Shape::CheckedCast { val, .. } => decreases_to!(self@ => val@),
                Shape::IsInst { val, .. } => decreases_to!(self@ => val@),
                Shape::Volatile(inner) => decreases_to!(self@ => inner@),
                Shape::Unbox { object, .. } => decreases_to!(self@ => object@),
                _ => true,
            },
    {
        match self {
            Shape::Opaque(inner) => {
                assert(self@->Opaque_0 == Box::new(inner@));
            },
            Shape::FloatCast { input, .. } => {
                assert(self@->FloatCast_input == Box::new(input@));
            },
            Shape::Load { ptr, .. } => {
                assert(self@->Load_ptr == Box::new(ptr@));
            },
            Shape::FieldAddress { addr, .. } => {
                assert(self@->FieldAddress_addr == Box::new(addr@));
            },
            Shape::Field { addr, .. } => {
                assert(self@->Field_addr == Box::new(addr@));
            },
            Shape::BinOp(lhs, rhs, _) => {
                assert(self@->BinOp_0 == Box::new(lhs@));
                assert(self@->BinOp_1 == Box::new(rhs@));
            },
            Shape::Call { args, .. } => {
                assert(self@->Call_args == view_all(args@));
            },
            Shape::IntCast { input, .. } => {
                assert(self@->IntCast_input == Box::new(input@));
            },
            Shape::RefToPtr(inner) => {
                assert(self@->RefToPtr_0 == Box::new(inner@));
            },
            Shape::UnOp(inner, _) => {
                assert(self@->UnOp_0 == Box::new(inner@));
            },
            Shape::CallI { ptr, args, .. } => {
                assert(self@->CallI_ptr == Box::new(ptr@));
                assert(self@->CallI_args == view_all(args@));
            },
            Shape::Len(arr) => {
                assert(self@->Len_0 == Box::new(arr@));
            },
            Shape::Elem { arr, idx } => {
                assert(self@->Elem_arr == Box::new(arr@));
                assert(self@->Elem_idx == Box::new(idx@));
            },
            Shape::CastPtr { val, .. } => {
                assert(self@->CastPtr_val == Box::new(val@));
            },
            Shape::Alloc { size } => {
                assert(self@->Alloc_size == Box::new(size@));
            },
            Shape::CheckedCast { val, .. } => {
                assert(self@->CheckedCast_val == Box::new(val@));
            },
            Shape::IsInst { val, .. } => {
                assert(self@->IsInst_val == Box::new(val@));
            },
            Shape::Volatile(inner) => {
                assert(self@->Volatile_0 == Box::new(inner@));
            },
            Shape::Unbox { object, .. } => {
                assert(self@->Unbox_object == Box::new(object@));
            },
            _ => {},
        }
    }
}

impl<'a> View for Shape<'a> {
    type V = TreeView;

    open spec fn view(&self) -> TreeView {
        match *self {
            Shape::Graph(node) => TreeView::Graph(node),
            Shape::Local(n) => TreeView::Local(n),
            Shape::Opaque(inner) => TreeView::Opaque(Box::new(inner@)),
            Shape::FloatCast { input, target, is_signed } => TreeView::FloatCast {
                input: Box::new(input@),
                target,
                is_signed,
            },
            Shape::Load { ptr, tpe } => TreeView::Load { ptr: Box::new(ptr@), tpe },
            Shape::FieldAddress { addr, field } => TreeView::FieldAddress {
                addr: Box::new(addr@),
                field,
            },
            Shape::Field { addr, field } => TreeView::Field { addr: Box::new(addr@), field },
            Shape::BinOp(lhs, rhs, op) => TreeView::BinOp(Box::new(lhs@), Box::new(rhs@), op),
            Shape::Call { how, site, args, is_pure } => TreeView::Call {
                how,
                site,
                args: view_all(args@),
                is_pure,
            },
            Shape::IntCast { input, target, extend } => TreeView::IntCast {
                input: Box::new(input@),
                target,
                extend,
            },
            Shape::RefToPtr(inner) => TreeView::RefToPtr(Box::new(inner@)),
            Shape::UnOp(inner, op) => TreeView::UnOp(Box::new(inner@), op),
            Shape::FnPtr(site) => TreeView::FnPtr(site),
            Shape::TypeToken(tpe) => TreeView::TypeToken(tpe),
            Shape::Str(text) => TreeView::Str(text@),
            Shape::CallI { sig, ptr, args } => TreeView::CallI {
                sig: sig@,
                ptr: Box::new(ptr@),
                args: view_all(args@),
            },
            Shape::Len(arr) => TreeView::Len(Box::new(arr@)),
            Shape::Elem { arr, idx } => TreeView::Elem { arr: Box::new(arr@), idx: Box::new(idx@) },
            Shape::CastPtr { val, new_ptr } => TreeView::CastPtr { val: Box::new(val@), new_ptr },
            Shape::AllocAligned { tpe, align } => TreeView::AllocAligned { tpe, align },
            Shape::Alloc { size } => TreeView::Alloc { size: Box::new(size@) },
            Shape::Exception => TreeView::Exception,
            Shape::CheckedCast { val, class } => TreeView::CheckedCast { val: Box::new(val@), class },
            Shape::IsInst { val, class } => TreeView::IsInst { val: Box::new(val@), class },
            Shape::Volatile(inner) => TreeView::Volatile(Box::new(inner@)),
            Shape::Unbox { object, tpe } => TreeView::Unbox { object: Box::new(object@), tpe },
        }
    }
}

/// A copy of a list of trees.
pub fn copy_trees(trees: &Vec<V1Node>) -> (r: Vec<V1Node>)
    ensures
        view_all(r@) == view_all(trees@),
        r@.len() == trees@.len(),
    decreases trees, 0int,
{
    let mut out: Vec<V1Node> = Vec::new();
    let mut i: usize = 0;
    while i < trees.len()
        invariant
            i <= trees@.len(),
            out@.len() == i,
            forall|j: int| 0 <= j < i ==> (#[trigger] out@[j])@ == trees@[j]@,
        decreases trees@.len() - i,
    {
        proof {
            assert(decreases_to!(*trees => trees[i as int]));
        }
        out.push(trees[i].duplicate());
        i += 1;
    }
    proof {
        lemma_view_all(out@);
        lemma_view_all(trees@);
        assert(view_all(out@) =~= view_all(trees@));
    }
    out
}

impl CallOpArgs {
    /// A copy of the call: the same callee and purity, and a copy of each
    /// argument.
    pub fn duplicate(&self) -> (r: Self)
        ensures
            r.site == self.site,
            r.is_pure == self.is_pure,
            view_all(r.args@) == view_all(self.args@),
            r.args@.len() == self.args@.len(),
        decreases self, 0int,
    {
        CallOpArgs { args: copy_trees(&self.args), site: self.site, is_pure: self.is_pure }
    }
}

impl Clone for CallOpArgs {
    fn clone(&self) -> (r: Self)
        ensures
            r.site == self.site,
            r.is_pure == self.is_pure,
            view_all(r.args@) == view_all(self.args@),
    {
        self.duplicate()
    }
}

impl Clone for V1Node {
    fn clone(&self) -> (r: Self)
        ensures
            r@ == self@,
    {
        self.duplicate()
    }
}

impl V1Node {
    /// A copy of the tree.
    #[verifier::rlimit(50)]
    pub fn duplicate(&self) -> (r: Self)
        ensures
            r@ == self@,
        decreases self, 0int,
    {
        reveal(V1Node::model);
        match self {
            V1Node::V2(node) => {
                return V1Node::V2(*node);
            },
            V1Node::LDLoc(n) => {
                return V1Node::LDLoc(*n);
            },
            V1Node::BlackBox(inner) => {
                return V1Node::BlackBox(Box::new((**inner).duplicate()));
            },
            V1Node::ConvF32(inner) => {
                return V1Node::ConvF32(Box::new((**inner).duplicate()));
            },
            V1Node::ConvF64(inner) => {
                return V1Node::ConvF64(Box::new((**inner).duplicate()));
            },
            V1Node::ConvF64Un(inner) => {
                return V1Node::ConvF64Un(Box::new((**inner).duplicate()));
            },
            V1Node::LDIndI8 { ptr } => {
                return V1Node::LDIndI8 { ptr: Box::new((**ptr).duplicate()) };
            },
            V1Node::LDIndBool { ptr } => {
                return V1Node::LDIndBool { ptr: Box::new((**ptr).duplicate()) };
            },
            V1Node::LDIndI16 { ptr } => {
                return V1Node::LDIndI16 { ptr: Box::new((**ptr).duplicate()) };
            },
            V1Node::LDIndI32 { ptr } => {
                return V1Node::LDIndI32 { ptr: Box::new((**ptr).duplicate()) };
            },
            V1Node::LDIndI64 { ptr } => {
                return V1Node::LDIndI64 { ptr: Box::new((**ptr).duplicate()) };
            },
            V1Node::LDIndISize { ptr } => {
                return V1Node::LDIndISize { ptr: Box::new((**ptr).duplicate()) };
            },
            V1Node::LDIndPtr { ptr, loaded_ptr } => {
                return V1Node::LDIndPtr { ptr: Box::new((**ptr).duplicate()), loaded_ptr: Box::new(**loaded_ptr) };
            },
            V1Node::LDIndUSize { ptr } => {
                return V1Node::LDIndUSize { ptr: Box::new((**ptr).duplicate()) };
            },
            V1Node::LdObj { ptr, obj } => {
                return V1Node::LdObj { ptr: Box::new((**ptr).duplicate()), obj: Box::new(**obj) };
            },
            V1Node::LDIndF32 { ptr } => {
                return V1Node::LDIndF32 { ptr: Box::new((**ptr).duplicate()) };
            },
            V1Node::LDIndF64 { ptr } => {
                return V1Node::LDIndF64 { ptr: Box::new((**ptr).duplicate()) };
            },
            V1Node::LDFieldAdress { addr, field } => {
                return V1Node::LDFieldAdress { addr: Box::new((**addr).duplicate()), field: *field };
            },
            V1Node::LDField { addr, field } => {
                return V1Node::LDField { addr: Box::new((**addr).duplicate()), field: *field };
            },
            V1Node::Add(lhs, rhs) => {
                return V1Node::Add(Box::new((**lhs).duplicate()), Box::new((**rhs).duplicate()));
            },
            V1Node::And(lhs, rhs) => {
                return V1Node::And(Box::new((**lhs).duplicate()), Box::new((**rhs).duplicate()));
            },
            V1Node::Sub(lhs, rhs) => {
                return V1Node::Sub(Box::new((**lhs).duplicate()), Box::new((**rhs).duplicate()));
            },
            V1Node::Mul(lhs, rhs) => {
                return V1Node::Mul(Box::new((**lhs).duplicate()), Box::new((**rhs).duplicate()));
            },
            V1Node::Div(lhs, rhs) => {
                return V1Node::Div(Box::new((**lhs).duplicate()), Box::new((**rhs).duplicate()));
            },
            V1Node::DivUn(lhs, rhs) => {
                return V1Node::DivUn(Box::new((**lhs).duplicate()), Box::new((**rhs).duplicate()));
            },
            V1Node::Rem(lhs, rhs) => {
                return V1Node::Rem(Box::new((**lhs).duplicate()), Box::new((**rhs).duplicate()));
            },
            V1Node::RemUn(lhs, rhs) => {
                return V1Node::RemUn(Box::new((**lhs).duplicate()), Box::new((**rhs).duplicate()));
            },
            V1Node::Or(lhs, rhs) => {
                return V1Node::Or(Box::new((**lhs).duplicate()), Box::new((**rhs).duplicate()));
            },
            V1Node::XOr(lhs, rhs) => {
                return V1Node::XOr(Box::new((**lhs).duplicate()), Box::new((**rhs).duplicate()));
            },
            V1Node::Shr(lhs, rhs) => {
                return V1Node::Shr(Box::new((**lhs).duplicate()), Box::new((**rhs).duplicate()));
            },
            V1Node::Shl(lhs, rhs) => {
                return V1Node::Shl(Box::new((**lhs).duplicate()), Box::new((**rhs).duplicate()));
            },
            V1Node::ShrUn(lhs, rhs) => {
                return V1Node::ShrUn(Box::new((**lhs).duplicate()), Box::new((**rhs).duplicate()));
            },
            V1Node::Call(call) => {
                return V1Node::Call(Box::new((**call).duplicate()));
            },
            V1Node::CallVirt(call) => {
                return V1Node::CallVirt(Box::new((**call).duplicate()));
            },
            V1Node::ConvU8(inner) => {
                return V1Node::ConvU8(Box::new((**inner).duplicate()));
            },
            V1Node::ConvU16(inner) => {
                return V1Node::ConvU16(Box::new((**inner).duplicate()));
            },
            V1Node::ConvU32(inner) => {
                return V1Node::ConvU32(Box::new((**inner).duplicate()));
            },
            V1Node::ZeroExtendToU64(inner) => {
                return V1Node::ZeroExtendToU64(Box::new((**inner).duplicate()));
            },
            V1Node::ZeroExtendToUSize(inner) => {
                return V1Node::ZeroExtendToUSize(Box::new((**inner).duplicate()));
            },
            V1Node::ZeroExtendToISize(inner) => {
                return V1Node::ZeroExtendToISize(Box::new((**inner).duplicate()));
            },
            V1Node::MRefToRawPtr(inner) => {
                return V1Node::MRefToRawPtr(Box::new((**inner).duplicate()));
            },
            V1Node::ConvI8(inner) => {
                return V1Node::ConvI8(Box::new((**inner).duplicate()));
            },
            V1Node::ConvI16(inner) => {
                return V1Node::ConvI16(Box::new((**inner).duplicate()));
            },
            V1Node::ConvI32(inner) => {
                return V1Node::ConvI32(Box::new((**inner).duplicate()));
            },
            V1Node::SignExtendToI64(inner) => {
                return V1Node::SignExtendToI64(Box::new((**inner).duplicate()));
            },
            V1Node::SignExtendToU64(inner) => {
                return V1Node::SignExtendToU64(Box::new((**inner).duplicate()));
            },
            V1Node::SignExtendToISize(inner) => {
                return V1Node::SignExtendToISize(Box::new((**inner).duplicate()));
            },
            V1Node::SignExtendToUSize(inner) => {
                return V1Node::SignExtendToUSize(Box::new((**inner).duplicate()));
            },
            V1Node::Neg(inner) => {
                return V1Node::Neg(Box::new((**inner).duplicate()));
            },
            V1Node::Not(inner) => {
                return V1Node::Not(Box::new((**inner).duplicate()));
            },
            V1Node::Eq(lhs, rhs) => {
                return V1Node::Eq(Box::new((**lhs).duplicate()), Box::new((**rhs).duplicate()));
            },
            V1Node::Lt(lhs, rhs) => {
                return V1Node::Lt(Box::new((**lhs).duplicate()), Box::new((**rhs).duplicate()));
            },
            V1Node::LtUn(lhs, rhs) => {
                return V1Node::LtUn(Box::new((**lhs).duplicate()), Box::new((**rhs).duplicate()));
            },
            V1Node::Gt(lhs, rhs) => {
                return V1Node::Gt(Box::new((**lhs).duplicate()), Box::new((**rhs).duplicate()));
            },
            V1Node::GtUn(lhs, rhs) => {
                return V1Node::GtUn(Box::new((**lhs).duplicate()), Box::new((**rhs).duplicate()));
            },
            V1Node::LDFtn(site) => {
                return V1Node::LDFtn(*site);
            },
            V1Node::LDTypeToken(tpe) => {
                return V1Node::LDTypeToken(Box::new(**tpe));
            },
            V1Node::NewObj(call) => {
                return V1Node::NewObj(Box::new((**call).duplicate()));
            },
            V1Node::LdStr(text) => {
                return V1Node::LdStr(text.clone());
            },
            V1Node::CallI(call) => {
                return V1Node::CallI(Box::new((call.0.clone(), call.1.duplicate(), copy_trees(&call.2))));
            },
            V1Node::LDIndU8 { ptr } => {
                return V1Node::LDIndU8 { ptr: Box::new((**ptr).duplicate()) };
            },
            V1Node::LDIndU16 { ptr } => {
                return V1Node::LDIndU16 { ptr: Box::new((**ptr).duplicate()) };
            },
            V1Node::LDIndU32 { ptr } => {
                return V1Node::LDIndU32 { ptr: Box::new((**ptr).duplicate()) };
            },
            V1Node::LDIndU64 { ptr } => {
                return V1Node::LDIndU64 { ptr: Box::new((**ptr).duplicate()) };
            },
            V1Node::LDLen { arr } => {
                return V1Node::LDLen { arr: Box::new((**arr).duplicate()) };
            },
            V1Node::LDElelemRef { arr, idx } => {
                return V1Node::LDElelemRef { arr: Box::new((**arr).duplicate()), idx: Box::new((**idx).duplicate()) };
            },
            V1Node::CastPtr { val, new_ptr } => {
                return V1Node::CastPtr { val: Box::new((**val).duplicate()), new_ptr: Box::new(**new_ptr) };
            },
            V1Node::LocAllocAligned { tpe, align } => {
                return V1Node::LocAllocAligned { tpe: Box::new(**tpe), align: *align };
            },
            V1Node::LocAlloc { size } => {
                return V1Node::LocAlloc { size: Box::new((**size).duplicate()) };
            },
            V1Node::GetException => {
                return V1Node::GetException;
            },
            V1Node::CheckedCast(cast) => {
                return V1Node::CheckedCast(Box::new((cast.0.duplicate(), cast.1)));
            },
            V1Node::IsInst(cast) => {
                return V1Node::IsInst(Box::new((cast.0.duplicate(), cast.1)));
            },
            V1Node::Volatile(inner) => {
                return V1Node::Volatile(Box::new((**inner).duplicate()));
            },
            V1Node::UnboxAny(inner, tpe) => {
                return V1Node::UnboxAny(Box::new((**inner).duplicate()), Box::new(**tpe));
            },
        }
    }
}

} // verus!
