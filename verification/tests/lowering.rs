use cilly::assembly::Assembly;
use cilly::cil_node::{CallOpArgs, V1Node};
use cilly::cilnode::{BinOp, CILNode, ExtendKind, IsPure, PtrCastRes, UnOp};
use cilly::cst::Const;
use cilly::fn_sig::FnSig;
use cilly::interned::Interned;
use cilly::lowerable::LowerError;
use cilly::tpe::{Float, Int, Type};

fn loc(n: u32) -> Box<V1Node> {
    Box::new(V1Node::LDLoc(n))
}

#[test]
fn comparing_two_locals_lowers_to_one_binary_operation() {
    let mut store = Assembly::new();
    let tree = V1Node::Eq(loc(0), loc(1));
    assert_eq!(tree.check_lowerable(&store), Ok(()));
    let node = CILNode::from_v1(&tree, &mut store);
    match node {
        CILNode::BinOp(lhs, rhs, op) => {
            assert_eq!(op, BinOp::Eq);
            assert_eq!(store.get_node(lhs), &CILNode::LdLoc(0));
            assert_eq!(store.get_node(rhs), &CILNode::LdLoc(1));
        }
        other => panic!("not a binary operation: {:?}", other),
    }
    assert_eq!(store.nodes_len(), 2);
}

fn lowered_op(tree: V1Node) -> BinOp {
    let mut store = Assembly::new();
    assert_eq!(tree.bin_op(), match &tree {
        V1Node::LDLoc(_) => None,
        _ => tree.bin_op(),
    });
    let node = CILNode::from_v1(&tree, &mut store);
    match node {
        CILNode::BinOp(lhs, rhs, op) => {
            assert_eq!(store.get_node(lhs), &CILNode::LdLoc(3));
            assert_eq!(store.get_node(rhs), &CILNode::LdLoc(4));
            assert_eq!(tree.bin_op(), Some(op));
            op
        }
        other => panic!("not a binary operation: {:?}", other),
    }
}

#[test]
fn every_binary_variant_lowers_to_its_operation() {
    assert_eq!(lowered_op(V1Node::Add(loc(3), loc(4))), BinOp::Add);
    assert_eq!(lowered_op(V1Node::And(loc(3), loc(4))), BinOp::And);
    assert_eq!(lowered_op(V1Node::Sub(loc(3), loc(4))), BinOp::Sub);
    assert_eq!(lowered_op(V1Node::Mul(loc(3), loc(4))), BinOp::Mul);
    assert_eq!(lowered_op(V1Node::Div(loc(3), loc(4))), BinOp::Div);
    assert_eq!(lowered_op(V1Node::DivUn(loc(3), loc(4))), BinOp::DivUn);
    assert_eq!(lowered_op(V1Node::Rem(loc(3), loc(4))), BinOp::Rem);
    assert_eq!(lowered_op(V1Node::RemUn(loc(3), loc(4))), BinOp::RemUn);
    assert_eq!(lowered_op(V1Node::Or(loc(3), loc(4))), BinOp::Or);
    assert_eq!(lowered_op(V1Node::XOr(loc(3), loc(4))), BinOp::XOr);
    assert_eq!(lowered_op(V1Node::Shr(loc(3), loc(4))), BinOp::Shr);
    assert_eq!(lowered_op(V1Node::Shl(loc(3), loc(4))), BinOp::Shl);
    assert_eq!(lowered_op(V1Node::ShrUn(loc(3), loc(4))), BinOp::ShrUn);
    assert_eq!(lowered_op(V1Node::Eq(loc(3), loc(4))), BinOp::Eq);
    assert_eq!(lowered_op(V1Node::Lt(loc(3), loc(4))), BinOp::Lt);
    assert_eq!(lowered_op(V1Node::LtUn(loc(3), loc(4))), BinOp::LtUn);
    assert_eq!(lowered_op(V1Node::Gt(loc(3), loc(4))), BinOp::Gt);
    assert_eq!(lowered_op(V1Node::GtUn(loc(3), loc(4))), BinOp::GtUn);
    assert_eq!(V1Node::LDLoc(0).bin_op(), None);
}

#[test]
fn names_do_not_tell_signed_from_unsigned() {
    assert_eq!(BinOp::Eq.name(), "eq");
    assert_eq!(BinOp::Add.name(), "add");
    assert_eq!(BinOp::Sub.name(), "sub");
    assert_eq!(BinOp::Mul.name(), "mul");
    assert_eq!(BinOp::Lt.name(), "lt");
    assert_eq!(BinOp::LtUn.name(), "lt");
    assert_eq!(BinOp::Gt.name(), "gt");
    assert_eq!(BinOp::GtUn.name(), "gt");
    assert_eq!(BinOp::Or.name(), "or");
    assert_eq!(BinOp::XOr.name(), "xor");
    assert_eq!(BinOp::And.name(), "and");
    assert_eq!(BinOp::Rem.name(), "mod");
    assert_eq!(BinOp::RemUn.name(), "mod");
    assert_eq!(BinOp::Shl.name(), "shl");
    assert_eq!(BinOp::Shr.name(), "shr");
    assert_eq!(BinOp::ShrUn.name(), "shr");
    assert_eq!(BinOp::Div.name(), "div");
    assert_eq!(BinOp::DivUn.name(), "div");
    assert_eq!(BinOp::Eq.dotnet_name(), "op_Equality");
    assert_eq!(BinOp::Add.dotnet_name(), "op_Addition");
    assert_eq!(BinOp::Sub.dotnet_name(), "op_Subtraction");
    assert_eq!(BinOp::Mul.dotnet_name(), "op_Multiply");
    assert_eq!(BinOp::Lt.dotnet_name(), "op_LessThan");
    assert_eq!(BinOp::LtUn.dotnet_name(), "op_LessThan");
    assert_eq!(BinOp::GtUn.dotnet_name(), "op_GreaterThan");
    assert_eq!(BinOp::Or.dotnet_name(), "op_BitwiseOr");
    assert_eq!(BinOp::XOr.dotnet_name(), "op_ExclusiveOr");
    assert_eq!(BinOp::And.dotnet_name(), "op_BitwiseAnd");
    assert_eq!(BinOp::RemUn.dotnet_name(), "op_Modulus");
    assert_eq!(BinOp::Shl.dotnet_name(), "op_LeftShift");
    assert_eq!(BinOp::ShrUn.dotnet_name(), "op_RightShift");
    assert_eq!(BinOp::DivUn.dotnet_name(), "op_Division");
    for op in [BinOp::LtUn, BinOp::GtUn, BinOp::RemUn, BinOp::ShrUn, BinOp::DivUn, BinOp::Add] {
        assert_eq!(op.name(), op.signed().name());
        assert_eq!(op.dotnet_name(), op.signed().dotnet_name());
    }
    assert_eq!(BinOp::LtUn.signed(), BinOp::Lt);
    assert_eq!(BinOp::Add.signed(), BinOp::Add);
}

fn lowered_load(tree: V1Node) -> (Type, bool) {
    let mut store = Assembly::new();
    let node = CILNode::from_v1(&tree, &mut store);
    match node {
        CILNode::LdInd { addr, tpe, volatile } => {
            assert_eq!(store.get_node(addr), &CILNode::LdLoc(9));
            (*store.get_type(tpe), volatile)
        }
        other => panic!("not a load: {:?}", other),
    }
}

#[test]
fn every_load_variant_lowers_to_a_load_of_its_type() {
    assert_eq!(lowered_load(V1Node::LDIndI8 { ptr: loc(9) }), (Type::Int(Int::I8), false));
    assert_eq!(lowered_load(V1Node::LDIndBool { ptr: loc(9) }), (Type::Bool, false));
    assert_eq!(lowered_load(V1Node::LDIndI16 { ptr: loc(9) }), (Type::Int(Int::I16), false));
    assert_eq!(lowered_load(V1Node::LDIndI32 { ptr: loc(9) }), (Type::Int(Int::I32), false));
    assert_eq!(lowered_load(V1Node::LDIndI64 { ptr: loc(9) }), (Type::Int(Int::I64), false));
    assert_eq!(lowered_load(V1Node::LDIndISize { ptr: loc(9) }), (Type::Int(Int::ISize), false));
    assert_eq!(lowered_load(V1Node::LDIndUSize { ptr: loc(9) }), (Type::Int(Int::USize), false));
    assert_eq!(lowered_load(V1Node::LDIndU8 { ptr: loc(9) }), (Type::Int(Int::U8), false));
    assert_eq!(lowered_load(V1Node::LDIndU16 { ptr: loc(9) }), (Type::Int(Int::U16), false));
    assert_eq!(lowered_load(V1Node::LDIndU32 { ptr: loc(9) }), (Type::Int(Int::U32), false));
    assert_eq!(lowered_load(V1Node::LDIndU64 { ptr: loc(9) }), (Type::Int(Int::U64), false));
    assert_eq!(lowered_load(V1Node::LDIndF32 { ptr: loc(9) }), (Type::Float(Float::F32), false));
    assert_eq!(lowered_load(V1Node::LDIndF64 { ptr: loc(9) }), (Type::Float(Float::F64), false));
    assert_eq!(
        lowered_load(V1Node::LdObj { ptr: loc(9), obj: Box::new(Type::PlatformObject) }),
        (Type::PlatformObject, false)
    );
    assert_eq!(
        lowered_load(V1Node::LDIndPtr { ptr: loc(9), loaded_ptr: Box::new(Type::Int(Int::USize)) }),
        (Type::Int(Int::USize), false)
    );
}

#[test]
fn a_volatile_mark_sets_the_flag_of_the_load() {
    let tree = V1Node::Volatile(Box::new(V1Node::LDIndI32 { ptr: loc(9) }));
    assert_eq!(lowered_load(tree), (Type::Int(Int::I32), true));
    let twice = V1Node::Volatile(Box::new(V1Node::Volatile(Box::new(V1Node::LDIndU8 { ptr: loc(9) }))));
    assert_eq!(lowered_load(twice), (Type::Int(Int::U8), true));
}

#[test]
fn a_volatile_mark_around_a_graph_load_sets_the_flag() {
    let mut store = Assembly::new();
    let addr = store.alloc_node(CILNode::LdArg(2));
    let tpe = store.alloc_type(Type::Bool);
    let load = store.alloc_node(CILNode::LdInd { addr, tpe, volatile: false });
    let tree = V1Node::Volatile(Box::new(V1Node::V2(load)));
    assert!(V1Node::V2(load).lowers_to_load(&store));
    assert_eq!(CILNode::from_v1(&tree, &mut store), CILNode::LdInd { addr, tpe, volatile: true });
}

#[test]
fn a_volatile_mark_around_anything_else_is_refused() {
    let mut store = Assembly::new();
    let tree = V1Node::Volatile(loc(0));
    assert_eq!(tree.check_lowerable(&store), Err(LowerError::VolatileNotLoad));
    assert_eq!(CILNode::try_from_v1(&tree, &mut store), Err(LowerError::VolatileNotLoad));
    assert_eq!(store.nodes_len(), 0);
    let sum = V1Node::Volatile(Box::new(V1Node::Add(loc(0), loc(1))));
    assert_eq!(sum.check_lowerable(&store), Err(LowerError::VolatileNotLoad));
    let node = store.alloc_node(CILNode::LdLoc(0));
    let graph = V1Node::Volatile(Box::new(V1Node::V2(node)));
    assert_eq!(graph.check_lowerable(&store), Err(LowerError::VolatileNotLoad));
    assert!(!V1Node::V2(node).lowers_to_load(&store));
}

#[test]
fn what_lowering_does_not_support_is_refused() {
    let mut store = Assembly::new();
    let black = V1Node::Neg(Box::new(V1Node::BlackBox(loc(0))));
    assert_eq!(black.check_lowerable(&store), Err(LowerError::UnsupportedBlackBox));
    assert_eq!(CILNode::try_from_v1(&black, &mut store), Err(LowerError::UnsupportedBlackBox));
    let cast = V1Node::CastPtr { val: loc(0), new_ptr: Box::new(Type::Bool) };
    assert_eq!(cast.check_lowerable(&store), Err(LowerError::CastTargetNotPointer));
    let stale = V1Node::Not(Box::new(V1Node::V2(Interned::from_index(17))));
    assert_eq!(stale.check_lowerable(&store), Err(LowerError::UnknownNode));
    assert_eq!(CILNode::try_from_v1(&stale, &mut store), Err(LowerError::UnknownNode));
    assert_eq!(store.nodes_len(), 0);
    let in_call = V1Node::Call(Box::new(CallOpArgs {
        args: vec![V1Node::LDLoc(0), V1Node::BlackBox(loc(1))],
        site: Interned::from_index(0),
        is_pure: IsPure(false),
    }));
    assert_eq!(in_call.check_lowerable(&store), Err(LowerError::UnsupportedBlackBox));
}

#[test]
fn errors_describe_themselves() {
    assert_eq!(LowerError::UnsupportedBlackBox.message(), "lowering does not support BlackBox yet");
    assert_eq!(
        LowerError::CastTargetNotPointer.message(),
        "the target of a pointer cast is not a pointer-like type"
    );
    assert_eq!(
        LowerError::VolatileNotLoad.message(),
        "a volatile mark wraps something that does not lower to a load"
    );
    assert_eq!(LowerError::UnknownNode.message(), "the tree embeds a handle that the store did not issue");
}

fn lowered_int_cast(tree: V1Node) -> (Int, ExtendKind) {
    let mut store = Assembly::new();
    match CILNode::from_v1(&tree, &mut store) {
        CILNode::IntCast { input, target, extend } => {
            assert_eq!(store.get_node(input), &CILNode::LdLoc(5));
            (target, extend)
        }
        other => panic!("not an integer cast: {:?}", other),
    }
}

#[test]
fn every_integer_cast_lowers_to_its_target_and_extension() {
    assert_eq!(lowered_int_cast(V1Node::ConvU8(loc(5))), (Int::U8, ExtendKind::ZeroExtend));
    assert_eq!(lowered_int_cast(V1Node::ConvU16(loc(5))), (Int::U16, ExtendKind::ZeroExtend));
    assert_eq!(lowered_int_cast(V1Node::ConvU32(loc(5))), (Int::U32, ExtendKind::ZeroExtend));
    assert_eq!(lowered_int_cast(V1Node::ZeroExtendToU64(loc(5))), (Int::U64, ExtendKind::ZeroExtend));
    assert_eq!(lowered_int_cast(V1Node::ZeroExtendToUSize(loc(5))), (Int::USize, ExtendKind::ZeroExtend));
    assert_eq!(lowered_int_cast(V1Node::ZeroExtendToISize(loc(5))), (Int::ISize, ExtendKind::ZeroExtend));
    assert_eq!(lowered_int_cast(V1Node::ConvI8(loc(5))), (Int::I8, ExtendKind::SignExtend));
    assert_eq!(lowered_int_cast(V1Node::ConvI16(loc(5))), (Int::I16, ExtendKind::SignExtend));
    assert_eq!(lowered_int_cast(V1Node::ConvI32(loc(5))), (Int::I32, ExtendKind::SignExtend));
    assert_eq!(lowered_int_cast(V1Node::SignExtendToI64(loc(5))), (Int::I64, ExtendKind::SignExtend));
    assert_eq!(lowered_int_cast(V1Node::SignExtendToU64(loc(5))), (Int::U64, ExtendKind::SignExtend));
    assert_eq!(lowered_int_cast(V1Node::SignExtendToISize(loc(5))), (Int::ISize, ExtendKind::SignExtend));
    assert_eq!(lowered_int_cast(V1Node::SignExtendToUSize(loc(5))), (Int::USize, ExtendKind::SignExtend));
}

#[test]
fn float_casts_and_unary_operations_lower() {
    let mut store = Assembly::new();
    let five = |store: &mut Assembly| store.alloc_node(CILNode::LdLoc(5));
    let node = CILNode::from_v1(&V1Node::ConvF32(loc(5)), &mut store);
    assert_eq!(node, CILNode::FloatCast { input: five(&mut store), target: Float::F32, is_signed: true });
    let node = CILNode::from_v1(&V1Node::ConvF64(loc(5)), &mut store);
    assert_eq!(node, CILNode::FloatCast { input: five(&mut store), target: Float::F64, is_signed: true });
    let node = CILNode::from_v1(&V1Node::ConvF64Un(loc(5)), &mut store);
    assert_eq!(node, CILNode::FloatCast { input: five(&mut store), target: Float::F64, is_signed: false });
    let node = CILNode::from_v1(&V1Node::Neg(loc(5)), &mut store);
    assert_eq!(node, CILNode::UnOp(five(&mut store), UnOp::Neg));
    let node = CILNode::from_v1(&V1Node::Not(loc(5)), &mut store);
    assert_eq!(node, CILNode::UnOp(five(&mut store), UnOp::Not));
    let node = CILNode::from_v1(&V1Node::MRefToRawPtr(loc(5)), &mut store);
    assert_eq!(node, CILNode::RefToPtr(five(&mut store)));
    let node = CILNode::from_v1(&V1Node::LDLen { arr: loc(5) }, &mut store);
    assert_eq!(node, CILNode::LdLen(five(&mut store)));
    let node = CILNode::from_v1(&V1Node::LocAlloc { size: loc(5) }, &mut store);
    assert_eq!(node, CILNode::LocAlloc { size: five(&mut store) });
    assert_eq!(CILNode::from_v1(&V1Node::GetException, &mut store), CILNode::GetException);
    assert_eq!(store.nodes_len(), 1);
}

#[test]
fn pointer_casts_lower_to_their_target() {
    let mut store = Assembly::new();
    let byte = store.alloc_type(Type::Int(Int::U8));
    let sig = store.sig(vec![], Type::Void);
    let cases = [
        (Type::Ptr(byte), PtrCastRes::Ptr(byte)),
        (Type::Ref(byte), PtrCastRes::Ref(byte)),
        (Type::FnPtr(sig), PtrCastRes::FnPtr(sig)),
        (Type::Int(Int::USize), PtrCastRes::USize),
        (Type::Int(Int::ISize), PtrCastRes::ISize),
    ];
    for (tpe, res) in cases {
        let tree = V1Node::LDLoc(1).cast_ptr(tpe);
        let node = CILNode::from_v1(&tree, &mut store);
        let val = store.alloc_node(CILNode::LdLoc(1));
        assert_eq!(node, CILNode::PtrCast(val, Box::new(res)));
        assert_eq!(res.as_type(), tpe);
        assert_eq!(PtrCastRes::of_type(&tpe), Some(res));
    }
    assert_eq!(PtrCastRes::of_type(&Type::Int(Int::U64)), None);
    assert_eq!(PtrCastRes::of_type(&Type::Void), None);
}

#[test]
fn calls_keep_their_arguments_in_order() {
    let mut store = Assembly::new();
    let site = store.helper("f", vec![Type::Bool, Type::Bool], Type::Void);
    let args = || vec![V1Node::LDLoc(7), V1Node::LDLoc(8), V1Node::LDLoc(7)];
    let call = V1Node::Call(Box::new(CallOpArgs { args: args(), site, is_pure: IsPure(true) }));
    let virt = V1Node::CallVirt(Box::new(CallOpArgs { args: args(), site, is_pure: IsPure(true) }));
    let new = V1Node::NewObj(Box::new(CallOpArgs { args: args(), site, is_pure: IsPure(true) }));
    let lowered = CILNode::from_v1(&call, &mut store);
    let seven = store.alloc_node(CILNode::LdLoc(7));
    let eight = store.alloc_node(CILNode::LdLoc(8));
    assert_eq!(lowered, CILNode::Call(Box::new((site, vec![seven, eight, seven], IsPure(true)))));
    assert_eq!(lowered.child_nodes(), vec![seven, eight, seven]);
    let lowered = CILNode::from_v1(&virt, &mut store);
    assert_eq!(lowered, CILNode::Call(Box::new((site, vec![seven, eight, seven], IsPure(false)))));
    let lowered = CILNode::from_v1(&new, &mut store);
    assert_eq!(lowered, CILNode::call(site, vec![seven, eight, seven]));
    let empty = V1Node::Call(Box::new(CallOpArgs { args: vec![], site, is_pure: IsPure(false) }));
    assert_eq!(CILNode::from_v1(&empty, &mut store), CILNode::call(site, vec![]));
}

#[test]
fn calls_through_pointers_lower_with_their_signature() {
    let mut store = Assembly::new();
    let sig = FnSig::new(vec![Type::Int(Int::I32)], Type::Bool);
    let tree = V1Node::CallI(Box::new((sig.clone(), V1Node::LDLoc(0), vec![V1Node::LDLoc(1)])));
    let node = CILNode::from_v1(&tree, &mut store);
    let ptr = store.alloc_node(CILNode::LdLoc(0));
    let arg = store.alloc_node(CILNode::LdLoc(1));
    let sig = store.alloc_sig(sig);
    assert_eq!(node, CILNode::CallI(Box::new((ptr, sig, vec![arg]))));
    assert_eq!(node.child_nodes(), vec![ptr, arg]);
}

#[test]
fn fields_types_and_strings_lower() {
    let mut store = Assembly::new();
    let field = Interned::from_index(3);
    let class = Interned::from_index(2);
    let node = CILNode::from_v1(&V1Node::LDField { addr: loc(0), field }, &mut store);
    let addr = store.alloc_node(CILNode::LdLoc(0));
    assert_eq!(node, CILNode::LdField { addr, field });
    let node = CILNode::from_v1(&V1Node::LDFieldAdress { addr: loc(0), field }, &mut store);
    assert_eq!(node, CILNode::LdFieldAddress { addr, field });
    let node = CILNode::from_v1(&V1Node::LdStr(String::from("hi")), &mut store);
    let text = store.alloc_string("hi");
    assert_eq!(node, CILNode::Const(Box::new(Const::PlatformString(text))));
    let node = CILNode::from_v1(&V1Node::LDTypeToken(Box::new(Type::Bool)), &mut store);
    let tpe = store.alloc_type(Type::Bool);
    assert_eq!(node, CILNode::LdTypeToken(tpe));
    let node = CILNode::from_v1(&V1Node::IsInst(Box::new((V1Node::LDLoc(0), class))), &mut store);
    let class_tpe = store.alloc_type(Type::ClassRef(class));
    assert_eq!(node, CILNode::IsInst(addr, class_tpe));
    let node = CILNode::from_v1(&V1Node::CheckedCast(Box::new((V1Node::LDLoc(0), class))), &mut store);
    assert_eq!(node, CILNode::CheckedCast(addr, class_tpe));
    let node = CILNode::from_v1(&V1Node::UnboxAny(loc(0), Box::new(Type::Bool)), &mut store);
    assert_eq!(node, CILNode::UnboxAny { object: addr, tpe });
    let node = CILNode::from_v1(
        &V1Node::LocAllocAligned { tpe: Box::new(Type::Bool), align: 16 },
        &mut store,
    );
    assert_eq!(node, CILNode::LocAllocAlgined { tpe, align: 16 });
    let node = CILNode::from_v1(&V1Node::LDElelemRef { arr: loc(0), idx: loc(1) }, &mut store);
    let index = store.alloc_node(CILNode::LdLoc(1));
    assert_eq!(node, CILNode::LdElelemRef { array: addr, index });
    assert_eq!(node.child_nodes(), vec![addr, index]);
    let node = CILNode::from_v1(&V1Node::LDFtn(Interned::from_index(5)), &mut store);
    assert_eq!(node, CILNode::LdFtn(Interned::from_index(5)));
}

#[test]
fn graph_nodes_pass_through() {
    let mut store = Assembly::new();
    let a = store.alloc_node(CILNode::LdArg(0));
    let b = store.alloc_node(CILNode::LdArg(1));
    let sum = store.alloc_node(CILNode::BinOp(a, b, BinOp::Add));
    let before = store.nodes_len();
    assert_eq!(CILNode::from_v1(&V1Node::V2(sum), &mut store), CILNode::BinOp(a, b, BinOp::Add));
    assert_eq!(store.nodes_len(), before);
    let tree = V1Node::Mul(Box::new(V1Node::V2(sum)), Box::new(V1Node::V2(sum)));
    assert_eq!(CILNode::from_v1(&tree, &mut store), CILNode::BinOp(sum, sum, BinOp::Mul));
    assert_eq!(store.nodes_len(), before);
}

#[test]
fn operands_are_interned_before_the_node_that_holds_them() {
    let mut store = Assembly::new();
    let tree = V1Node::Add(
        Box::new(V1Node::Mul(loc(0), loc(1))),
        Box::new(V1Node::Neg(Box::new(V1Node::Mul(loc(0), loc(1))))),
    );
    let node = CILNode::from_v1(&tree, &mut store);
    let root = store.alloc_node(node.clone());
    let mut pending = vec![root];
    let mut seen = 0;
    while let Some(h) = pending.pop() {
        seen += 1;
        for child in store.get_node(h).child_nodes() {
            assert!(child.as_bimap_index() < h.as_bimap_index());
            pending.push(child);
        }
    }
    assert_eq!(seen, 8);
    assert_eq!(store.nodes_len(), 5);
}

#[test]
fn a_copy_of_a_tree_equals_the_tree() {
    let site = Interned::from_index(0);
    let tree = V1Node::Call(Box::new(CallOpArgs {
        args: vec![
            V1Node::LdStr(String::from("x")),
            V1Node::CallI(Box::new((
                FnSig::new(vec![Type::Bool], Type::Void),
                V1Node::LDLoc(0),
                vec![V1Node::GetException],
            ))),
            V1Node::IsInst(Box::new((V1Node::LDLoc(1), Interned::from_index(4)))),
        ],
        site,
        is_pure: IsPure(true),
    }));
    assert_eq!(tree.clone(), tree);
    assert_eq!(tree.duplicate(), tree);
}

#[test]
fn the_first_fault_of_a_walk_is_the_one_reported() {
    let mut store = Assembly::new();
    let black = || Box::new(V1Node::BlackBox(loc(0)));
    let marked = || Box::new(V1Node::Volatile(loc(0)));
    let stale = || Box::new(V1Node::V2(Interned::from_index(9)));
    assert_eq!(V1Node::Add(black(), marked()).check_lowerable(&store), Err(LowerError::UnsupportedBlackBox));
    assert_eq!(V1Node::Add(marked(), black()).check_lowerable(&store), Err(LowerError::VolatileNotLoad));
    assert_eq!(V1Node::Add(stale(), black()).check_lowerable(&store), Err(LowerError::UnknownNode));
    // A cast is looked at before what it casts, a volatile mark after what it wraps.
    let cast = V1Node::CastPtr { val: black(), new_ptr: Box::new(Type::Bool) };
    assert_eq!(cast.check_lowerable(&store), Err(LowerError::CastTargetNotPointer));
    assert_eq!(V1Node::Volatile(black()).check_lowerable(&store), Err(LowerError::UnsupportedBlackBox));
    let call = V1Node::Call(Box::new(CallOpArgs {
        args: vec![V1Node::LDLoc(0), *marked(), *black()],
        site: Interned::from_index(0),
        is_pure: IsPure(false),
    }));
    assert_eq!(call.check_lowerable(&store), Err(LowerError::VolatileNotLoad));
    assert_eq!(CILNode::try_from_v1(&call, &mut store), Err(LowerError::VolatileNotLoad));
    assert_eq!(store.nodes_len(), 0);
}
