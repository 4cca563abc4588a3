use cilly::aggregate::{aggregate_array, aggregate_fat_ptr, aggregate_fields, set_field, FieldNaming};
use cilly::assembly::Assembly;
use cilly::cil_node::{CallKind, V1Node};
use cilly::cil_root::V1Root;
use cilly::cilnode::{BinOp, CILNode, IsPure, MethodKind};
use cilly::constant::{
    get_fn_from_static_name, is_static_fn_name, load_const_float_bits, load_const_int,
    load_const_uint, IntTy, UintTy,
};
use cilly::cst::Const;
use cilly::field_desc::FieldDesc;
use cilly::interned::Interned;
use cilly::operand::{constant_address, is_const_zero, is_uninit, ConstShape, OperandShape};
use cilly::rvalue::RvalueShape;
use cilly::rvalue::{
    expose_provenance, float_to_float, ptr_to_ptr, repeat, repeat_plan, size_of_value, transmute,
    SIMPLE_REPEAT_CAP,
};
use cilly::tpe::{Float, Int, Type};
use cilly::utilis::adt::{FieldsShape, Integer, Layout, Primitive, TagEncoding, Variants};

#[test]
fn copies_double_what_is_set() {
    assert_eq!(repeat_plan(16, 16), vec![]);
    assert_eq!(repeat_plan(16, 10), vec![]);
    assert_eq!(repeat_plan(16, 17), vec![(16, 1)]);
    assert_eq!(repeat_plan(16, 32), vec![(16, 16)]);
    assert_eq!(repeat_plan(16, 33), vec![(16, 16), (32, 1)]);
    assert_eq!(repeat_plan(16, 100), vec![(16, 16), (32, 32), (64, 36)]);
    assert_eq!(repeat_plan(1, 5), vec![(1, 1), (2, 2), (4, 1)]);
    let plan = repeat_plan(16, u64::MAX);
    assert_eq!(plan.len(), 60);
    assert_eq!(plan[59], (1 << 63, (1 << 63) - 1));
    for times in [17u64, 31, 32, 33, 1000, 65536, 65537] {
        let plan = repeat_plan(16, times);
        let mut set = 16;
        for (curr, size) in plan {
            assert_eq!(curr, set);
            assert!(size <= curr);
            set += size;
        }
        assert_eq!(set, times);
    }
    assert_eq!(SIMPLE_REPEAT_CAP, 16);
}

fn usize_const(v: u64, store: &mut Assembly) -> V1Node {
    V1Node::V2(store.alloc_node(CILNode::Const(Box::new(Const::USize(v)))))
}

#[test]
fn a_short_array_is_set_element_by_element() {
    let mut store = Assembly::new();
    let class = Interned::from_index(3);
    let array = Type::ClassRef(class);
    let roots = repeat(V1Node::LDLoc(1), Type::Int(Int::I32), false, 3, array, V1Node::LDLoc(0), &mut store);
    assert_eq!(roots.len(), 3);
    for (i, root) in roots.iter().enumerate() {
        match root {
            V1Root::Call { site, args } => {
                let mref = store.get_mref(*site).clone();
                assert_eq!(store.get_string(mref.name()), "set_Item");
                assert_eq!(mref.class(), class);
                assert_eq!(mref.kind(), MethodKind::Instance);
                let sig = store.get_sig(mref.sig()).clone();
                let this = store.nref(array);
                assert_eq!(sig.inputs(), &vec![this, Type::Int(Int::USize), Type::Int(Int::I32)]);
                assert_eq!(sig.output(), &Type::Void);
                assert_eq!(args, &vec![V1Node::LDLoc(0), usize_const(i as u64, &mut store), V1Node::LDLoc(1)]);
            }
            other => panic!("not a call: {:?}", other),
        }
    }
    let none = repeat(V1Node::LDLoc(1), Type::Int(Int::I32), false, 0, array, V1Node::LDLoc(0), &mut store);
    assert!(none.is_empty());
}

#[test]
fn a_long_array_is_filled_by_copying() {
    let mut store = Assembly::new();
    let array = Type::ClassRef(Interned::from_index(3));
    let roots = repeat(V1Node::LDLoc(1), Type::Int(Int::I16), false, 40, array, V1Node::LDLoc(0), &mut store);
    assert_eq!(roots.len(), 18);
    assert!(roots[..16].iter().all(|r| matches!(r, V1Root::Call { .. })));
    let tpe = store.alloc_type(Type::Int(Int::I16));
    let size = store.alloc_node(CILNode::SizeOf(tpe));
    let width = || V1Node::ZeroExtendToUSize(Box::new(V1Node::V2(size)));
    let copy = |curr: u64, len: u64, store: &mut Assembly| V1Root::CpBlk {
        dst: Box::new(V1Node::Add(
            Box::new(V1Node::MRefToRawPtr(Box::new(V1Node::LDLoc(0)))),
            Box::new(V1Node::Mul(Box::new(usize_const(curr, store)), Box::new(width()))),
        )),
        src: Box::new(V1Node::LDLoc(0)),
        len: Box::new(V1Node::Mul(Box::new(usize_const(len, store)), Box::new(width()))),
    };
    assert_eq!(roots[16], copy(16, 16, &mut store));
    assert_eq!(roots[17], copy(32, 8, &mut store));
}

#[test]
fn an_array_of_bytes_is_set_at_once() {
    let mut store = Assembly::new();
    let array = Type::ClassRef(Interned::from_index(3));
    let roots = repeat(V1Node::LDLoc(1), Type::Int(Int::U8), true, 1000, array, V1Node::LDLoc(0), &mut store);
    let bytes = store.nptr(Type::Int(Int::U8));
    assert_eq!(
        roots,
        vec![V1Root::InitBlk {
            dst: Box::new(V1Node::LDLoc(0).cast_ptr(bytes)),
            val: Box::new(V1Node::LDLoc(1)),
            count: Box::new(usize_const(1000, &mut store)),
        }]
    );
    let roots = repeat(V1Node::LDLoc(1), Type::Bool, true, 2, array, V1Node::LDLoc(0), &mut store);
    match &roots[..] {
        [V1Root::InitBlk { val, .. }] => match &**val {
            V1Node::Call(call) => {
                assert_eq!(store.get_string(store.get_mref(call.site).name()), "transmute");
                assert_eq!(call.args, vec![V1Node::LDLoc(1)]);
            }
            other => panic!("not a call: {:?}", other),
        },
        other => panic!("not one statement: {:?}", other),
    }
}

#[test]
fn fields_of_the_empty_type_are_skipped() {
    let mut store = Assembly::new();
    let owner = Interned::from_index(5);
    let types = vec![Type::Bool, Type::Void, Type::Int(Int::U8), Type::Void];
    let values = vec![V1Node::LDLoc(1), V1Node::LDLoc(2), V1Node::LDLoc(3), V1Node::LDLoc(4)];
    let roots = aggregate_fields(&FieldNaming::Tuple.names(4), owner, &V1Node::LDLoc(0), &types, &values, &mut store);
    let field = |name: &str, tpe: Type, store: &mut Assembly| {
        let name = store.alloc_string(name);
        store.alloc_field(FieldDesc::new(owner, name, tpe))
    };
    assert_eq!(
        roots,
        vec![
            V1Root::SetField {
                addr: Box::new(V1Node::LDLoc(0)),
                value: Box::new(V1Node::LDLoc(1)),
                desc: field("Item1", Type::Bool, &mut store),
            },
            V1Root::SetField {
                addr: Box::new(V1Node::LDLoc(0)),
                value: Box::new(V1Node::LDLoc(3)),
                desc: field("Item3", Type::Int(Int::U8), &mut store),
            },
        ]
    );
    let roots = aggregate_fields(&FieldNaming::Closure.names(4), owner, &V1Node::LDLoc(0), &types, &values, &mut store);
    match &roots[..] {
        [V1Root::SetField { desc: a, .. }, V1Root::SetField { desc: b, .. }] => {
            assert_eq!(*a, field("f_0", Type::Bool, &mut store));
            assert_eq!(*b, field("f_2", Type::Int(Int::U8), &mut store));
        }
        other => panic!("not two stores: {:?}", other),
    }
    assert_eq!(FieldNaming::Tuple.name(9), "Item10");
    assert_eq!(FieldNaming::Closure.name(0), "f_0");
    let none = aggregate_fields(&vec![], owner, &V1Node::LDLoc(0), &vec![], &vec![], &mut store);
    assert!(none.is_empty());
    let one = set_field(V1Node::LDLoc(0), V1Node::LDLoc(1), owner, "x", Type::Bool, &mut store);
    assert_eq!(
        one,
        V1Root::SetField {
            addr: Box::new(V1Node::LDLoc(0)),
            value: Box::new(V1Node::LDLoc(1)),
            desc: field("x", Type::Bool, &mut store),
        }
    );
}

#[test]
fn arrays_and_fat_pointers_are_aggregated() {
    let mut store = Assembly::new();
    let class = Interned::from_index(5);
    let values = vec![V1Node::LDLoc(7), V1Node::LDLoc(8)];
    let roots = aggregate_array(class, Type::Bool, &V1Node::LDLoc(0), &values, &mut store);
    assert_eq!(roots.len(), 2);
    match &roots[1] {
        V1Root::Call { args, .. } => {
            assert_eq!(args, &vec![V1Node::LDLoc(0), usize_const(1, &mut store), V1Node::LDLoc(8)]);
        }
        other => panic!("not a call: {:?}", other),
    }
    let roots = aggregate_fat_ptr(
        class,
        V1Node::LDLoc(0),
        V1Node::LDLoc(1),
        V1Node::LDLoc(2),
        Type::Int(Int::USize),
        &mut store,
    );
    let void_ptr = store.nptr(Type::Void);
    let data = store.alloc_string("data_pointer");
    let data = store.alloc_field(FieldDesc::new(class, data, void_ptr));
    let meta = store.alloc_string("metadata");
    let meta = store.alloc_field(FieldDesc::new(class, meta, Type::Int(Int::USize)));
    assert_eq!(
        roots[0],
        V1Root::SetField {
            addr: Box::new(V1Node::LDLoc(0)),
            value: Box::new(V1Node::LDLoc(1).cast_ptr(void_ptr)),
            desc: data,
        }
    );
    assert_eq!(
        roots[1],
        V1Root::SetField { addr: Box::new(V1Node::LDLoc(0)), value: Box::new(V1Node::LDLoc(2)), desc: meta }
    );
}

fn constant_of(node: Interned<CILNode>, store: &Assembly) -> Const {
    match store.get_node(node) {
        CILNode::Const(c) => **c,
        other => panic!("not a constant: {:?}", other),
    }
}

#[test]
fn signed_constants_take_their_bits() {
    let mut store = Assembly::new();
    let cases = [
        (0u128, IntTy::I8, Const::I8(0)),
        (127, IntTy::I8, Const::I8(127)),
        (128, IntTy::I8, Const::I8(-128)),
        (255, IntTy::I8, Const::I8(-1)),
        (0x7fff, IntTy::I16, Const::I16(i16::MAX)),
        (0x8000, IntTy::I16, Const::I16(i16::MIN)),
        (0xffff_ffff, IntTy::I32, Const::I32(-1)),
        (0x7fff_ffff, IntTy::I32, Const::I32(i32::MAX)),
        (0x8000_0000_0000_0000, IntTy::I64, Const::I64(i64::MIN)),
        (0xffff_ffff_ffff_fffe, IntTy::Isize, Const::ISize(-2)),
        (5, IntTy::Isize, Const::ISize(5)),
        (u128::MAX, IntTy::I128, Const::I128(-1)),
        (1 << 127, IntTy::I128, Const::I128(i128::MIN)),
        ((1 << 127) - 1, IntTy::I128, Const::I128(i128::MAX)),
    ];
    for (value, ty, expected) in cases {
        let node = load_const_int(value, ty, &mut store);
        assert_eq!(constant_of(node, &store), expected);
    }
}

#[test]
fn unsigned_and_float_constants_take_their_bits() {
    let mut store = Assembly::new();
    let cases = [
        (255u128, UintTy::U8, Const::U8(255)),
        (65535, UintTy::U16, Const::U16(65535)),
        (7, UintTy::U32, Const::U32(7)),
        (u64::MAX as u128, UintTy::U64, Const::U64(u64::MAX)),
        (9, UintTy::Usize, Const::USize(9)),
        (u128::MAX, UintTy::U128, Const::U128(u128::MAX)),
    ];
    for (value, ty, expected) in cases {
        let node = load_const_uint(value, ty, &mut store);
        assert_eq!(constant_of(node, &store), expected);
    }
    let node = load_const_float_bits(1.5f32.to_bits() as u128, Float::F32, &mut store);
    assert_eq!(constant_of(node, &store), Const::F32(0x3fc0_0000));
    let node = load_const_float_bits((-2.0f64).to_bits() as u128, Float::F64, &mut store);
    assert_eq!(constant_of(node, &store), Const::F64(0xc000_0000_0000_0000));
}

#[test]
fn functions_of_the_system_have_helpers() {
    let mut store = Assembly::new();
    for name in [
        "statx",
        "getrandom",
        "posix_spawn",
        "posix_spawn_file_actions_addchdir_np",
        "__dso_handle",
        "__cxa_thread_atexit_impl",
        "copy_file_range",
        "pidfd_spawnp",
        "pidfd_getpid",
    ] {
        assert!(is_static_fn_name(name));
        let site = get_fn_from_static_name(name, &mut store);
        let mref = store.get_mref(site).clone();
        assert_eq!(store.get_string(mref.name()), name);
        assert_eq!(mref.class(), store.main_module());
        assert_eq!(mref.kind(), MethodKind::Static);
    }
    assert!(!is_static_fn_name("open"));
    assert!(!is_static_fn_name(""));
    let i8_ptr = store.nptr(Type::Int(Int::I8));
    let void_ptr = store.nptr(Type::Void);
    let i64_ptr = store.nptr(Type::Int(Int::I64));
    let site = get_fn_from_static_name("statx", &mut store);
    let sig = store.get_sig(store.get_mref(site).sig()).clone();
    assert_eq!(
        sig.inputs(),
        &vec![Type::Int(Int::I32), i8_ptr, Type::Int(Int::I32), Type::Int(Int::U32), void_ptr]
    );
    assert_eq!(sig.output(), &Type::Int(Int::I32));
    let site = get_fn_from_static_name("copy_file_range", &mut store);
    let sig = store.get_sig(store.get_mref(site).sig()).clone();
    assert_eq!(
        sig.inputs(),
        &vec![Type::Int(Int::I32), i64_ptr, Type::Int(Int::I32), i64_ptr, Type::Int(Int::ISize), Type::Int(Int::U32)]
    );
    assert_eq!(sig.output(), &Type::Int(Int::ISize));
    let site = get_fn_from_static_name("__cxa_thread_atexit_impl", &mut store);
    let sig = store.get_sig(store.get_mref(site).sig()).clone();
    let dtor = store.sig(vec![void_ptr], Type::Void);
    assert_eq!(sig.inputs(), &vec![Type::FnPtr(dtor), void_ptr, void_ptr]);
    let site = get_fn_from_static_name("getrandom", &mut store);
    let sig = store.get_sig(store.get_mref(site).sig()).clone();
    assert_eq!(sig.inputs(), &vec![i8_ptr, Type::Int(Int::USize), Type::Int(Int::U32)]);
    assert_eq!(sig.output(), &Type::Int(Int::USize));
}

#[test]
fn operands_without_data_are_told() {
    let constant = |shape| OperandShape::Constant(shape);
    assert!(!is_uninit(&OperandShape::Place));
    assert!(!is_uninit(&constant(ConstShape::ScalarInt { is_null: true })));
    assert!(!is_uninit(&constant(ConstShape::ScalarPtr)));
    assert!(is_uninit(&constant(ConstShape::ZeroSized)));
    assert!(is_uninit(&constant(ConstShape::Slice { chunks: vec![false] })));
    assert!(!is_uninit(&constant(ConstShape::Slice { chunks: vec![true] })));
    assert!(!is_uninit(&constant(ConstShape::Slice { chunks: vec![] })));
    assert!(!is_uninit(&constant(ConstShape::Slice { chunks: vec![false, false] })));
    assert!(is_uninit(&constant(ConstShape::Indirect { memory: Some(vec![false]) })));
    assert!(!is_uninit(&constant(ConstShape::Indirect { memory: Some(vec![false, true]) })));
    assert!(!is_uninit(&constant(ConstShape::Indirect { memory: None })));
    assert!(!is_const_zero(&OperandShape::Place));
    assert!(is_const_zero(&constant(ConstShape::ScalarInt { is_null: true })));
    assert!(!is_const_zero(&constant(ConstShape::ScalarInt { is_null: false })));
    assert!(!is_const_zero(&constant(ConstShape::ScalarPtr)));
    assert!(is_const_zero(&constant(ConstShape::ZeroSized)));
    assert!(!is_const_zero(&constant(ConstShape::Slice { chunks: vec![false] })));
    assert!(!is_const_zero(&constant(ConstShape::Indirect { memory: None })));
}

#[test]
fn the_address_of_a_constant_is_loaded_from() {
    let mut store = Assembly::new();
    let node = constant_address(V1Node::LDLoc(4), Type::Int(Int::U16), &mut store);
    match &node {
        V1Node::LdObj { ptr, obj } => {
            assert_eq!(**obj, Type::Int(Int::U16));
            match &**ptr {
                V1Node::V2(h) => assert!(matches!(store.get_node(*h), CILNode::LdStaticFieldAddress(_))),
                other => panic!("not a graph node: {:?}", other),
            }
        }
        other => panic!("not a load: {:?}", other),
    }
    assert_eq!(node.check_lowerable(&store), Ok(()));
}

#[test]
fn values_are_reinterpreted_by_their_types() {
    let mut store = Assembly::new();
    let ptr = store.nptr(Type::Bool);
    let sig = store.sig(vec![], Type::Void);
    let usize = Type::Int(Int::USize);
    for (src, dst) in [(usize, ptr), (ptr, Type::Int(Int::ISize)), (Type::FnPtr(sig), ptr), (ptr, ptr)] {
        assert_eq!(transmute(src, dst, V1Node::LDLoc(0), &mut store), V1Node::LDLoc(0).cast_ptr(dst));
    }
    assert_eq!(
        transmute(Type::Int(Int::U16), Type::PlatformChar, V1Node::LDLoc(0), &mut store),
        V1Node::LDLoc(0)
    );
    assert_eq!(transmute(Type::Bool, Type::Bool, V1Node::LDLoc(0), &mut store), V1Node::LDLoc(0));
    match transmute(Type::Int(Int::U32), Type::Float(Float::F32), V1Node::LDLoc(0), &mut store) {
        V1Node::Call(call) => {
            assert_eq!(store.get_string(store.get_mref(call.site).name()), "transmute");
            assert_eq!(call.is_pure, IsPure(false));
        }
        other => panic!("not a call: {:?}", other),
    }
    assert_eq!(
        float_to_float(Type::Float(Float::F32), V1Node::LDLoc(0)),
        V1Node::ConvF32(Box::new(V1Node::LDLoc(0)))
    );
    assert_eq!(
        float_to_float(Type::Float(Float::F64), V1Node::LDLoc(0)),
        V1Node::ConvF64(Box::new(V1Node::LDLoc(0)))
    );
    assert_eq!(expose_provenance(usize, V1Node::LDLoc(0), &mut store), V1Node::LDLoc(0).cast_ptr(usize));
    assert_eq!(
        expose_provenance(Type::Int(Int::U64), V1Node::LDLoc(0), &mut store),
        V1Node::ZeroExtendToU64(Box::new(V1Node::LDLoc(0).cast_ptr(usize)))
    );
    assert_eq!(
        expose_provenance(Type::Int(Int::I64), V1Node::LDLoc(0), &mut store),
        V1Node::SignExtendToI64(Box::new(V1Node::LDLoc(0).cast_ptr(usize)))
    );
}

#[test]
fn pointers_are_cast_by_their_fatness() {
    let mut store = Assembly::new();
    let class = Interned::from_index(2);
    let fat: Type = Type::ClassRef(class);
    let thin = store.nptr(Type::Bool);
    let op = || V1Node::LDLoc(0);
    let addr = || V1Node::LDLoc(1);
    assert_eq!(ptr_to_ptr(false, false, op(), addr(), thin, thin, class, &mut store), op().cast_ptr(thin));
    assert_eq!(ptr_to_ptr(true, true, op(), addr(), fat, fat, class, &mut store), op());
    let other = Type::ClassRef(Interned::from_index(3));
    assert!(matches!(ptr_to_ptr(true, true, op(), addr(), fat, other, class, &mut store), V1Node::Call(_)));
    let node = ptr_to_ptr(true, false, op(), addr(), fat, thin, class, &mut store);
    let void_ptr = store.nptr(Type::Void);
    let name = store.alloc_string("data_pointer");
    let field = store.alloc_field(FieldDesc::new(class, name, void_ptr));
    assert_eq!(node, V1Node::LDField { addr: Box::new(addr()), field }.cast_ptr(thin));
}

#[test]
fn sizes_are_pointer_sized_integers() {
    let mut store = Assembly::new();
    assert_eq!(size_of_value(Type::Void, &mut store), usize_const(0, &mut store));
    let node = size_of_value(Type::Int(Int::I64), &mut store);
    let tpe = store.alloc_type(Type::Int(Int::I64));
    let size = store.alloc_node(CILNode::SizeOf(tpe));
    assert_eq!(node, V1Node::ZeroExtendToUSize(Box::new(V1Node::V2(size))));
}

#[test]
fn trees_are_built_by_kind() {
    let a = || V1Node::LDLoc(0);
    let b = || V1Node::LDLoc(1);
    assert_eq!(V1Node::binary(BinOp::Add, a(), b()), V1Node::Add(Box::new(a()), Box::new(b())));
    assert_eq!(V1Node::binary(BinOp::GtUn, a(), b()), V1Node::GtUn(Box::new(a()), Box::new(b())));
    assert_eq!(V1Node::binary(BinOp::ShrUn, a(), b()), V1Node::ShrUn(Box::new(a()), Box::new(b())));
    for op in [
        BinOp::Add, BinOp::Eq, BinOp::Sub, BinOp::Mul, BinOp::LtUn, BinOp::Lt, BinOp::GtUn, BinOp::Gt,
        BinOp::Or, BinOp::XOr, BinOp::And, BinOp::Rem, BinOp::RemUn, BinOp::Shl, BinOp::Shr,
        BinOp::ShrUn, BinOp::DivUn, BinOp::Div,
    ] {
        assert_eq!(V1Node::binary(op, a(), b()).bin_op(), Some(op));
    }
    assert_eq!(V1Node::graph(Interned::from_index(3)), V1Node::V2(Interned::from_index(3)));
    assert_eq!(V1Node::string("s"), V1Node::LdStr(String::from("s")));
    assert_eq!(V1Node::ref_to_raw(a()), V1Node::MRefToRawPtr(Box::new(a())));
    assert_eq!(
        V1Node::load_object(a(), Type::Bool),
        V1Node::LdObj { ptr: Box::new(a()), obj: Box::new(Type::Bool) }
    );
    let site = Interned::from_index(0);
    assert!(matches!(V1Node::call_of(CallKind::Virtual, site, vec![], IsPure(false)), V1Node::CallVirt(_)));
    assert!(matches!(V1Node::call_of(CallKind::Construct, site, vec![], IsPure(false)), V1Node::NewObj(_)));
    assert!(matches!(V1Node::call_of(CallKind::Direct, site, vec![], IsPure(true)), V1Node::Call(_)));
}

#[test]
fn discriminants_are_read_as_the_target_type() {
    let mut store = Assembly::new();
    let leaf = || Layout {
        fields: FieldsShape::Primitive,
        variants: Variants::Single { index: 0 },
        uninhabited: false,
        discriminants: vec![],
    };
    let class = Interned::from_index(3);
    let owner = Type::ClassRef(class);
    let node = cilly::rvalue::discriminant(&leaf(), V1Node::LDLoc(0), owner, Type::Int(Int::I64), &mut store);
    let zero = store.alloc_node(CILNode::Const(Box::new(Const::I32(0))));
    assert_eq!(node, V1Node::SignExtendToI64(Box::new(V1Node::V2(zero))));
    let layout = Layout {
        fields: FieldsShape::Primitive,
        variants: Variants::Multiple {
            tag: Primitive::Int(Integer::I8, false),
            tag_encoding: TagEncoding::Direct,
            tag_field: 0,
            variants: vec![leaf(), leaf()],
        },
        uninhabited: false,
        discriminants: vec![0, 1],
    };
    let node = cilly::rvalue::discriminant(&layout, V1Node::LDLoc(0), owner, Type::Int(Int::I64), &mut store);
    let name = store.alloc_string("value__");
    let field = store.alloc_field(FieldDesc::new(class, name, Type::Int(Int::U8)));
    assert_eq!(
        node,
        V1Node::SignExtendToI64(Box::new(V1Node::LDField { addr: Box::new(V1Node::LDLoc(0)), field }))
    );
    let node = cilly::rvalue::discriminant(&layout, V1Node::LDLoc(0), Type::Bool, Type::Int(Int::I32), &mut store);
    assert_eq!(node, V1Node::V2(zero));
    let tagged = cilly::aggregate::aggregate_discriminant(&layout, 1, V1Node::LDLoc(0), class, &mut store);
    assert!(matches!(tagged, Some(V1Root::SetField { .. })));
    assert_eq!(cilly::aggregate::aggregate_discriminant(&leaf(), 0, V1Node::LDLoc(0), class, &mut store), None);
}

#[test]
fn a_value_is_skipped_or_zero_as_the_operand_it_uses_or_copies() {
    let zst = || OperandShape::Constant(ConstShape::ZeroSized);
    let zero = || OperandShape::Constant(ConstShape::ScalarInt { is_null: true });
    let one = || OperandShape::Constant(ConstShape::ScalarInt { is_null: false });
    let hole = || OperandShape::Constant(ConstShape::Slice { chunks: vec![false] });
    assert!(cilly::rvalue::is_rvalue_unint(&RvalueShape::Use(zst())));
    assert!(cilly::rvalue::is_rvalue_unint(&RvalueShape::Repeat(hole())));
    assert!(!cilly::rvalue::is_rvalue_unint(&RvalueShape::Use(zero())));
    assert!(!cilly::rvalue::is_rvalue_unint(&RvalueShape::Use(OperandShape::Place)));
    assert!(!cilly::rvalue::is_rvalue_unint(&RvalueShape::Other));
    assert!(cilly::rvalue::is_rvalue_const_0(&RvalueShape::Use(zero())));
    assert!(cilly::rvalue::is_rvalue_const_0(&RvalueShape::Repeat(zst())));
    assert!(!cilly::rvalue::is_rvalue_const_0(&RvalueShape::Repeat(one())));
    assert!(!cilly::rvalue::is_rvalue_const_0(&RvalueShape::Use(hole())));
    assert!(!cilly::rvalue::is_rvalue_const_0(&RvalueShape::Other));
}

#[test]
fn the_length_of_a_slice_is_the_metadata_of_its_fat_pointer() {
    let mut store = Assembly::new();
    let class = Interned::from_index(3);
    let addr = V1Node::V2(store.alloc_node(CILNode::LdLocA(2)));
    let len = cilly::rvalue::slice_len(class, addr.clone(), &mut store);
    let name = store.alloc_string("metadata");
    let field = store.alloc_field(FieldDesc::new(class, name, Type::Int(Int::USize)));
    assert_eq!(len, V1Node::LDField { addr: Box::new(addr), field });
    assert_eq!(field, Interned::from_index(0));
}

#[test]
fn a_function_pointer_names_a_static_method_of_the_main_module() {
    let mut store = Assembly::new();
    let sig = || cilly::fn_sig::FnSig::new(vec![Type::Int(Int::I32)], Type::Bool);
    let pointer = cilly::rvalue::reify_fn_pointer("callee", sig(), &mut store);
    let main = store.main_module();
    let interned = store.alloc_sig(sig());
    let site = store.new_methodref(main, "callee", interned, MethodKind::Static, vec![]);
    assert_eq!(pointer, V1Node::LDFtn(site));
    assert_eq!(site, Interned::from_index(0));
    assert_eq!(store.get_string(store.get_mref(site).name()), "callee");

    let same = cilly::rvalue::closure_fn_pointer("callee", sig(), Type::FnPtr(interned), &mut store);
    assert_eq!(same, V1Node::LDFtn(site));
    let other = store.sig(vec![], Type::Void);
    let cast = cilly::rvalue::closure_fn_pointer("callee", sig(), Type::FnPtr(other), &mut store);
    assert_eq!(cast, V1Node::LDFtn(site).cast_ptr(Type::FnPtr(other)));
    let closure = cilly::rvalue::closure_fn_pointer("closure", sig(), Type::FnPtr(interned), &mut store);
    assert_eq!(closure, V1Node::LDFtn(Interned::from_index(1)));
}

#[test]
fn a_small_constant_without_pointers_becomes_a_scalar() {
    let padded = cilly::constant::scalar_bytes(4, vec![1, 2, 3], false);
    assert_eq!(padded, Some(vec![1, 2, 3, 0, 0, 0, 0, 0, 0, 0, 0, 0, 0, 0, 0, 0]));
    let full: Vec<u8> = (1..=16).collect();
    assert_eq!(cilly::constant::scalar_bytes(8, full.clone(), false), Some(full.clone()));
    assert_eq!(cilly::constant::scalar_bytes(0, vec![], false), Some(vec![0; 16]));
    assert_eq!(cilly::constant::scalar_bytes(16, vec![1], false), None);
    assert_eq!(cilly::constant::scalar_bytes(8, vec![0; 17], false), None);
    assert_eq!(cilly::constant::scalar_bytes(8, full, true), None);
}
