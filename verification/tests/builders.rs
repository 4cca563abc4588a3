use cilly::assembly::Assembly;
use cilly::call_info::{CallInfo, CanonAbi, ExternAbi, InstanceAbi};
use cilly::casts::int_to_int;
use cilly::cil_node::V1Node;
use cilly::cil_root::V1Root;
use cilly::cilnode::{CILNode, IsPure, MethodKind};
use cilly::class_ref::ClassRef;
use cilly::cst::Const;
use cilly::fn_sig::FnSig;
use cilly::interned::Interned;
use cilly::method_ref::MethodRef;
use cilly::tpe::{Int, Type};
use cilly::validation::ValidationContext;

struct Site {
    class: String,
    assembly: Option<String>,
    name: String,
    inputs: Vec<Type>,
    output: Type,
    kind: MethodKind,
}

fn site_of(site: Interned<MethodRef>, store: &Assembly) -> Site {
    let mref = store.get_mref(site).clone();
    let class = store.class_ref(mref.class()).clone();
    let sig = store.get_sig(mref.sig()).clone();
    assert!(mref.generics().is_empty());
    Site {
        class: store.get_string(class.name()).clone(),
        assembly: class.assembly().map(|a| store.get_string(a).clone()),
        name: store.get_string(mref.name()).clone(),
        inputs: sig.inputs().clone(),
        output: *sig.output(),
        kind: mref.kind(),
    }
}

fn helper_of(node: &V1Node, store: &Assembly) -> (Site, Vec<V1Node>, bool) {
    match node {
        V1Node::Call(call) => {
            let site = site_of(call.site, store);
            assert_eq!(site.class, "MainModule");
            assert_eq!(site.assembly, None);
            assert_eq!(site.kind, MethodKind::Static);
            (site, call.args.clone(), call.is_pure.0)
        }
        other => panic!("not a call: {:?}", other),
    }
}

#[test]
fn overflow_checks_are_calls_of_a_helper() {
    let mut store = Assembly::new();
    let tuple = Interned::from_index(4);
    let node = V1Node::ovf_check_tuple(&mut store, tuple, V1Node::LDLoc(1), V1Node::LDLoc(0), Type::Int(Int::I32));
    let (site, args, pure) = helper_of(&node, &store);
    assert_eq!(site.name, "ovf_check_tuple");
    assert_eq!(site.inputs, vec![Type::Int(Int::I32), Type::Bool]);
    assert_eq!(site.output, Type::ClassRef(tuple));
    assert_eq!(args, vec![V1Node::LDLoc(0), V1Node::LDLoc(1)]);
    assert!(pure);
}

#[test]
fn slices_are_made_by_a_helper() {
    let mut store = Assembly::new();
    let slice = Interned::from_index(2);
    let node = V1Node::create_slice(slice, &mut store, V1Node::LDLoc(1), V1Node::LDLoc(0));
    let (site, args, pure) = helper_of(&node, &store);
    let void = store.alloc_type(Type::Void);
    assert_eq!(site.name, "create_slice");
    assert_eq!(site.inputs, vec![Type::Ptr(void), Type::Int(Int::USize)]);
    assert_eq!(site.output, Type::ClassRef(slice));
    assert_eq!(args, vec![V1Node::LDLoc(0), V1Node::LDLoc(1)]);
    assert!(pure);
}

#[test]
fn wide_constants_are_nodes_of_the_store() {
    let mut store = Assembly::new();
    let node = V1Node::const_u128(u128::MAX, &mut store);
    let expected = store.alloc_node(CILNode::Const(Box::new(Const::U128(u128::MAX))));
    assert_eq!(node, V1Node::V2(expected));
    let node = V1Node::const_i128(u128::MAX, &mut store);
    let expected = store.alloc_node(CILNode::Const(Box::new(Const::I128(-1))));
    assert_eq!(node, V1Node::V2(expected));
    let node = V1Node::const_i128(5, &mut store);
    let expected = store.alloc_node(CILNode::Const(Box::new(Const::I128(5))));
    assert_eq!(node, V1Node::V2(expected));
    let node = V1Node::constant(Const::Bool(true), &mut store);
    let expected = store.alloc_node(CILNode::Const(Box::new(Const::Bool(true))));
    assert_eq!(node, V1Node::V2(expected));
    assert_eq!(Const::F32(1.5f32.to_bits()).tpe(), Type::Float(cilly::tpe::Float::F32));
    assert_eq!(Const::USize(1).tpe(), Type::Int(Int::USize));
    assert_ne!(Const::F64(0.0f64.to_bits()), Const::F64((-0.0f64).to_bits()));
}

#[test]
fn handles_of_the_garbage_collector_are_allocated_and_converted() {
    let mut store = Assembly::new();
    let node = V1Node::LDLoc(0).managed_ref_to_handle(&mut store);
    let class = ClassRef::gc_handle(&mut store);
    match &node {
        V1Node::Call(outer) => {
            assert_eq!(outer.is_pure, IsPure(false));
            let convert = site_of(outer.site, &store);
            assert_eq!(convert.class, "System.Runtime.InteropServices.GCHandle");
            assert_eq!(convert.assembly, Some(String::from("System.Runtime")));
            assert_eq!(convert.name, "op_Explicit");
            assert_eq!(convert.inputs, vec![Type::ClassRef(class)]);
            assert_eq!(convert.output, Type::Int(Int::ISize));
            assert_eq!(convert.kind, MethodKind::Instance);
            match &outer.args[..] {
                [V1Node::Call(inner)] => {
                    let alloc = site_of(inner.site, &store);
                    assert_eq!(alloc.name, "Alloc");
                    assert_eq!(alloc.inputs, vec![Type::PlatformObject]);
                    assert_eq!(alloc.output, Type::ClassRef(class));
                    assert_eq!(alloc.kind, MethodKind::Static);
                    assert_eq!(inner.args, vec![V1Node::LDLoc(0)]);
                }
                other => panic!("not one call: {:?}", other),
            }
        }
        other => panic!("not a call: {:?}", other),
    }
    assert!(store.class_ref(class).is_valuetype());
}

#[test]
fn graph_nodes_take_handles_of_the_garbage_collector() {
    let mut store = Assembly::new();
    let node = CILNode::LdArg(0).ref_to_handle(&mut store);
    let arg = store.alloc_node(CILNode::LdArg(0));
    match &node {
        CILNode::Call(outer) => {
            let convert = site_of(outer.0, &store);
            assert_eq!(convert.name, "op_Explicit");
            assert_eq!(convert.kind, MethodKind::Static);
            assert_eq!(convert.output, Type::Int(Int::ISize));
            assert_eq!(outer.2, IsPure(false));
            assert_eq!(outer.1.len(), 1);
            match store.get_node(outer.1[0]) {
                CILNode::Call(inner) => {
                    let alloc = site_of(inner.0, &store);
                    assert_eq!(alloc.name, "Alloc");
                    assert_eq!(alloc.class, "System.Runtime.InteropServices.GCHandle");
                    assert_eq!(inner.1, vec![arg]);
                }
                other => panic!("not a call: {:?}", other),
            }
        }
        other => panic!("not a call: {:?}", other),
    }
}

#[test]
fn integers_are_selected_by_the_helper_of_their_type() {
    let kinds = [
        (Int::I8, "select_i8"),
        (Int::U8, "select_u8"),
        (Int::I16, "select_i16"),
        (Int::U16, "select_u16"),
        (Int::I32, "select_i32"),
        (Int::U32, "select_u32"),
        (Int::I64, "select_i64"),
        (Int::U64, "select_u64"),
        (Int::I128, "select_i128"),
        (Int::U128, "select_u128"),
        (Int::ISize, "select_isize"),
        (Int::USize, "select_usize"),
    ];
    for (kind, name) in kinds {
        let mut store = Assembly::new();
        let tpe = Type::Int(kind);
        let node = V1Node::select(tpe, V1Node::LDLoc(0), V1Node::LDLoc(1), V1Node::LDLoc(2), &mut store);
        let (site, args, pure) = helper_of(&node, &store);
        assert_eq!(site.name, name);
        assert_eq!(site.inputs, vec![tpe, tpe, Type::Bool]);
        assert_eq!(site.output, tpe);
        assert_eq!(args, vec![V1Node::LDLoc(0), V1Node::LDLoc(1), V1Node::LDLoc(2)]);
        assert!(pure);
    }
}

#[test]
fn pointers_are_selected_as_integers() {
    let mut store = Assembly::new();
    let tpe = store.nptr(Type::Bool);
    let node = V1Node::select(tpe, V1Node::LDLoc(0), V1Node::LDLoc(1), V1Node::LDLoc(2), &mut store);
    match &node {
        V1Node::CastPtr { val, new_ptr } => {
            assert_eq!(**new_ptr, tpe);
            let (site, args, _) = helper_of(val, &store);
            assert_eq!(site.name, "select_usize");
            let usize = Type::Int(Int::USize);
            assert_eq!(site.inputs, vec![usize, usize, Type::Bool]);
            assert_eq!(site.output, usize);
            assert_eq!(
                args,
                vec![V1Node::LDLoc(0).cast_ptr(usize), V1Node::LDLoc(1).cast_ptr(usize), V1Node::LDLoc(2)]
            );
        }
        other => panic!("not a cast: {:?}", other),
    }
}

#[test]
fn values_without_contents_come_from_a_helper() {
    let mut store = Assembly::new();
    let node = V1Node::uninit_val(Type::Int(Int::U8), &mut store);
    let (site, args, pure) = helper_of(&node, &store);
    assert_eq!(site.name, "uninit_val");
    assert!(site.inputs.is_empty());
    assert_eq!(site.output, Type::Int(Int::U8));
    assert!(args.is_empty());
    assert!(pure);
    let node = V1Node::uninit_val(Type::Void, &mut store);
    let field = store.global_void();
    let load = store.load_static(field);
    assert_eq!(node, V1Node::V2(load));
    let desc = *store.get_static_field(field);
    assert_eq!(store.get_string(desc.name), "global_void");
    assert_eq!(desc.tpe, Type::Void);
    assert_eq!(desc.owner, store.main_module());
}

#[test]
fn a_value_is_read_as_another_type_by_a_helper() {
    let mut store = Assembly::new();
    let same = V1Node::LDLoc(0).transmute_on_stack(Type::Bool, Type::Bool, &mut store);
    assert_eq!(same, V1Node::LDLoc(0));
    assert_eq!(store.nodes_len(), 0);
    let node = V1Node::LDLoc(0).transmute_on_stack(Type::Bool, Type::Int(Int::U8), &mut store);
    let (site, args, pure) = helper_of(&node, &store);
    assert_eq!(site.name, "transmute");
    assert_eq!(site.inputs, vec![Type::Bool]);
    assert_eq!(site.output, Type::Int(Int::U8));
    assert_eq!(args, vec![V1Node::LDLoc(0)]);
    assert!(!pure);
}

#[test]
fn a_compare_and_exchange_records_value_and_flag() {
    let val = Interned::from_index(1);
    let flag = Interned::from_index(2);
    let roots = V1Node::cxchng_res_val(V1Node::LDLoc(0), V1Node::LDLoc(1), V1Node::LDLoc(2), val, flag);
    assert_eq!(
        roots[0],
        V1Root::SetField { addr: Box::new(V1Node::LDLoc(2)), value: Box::new(V1Node::LDLoc(0)), desc: val }
    );
    assert_eq!(
        roots[1],
        V1Root::SetField {
            addr: Box::new(V1Node::LDLoc(2)),
            value: Box::new(V1Node::Eq(
                Box::new(V1Node::LDField { addr: Box::new(V1Node::LDLoc(2)), field: val }),
                Box::new(V1Node::LDLoc(1)),
            )),
            desc: flag,
        }
    );
    assert_eq!(roots[0].clone(), roots[0]);
}

#[test]
fn the_address_of_a_value_is_the_address_of_a_constant() {
    let mut store = Assembly::new();
    let tpe = store.alloc_type(Type::Int(Int::I32));
    let val = V1Node::Add(Box::new(V1Node::LDLoc(0)), Box::new(V1Node::LDLoc(1)));
    let node = V1Node::stack_addr(val, tpe, &mut store);
    match node {
        V1Node::V2(h) => match store.get_node(h).clone() {
            CILNode::LdStaticFieldAddress(field) => {
                let init = store.initializer_of(field).unwrap();
                assert!(matches!(store.get_node(init), CILNode::BinOp(..)));
                let desc = *store.get_static_field(field);
                assert_eq!(desc.tpe, Type::Int(Int::I32));
                assert_eq!(store.get_string(desc.name), &format!("c_{}", init.as_bimap_index()));
            }
            other => panic!("not an address: {:?}", other),
        },
        other => panic!("not a graph node: {:?}", other),
    }
}

#[test]
fn integers_are_cast_by_width() {
    let mut store = Assembly::new();
    let u64t = Type::Int(Int::U64);
    let cast = |target: Type, store: &mut Assembly| int_to_int(u64t, target, V1Node::LDLoc(0), store);
    let inner = || Box::new(V1Node::LDLoc(0));
    assert_eq!(cast(u64t, &mut store), V1Node::LDLoc(0));
    assert_eq!(cast(Type::Int(Int::U8), &mut store), V1Node::ConvU8(inner()));
    assert_eq!(cast(Type::Int(Int::I8), &mut store), V1Node::ConvI8(inner()));
    assert_eq!(cast(Type::Int(Int::U16), &mut store), V1Node::ConvU16(inner()));
    assert_eq!(cast(Type::Int(Int::I16), &mut store), V1Node::ConvI16(inner()));
    assert_eq!(cast(Type::Int(Int::U32), &mut store), V1Node::ConvU32(inner()));
    assert_eq!(cast(Type::Int(Int::I32), &mut store), V1Node::ConvI32(inner()));
    assert_eq!(cast(Type::Int(Int::I64), &mut store), V1Node::SignExtendToI64(inner()));
    assert_eq!(cast(Type::Int(Int::USize), &mut store), V1Node::ZeroExtendToUSize(inner()));
    assert_eq!(cast(Type::Int(Int::ISize), &mut store), V1Node::SignExtendToISize(inner()));
    assert_eq!(
        int_to_int(Type::Int(Int::I8), u64t, V1Node::LDLoc(0), &mut store),
        V1Node::ZeroExtendToU64(inner())
    );
    assert_eq!(store.nodes_len(), 0);
    let ptr = store.nptr(Type::Bool);
    assert_eq!(cast(ptr, &mut store), V1Node::ZeroExtendToUSize(inner()).cast_ptr(ptr));
}

#[test]
fn wide_integers_are_cast_by_conversion_operators() {
    let mut store = Assembly::new();
    let cases = [
        (Int::U64, Int::U128, "System.UInt128", "op_Implicit"),
        (Int::U64, Int::I128, "System.Int128", "op_Implicit"),
        (Int::U128, Int::U8, "System.UInt128", "op_Explicit"),
        (Int::I128, Int::I64, "System.Int128", "op_Explicit"),
        (Int::I128, Int::U128, "System.UInt128", "op_Explicit"),
    ];
    for (src, target, class, name) in cases {
        let node = int_to_int(Type::Int(src), Type::Int(target), V1Node::LDLoc(0), &mut store);
        match &node {
            V1Node::Call(call) => {
                let site = site_of(call.site, &store);
                assert_eq!(site.class, class);
                assert_eq!(site.assembly, Some(String::from("System.Runtime")));
                assert_eq!(site.name, name);
                assert_eq!(site.inputs, vec![Type::Int(src)]);
                assert_eq!(site.output, Type::Int(target));
                assert_eq!(site.kind, MethodKind::Static);
                assert_eq!(call.args, vec![V1Node::LDLoc(0)]);
                assert_eq!(call.is_pure, IsPure(false));
            }
            other => panic!("not a call: {:?}", other),
        }
    }
    let same = int_to_int(Type::Int(Int::U128), Type::Int(Int::U128), V1Node::LDLoc(0), &mut store);
    assert_eq!(same, V1Node::LDLoc(0));
}

#[test]
fn a_call_has_a_signature() {
    let abi = InstanceAbi {
        conv: CanonAbi::Rust,
        internal_abi: ExternAbi::RustCall,
        ret: Type::Bool,
        args: vec![Type::Int(Int::I32), Type::Void],
        c_variadic: false,
        variadic: vec![Type::Int(Int::U8)],
    };
    assert!(abi.supported());
    let info = CallInfo::sig_from_instance_(&abi);
    assert_eq!(info.sig(), &FnSig::new(vec![Type::Int(Int::I32), Type::Void], Type::Bool));
    assert!(info.split_last_tuple());
    let variadic = InstanceAbi { conv: CanonAbi::C, internal_abi: ExternAbi::C, c_variadic: true, ..abi };
    let info = CallInfo::sig_from_instance_(&variadic);
    assert_eq!(
        info.sig(),
        &FnSig::new(vec![Type::Int(Int::I32), Type::Void, Type::Int(Int::U8)], Type::Bool)
    );
    assert!(!info.split_last_tuple());
    for abi in [ExternAbi::Cdecl, ExternAbi::Rust, ExternAbi::RustCold, ExternAbi::Unadjusted, ExternAbi::SysV64] {
        let plain = InstanceAbi { conv: CanonAbi::X86, internal_abi: abi, ret: Type::Void, args: vec![], c_variadic: false, variadic: vec![] };
        assert!(plain.supported());
        assert!(!CallInfo::sig_from_instance_(&plain).split_last_tuple());
    }
    let other = InstanceAbi { conv: CanonAbi::Other, internal_abi: ExternAbi::C, ret: Type::Void, args: vec![], c_variadic: false, variadic: vec![] };
    assert!(!other.supported());
    let other = InstanceAbi { conv: CanonAbi::C, internal_abi: ExternAbi::Other, ret: Type::Void, args: vec![], c_variadic: false, variadic: vec![] };
    assert!(!other.supported());
}

#[test]
fn a_validation_context_hands_back_what_it_was_made_of() {
    let sig = FnSig::new(vec![Type::Bool], Type::Void);
    let locals = vec![(Some(String::from("x")), Type::Bool), (None, Type::Void)];
    let ctx = ValidationContext::new(&sig, &locals);
    assert_eq!(ctx.sig(), &sig);
    assert_eq!(ctx.locals(), &locals[..]);
    let mut changed = sig.clone();
    changed.set_inputs(vec![]);
    assert_eq!(changed, FnSig::new(vec![], Type::Void));
}
