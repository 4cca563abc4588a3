use cilly::assembly::{decimal, Assembly};
use cilly::bimap::BiMap;
use cilly::cilnode::{BinOp, CILNode};
use cilly::cst::Const;
use cilly::fn_sig::FnSig;
use cilly::interned::Interned;
use cilly::tpe::{Int, Type};

#[test]
fn interning_a_value_twice_yields_one_handle() {
    let mut table: BiMap<String> = BiMap::new();
    let first = table.intern(String::from("alpha"));
    let other = table.intern(String::from("beta"));
    let again = table.intern(String::from("alpha"));
    assert_eq!(first, again);
    assert_ne!(first, other);
    assert_eq!(table.len(), 2);
    assert_eq!(first.as_bimap_index(), 0);
    assert_eq!(other.as_bimap_index(), 1);
}

#[test]
fn resolving_a_handle_yields_the_value() {
    let mut table: BiMap<String> = BiMap::new();
    let h = table.intern(String::from("gamma"));
    assert_eq!(table.get(h), "gamma");
    assert_eq!(table.find(&String::from("gamma")), Some(h));
    assert_eq!(table.find(&String::from("delta")), None);
}

#[test]
fn many_values_keep_their_handles() {
    let mut table: BiMap<String> = BiMap::new();
    let mut handles = Vec::new();
    for i in 0..500u64 {
        handles.push(table.intern(decimal(i)));
    }
    assert_eq!(table.len(), 500);
    for i in 0..500u64 {
        assert_eq!(table.intern(decimal(i)), handles[i as usize]);
        assert_eq!(table.get(handles[i as usize]), &decimal(i));
    }
    assert_eq!(table.len(), 500);
}

#[test]
fn nodes_are_stored_once() {
    let mut store = Assembly::new();
    let a = store.alloc_node(CILNode::LdLoc(0));
    let b = store.alloc_node(CILNode::LdLoc(1));
    let a2 = store.alloc_node(CILNode::LdLoc(0));
    assert_eq!(a, a2);
    assert_ne!(a, b);
    let sum = store.alloc_node(CILNode::BinOp(a, b, BinOp::Add));
    let sum2 = store.alloc_node(CILNode::BinOp(a, b, BinOp::Add));
    let diff = store.alloc_node(CILNode::BinOp(a, b, BinOp::Sub));
    assert_eq!(sum, sum2);
    assert_ne!(sum, diff);
    assert_eq!(store.nodes_len(), 4);
    assert_eq!(store.get_node(sum), &CILNode::BinOp(a, b, BinOp::Add));
    assert!(store.has_node(diff));
    assert!(!store.has_node(Interned::from_index(4)));
}

#[test]
fn calls_with_equal_arguments_are_one_node() {
    let mut store = Assembly::new();
    let a = store.alloc_node(CILNode::LdArg(0));
    let b = store.alloc_node(CILNode::LdArg(1));
    let site = store.helper("f", vec![], Type::Void);
    let first = store.alloc_node(CILNode::call(site, vec![a, b]));
    let second = store.alloc_node(CILNode::call(site, vec![a, b]));
    let swapped = store.alloc_node(CILNode::call(site, vec![b, a]));
    assert_eq!(first, second);
    assert_ne!(first, swapped);
}

#[test]
fn types_strings_and_signatures_are_stored_once() {
    let mut store = Assembly::new();
    let t1 = store.alloc_type(Type::Int(Int::I32));
    let t2 = store.alloc_type(Type::Bool);
    assert_eq!(store.alloc_type(Type::Int(Int::I32)), t1);
    assert_ne!(t1, t2);
    assert_eq!(store.get_type(t1), &Type::Int(Int::I32));
    let s1 = store.alloc_string("main");
    assert_eq!(store.alloc_string("main"), s1);
    assert_eq!(store.get_string(s1), "main");
    let g1 = store.sig(vec![Type::Bool, Type::Void], Type::Int(Int::U8));
    let g2 = store.sig(vec![Type::Bool, Type::Void], Type::Int(Int::U8));
    let g3 = store.sig(vec![Type::Void, Type::Bool], Type::Int(Int::U8));
    assert_eq!(g1, g2);
    assert_ne!(g1, g3);
    assert_eq!(store.get_sig(g1), &FnSig::new(vec![Type::Bool, Type::Void], Type::Int(Int::U8)));
}

#[test]
fn pointer_types_refer_to_the_pointee() {
    let mut store = Assembly::new();
    let p = store.nptr(Type::Int(Int::U8));
    let r = store.nref(Type::Int(Int::U8));
    match (p, r) {
        (Type::Ptr(a), Type::Ref(b)) => {
            assert_eq!(a, b);
            assert_eq!(store.get_type(a), &Type::Int(Int::U8));
        }
        _ => panic!("not a pointer and a reference"),
    }
    assert_eq!(p.pointed_to(), r.pointed_to());
    assert!(p.is_pointer_like());
    assert!(!Type::Bool.is_pointer_like());
    assert!(Type::Int(Int::USize).is_pointer_like());
    assert!(Type::Int(Int::ISize).is_pointer_like());
    assert!(!Type::Int(Int::U64).is_pointer_like());
}

#[test]
fn decimal_writes_digits() {
    assert_eq!(decimal(0), "0");
    assert_eq!(decimal(7), "7");
    assert_eq!(decimal(10), "10");
    assert_eq!(decimal(1234567890), "1234567890");
    assert_eq!(decimal(u64::MAX), "18446744073709551615");
}

#[test]
fn anonymous_constants_are_named_after_the_node() {
    let mut store = Assembly::new();
    let zero = store.alloc_node(CILNode::Const(Box::new(Const::I32(0))));
    let node = store.alloc_node(CILNode::Const(Box::new(Const::I32(42))));
    assert_ne!(zero, node);
    let field = store.annon_const(node, Type::Int(Int::I32));
    let again = store.annon_const(node, Type::Int(Int::I32));
    assert_eq!(field, again);
    let desc = *store.get_static_field(field);
    assert_eq!(store.get_string(desc.name), "c_1");
    assert_eq!(desc.tpe, Type::Int(Int::I32));
    assert_eq!(desc.owner, store.main_module());
    assert_eq!(store.initializer_of(field), Some(node));
}

#[test]
fn the_main_module_is_one_class() {
    let mut store = Assembly::new();
    let a = store.main_module();
    let b = store.main_module();
    assert_eq!(a, b);
    let class = store.class_ref(a).clone();
    assert_eq!(store.get_string(class.name()), "MainModule");
    assert_eq!(class.assembly(), None);
    assert!(!class.is_valuetype());
    assert!(class.generics().is_empty());
}
