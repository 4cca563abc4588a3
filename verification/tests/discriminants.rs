use cilly::assembly::Assembly;
use cilly::cil_node::{CallOpArgs, V1Node};
use cilly::cil_root::V1Root;
use cilly::cilnode::{CILNode, IsPure, MethodKind};
use cilly::cst::Const;
use cilly::field_desc::FieldDesc;
use cilly::interned::Interned;
use cilly::tpe::{Float, Int, Type};
use cilly::utilis::adt::{
    enum_tag_info, get_variant_at_index, primitive_to_type, FieldOffsetIterator, FieldsShape,
    Integer, Layout, Primitive, TagEncoding, Variants,
};
use cilly::utilis::discr::{get_discr, set_discr, DiscrRead, DiscrWrite};

fn leaf(uninhabited: bool) -> Layout {
    Layout { fields: FieldsShape::Primitive, variants: Variants::Single { index: 0 }, uninhabited, discriminants: vec![] }
}

fn niche_layout(tag: Primitive) -> Layout {
    Layout {
        fields: FieldsShape::Arbitrary { offsets: vec![0], memory_index: vec![0] },
        variants: Variants::Multiple {
            tag,
            tag_encoding: TagEncoding::Niche {
                untagged_variant: 0,
                niche_variants_start: 1,
                niche_variants_end: 2,
                niche_start: 5,
            },
            tag_field: 0,
            variants: vec![leaf(false), leaf(false), leaf(false)],
        },
        uninhabited: false,
        discriminants: vec![0, 1, 2],
    }
}

fn direct_layout(tag: Primitive, discriminants: Vec<u128>) -> Layout {
    let variants = discriminants.iter().map(|_| leaf(false)).collect();
    Layout {
        fields: FieldsShape::Arbitrary { offsets: vec![8, 0], memory_index: vec![0, 1] },
        variants: Variants::Multiple { tag, tag_encoding: TagEncoding::Direct, tag_field: 1, variants },
        uninhabited: false,
        discriminants,
    }
}

const U8: Primitive = Primitive::Int(Integer::I8, false);

#[test]
fn a_niche_tag_round_trips() {
    let layout = niche_layout(U8);
    assert!(layout.check_can_set(1));
    assert!(layout.check_can_get());
    let write = layout.discr_write(1);
    assert_eq!(write, DiscrWrite::Store(5));
    let tag = write.apply(200, 8);
    assert_eq!(tag, 5);
    let read = layout.discr_read();
    assert_eq!(read, DiscrRead::Niche { niche_start: 5, first: 1, relative_max: 1, untagged: 0 });
    assert_eq!(read.decode(tag, 8), 1);
    assert_eq!(layout.discr_write(2), DiscrWrite::Store(6));
    assert_eq!(read.decode(6, 8), 2);
}

#[test]
fn the_untagged_variant_writes_nothing() {
    let layout = niche_layout(U8);
    assert_eq!(layout.discr_write(0), DiscrWrite::Nop);
    assert_eq!(DiscrWrite::Nop.apply(9, 8), 9);
    assert_eq!(layout.discr_read().decode(9, 8), 0);
    let mut store = Assembly::new();
    assert_eq!(set_discr(&layout, 0, V1Node::LDLoc(0), Interned::from_index(0), &mut store), V1Root::Nop);
    assert_eq!(store.nodes_len(), 0);
}

#[test]
fn tags_outside_the_niche_tell_the_untagged_variant() {
    let read = niche_layout(U8).discr_read();
    for tag in [0u64, 4, 7, 9, 100, 255] {
        assert_eq!(read.decode(tag, 8), 0);
    }
    for (tag, variant) in [(5u64, 1u64), (6, 2)] {
        assert_eq!(read.decode(tag, 8), variant);
    }
}

#[test]
fn a_niche_may_wrap_around_the_width_of_the_tag() {
    let read = DiscrRead::Niche { niche_start: 254, first: 3, relative_max: 3, untagged: 1 };
    assert_eq!(read.decode(254, 8), 3);
    assert_eq!(read.decode(255, 8), 4);
    assert_eq!(read.decode(0, 8), 5);
    assert_eq!(read.decode(1, 8), 6);
    assert_eq!(read.decode(2, 8), 1);
    assert_eq!(read.decode(253, 8), 1);
    assert_eq!(Layout::niche_tag(254, 3, 5), 256);
    assert_eq!(DiscrWrite::Store(256).apply(0, 8), 0);
    assert_eq!(Layout::niche_tag(u128::MAX, 0, 2), 1);
    assert_eq!(DiscrWrite::Store(0x1_0000_0007).apply(0, 32), 7);
    assert_eq!(DiscrWrite::Store(0x1_0007).apply(0, 16), 7);
    assert_eq!(DiscrWrite::Store(u64::MAX).apply(0, 64), u64::MAX);
    assert_eq!(DiscrRead::Constant(4).decode(9, 16), 4);
    assert_eq!(DiscrRead::Tag.decode(9, 32), 9);
}

#[test]
fn a_type_with_one_variant_writes_nothing() {
    let mut store = Assembly::new();
    let layout = leaf(false);
    assert!(layout.check_can_set(0));
    assert!(!layout.check_can_set(1));
    assert_eq!(layout.discr_write(0), DiscrWrite::Nop);
    assert_eq!(set_discr(&layout, 0, V1Node::LDLoc(0), Interned::from_index(0), &mut store), V1Root::Nop);
    assert_eq!(store.nodes_len(), 0);
}

#[test]
fn a_variant_without_value_traps() {
    let mut store = Assembly::new();
    let layout = leaf(true);
    assert_eq!(layout.discr_write(3), DiscrWrite::Trap);
    let root = set_discr(&layout, 3, V1Node::LDLoc(0), Interned::from_index(0), &mut store);
    match &root {
        V1Root::Throw(V1Node::NewObj(call)) => {
            assert_eq!(
                call.args,
                vec![V1Node::LdStr(String::from(
                    "UB: SetDiscirminant used, but the specified enum variant is not inhabited."
                ))]
            );
            assert_eq!(call.is_pure, IsPure(false));
            let site = store.get_mref(call.site).clone();
            assert_eq!(store.get_string(site.name()), ".ctor");
            assert_eq!(site.kind(), MethodKind::Constructor);
            let class = store.class_ref(site.class()).clone();
            assert_eq!(store.get_string(class.name()), "System.Exception");
            assert_eq!(
                store.get_sig(site.sig()).inputs(),
                &vec![Type::ClassRef(site.class()), Type::PlatformString]
            );
            assert_eq!(store.get_sig(site.sig()).output(), &Type::Void);
        }
        other => panic!("not a throw: {:?}", other),
    }
    assert_eq!(root, V1Root::throw(
        "UB: SetDiscirminant used, but the specified enum variant is not inhabited.",
        &mut store,
    ));
    let mut multi = niche_layout(U8);
    if let Variants::Multiple { variants, .. } = &mut multi.variants {
        variants[2].uninhabited = true;
    }
    assert_eq!(multi.discr_write(2), DiscrWrite::Trap);
    assert_eq!(multi.discr_write(1), DiscrWrite::Store(5));
}

#[test]
fn a_tagged_variant_stores_the_niche_value() {
    let mut store = Assembly::new();
    let class = Interned::from_index(7);
    let root = set_discr(&niche_layout(U8), 2, V1Node::LDLoc(3), class, &mut store);
    let name = store.alloc_string("value__");
    let desc = store.alloc_field(FieldDesc::new(class, name, Type::Int(Int::U8)));
    let six = store.alloc_node(CILNode::Const(Box::new(Const::U64(6))));
    assert_eq!(
        root,
        V1Root::SetField {
            addr: Box::new(V1Node::LDLoc(3)),
            value: Box::new(V1Node::ConvU8(Box::new(V1Node::V2(six)))),
            desc,
        }
    );
}

#[test]
fn a_direct_tag_stores_the_discriminant() {
    let mut store = Assembly::new();
    let class = Interned::from_index(7);
    let layout = direct_layout(Primitive::Int(Integer::I64, false), vec![10, 20, 30]);
    assert_eq!(layout.discr_write(1), DiscrWrite::Store(20));
    let root = set_discr(&layout, 1, V1Node::LDLoc(3), class, &mut store);
    let name = store.alloc_string("value__");
    let desc = store.alloc_field(FieldDesc::new(class, name, Type::Int(Int::U64)));
    let twenty = store.alloc_node(CILNode::Const(Box::new(Const::U64(20))));
    assert_eq!(
        root,
        V1Root::SetField { addr: Box::new(V1Node::LDLoc(3)), value: Box::new(V1Node::V2(twenty)), desc }
    );
    let signed = direct_layout(Primitive::Int(Integer::I16, true), vec![1, 2]);
    match set_discr(&signed, 0, V1Node::LDLoc(3), class, &mut store) {
        V1Root::SetField { value, .. } => assert!(matches!(*value, V1Node::ConvI16(_))),
        other => panic!("not a store: {:?}", other),
    }
    assert!(!direct_layout(U8, vec![1]).check_can_set(1));
    assert!(!direct_layout(U8, vec![u128::MAX]).check_can_set(0));
    assert!(!direct_layout(Primitive::Float(Float::F32), vec![1]).check_can_set(0));
}

#[test]
fn a_direct_tag_is_read_as_it_is() {
    let mut store = Assembly::new();
    let class = Interned::from_index(7);
    let layout = direct_layout(Primitive::Int(Integer::I32, true), vec![1, 2]);
    assert_eq!(layout.discr_read(), DiscrRead::Tag);
    let node = get_discr(&layout, V1Node::LDLoc(0), class, &mut store);
    let name = store.alloc_string("value__");
    let field = store.alloc_field(FieldDesc::new(class, name, Type::Int(Int::I32)));
    assert_eq!(node, V1Node::LDField { addr: Box::new(V1Node::LDLoc(0)), field });
}

#[test]
fn a_type_with_one_variant_has_a_constant_discriminant() {
    let mut store = Assembly::new();
    let mut layout = leaf(false);
    layout.variants = Variants::Single { index: 2 };
    assert_eq!(layout.discr_read(), DiscrRead::Constant(2));
    layout.discriminants = vec![7, 8, 9];
    assert_eq!(layout.discr_read(), DiscrRead::Constant(9));
    let node = get_discr(&layout, V1Node::LDLoc(0), Interned::from_index(0), &mut store);
    let nine = store.alloc_node(CILNode::Const(Box::new(Const::U64(9))));
    assert_eq!(node, V1Node::V2(nine));
    layout.variants = Variants::Empty;
    assert_eq!(layout.discr_read(), DiscrRead::Constant(0));
    layout.variants = Variants::Single { index: 0 };
    layout.discriminants = vec![u128::MAX];
    assert!(!layout.check_can_get());
}

fn helper_call(node: &V1Node, store: &Assembly) -> (String, Vec<V1Node>, bool) {
    match node {
        V1Node::Call(call) => {
            let site = store.get_mref(call.site).clone();
            assert_eq!(site.class(), Interned::from_index(store.class_ref(site.class()).name().as_bimap_index() * 0 + site.class().as_bimap_index()));
            assert_eq!(store.get_string(store.class_ref(site.class()).name()), "MainModule");
            assert_eq!(site.kind(), MethodKind::Static);
            (store.get_string(site.name()).clone(), call.args.clone(), call.is_pure.0)
        }
        other => panic!("not a call: {:?}", other),
    }
}

#[test]
fn a_niche_with_several_variants_is_decoded_by_a_range_test() {
    let mut store = Assembly::new();
    let class = Interned::from_index(7);
    let node = get_discr(&niche_layout(U8), V1Node::LDLoc(0), class, &mut store);
    let (name, args, pure) = helper_call(&node, &store);
    assert_eq!(name, "select_u8");
    assert!(pure);
    let name = store.alloc_string("value__");
    let field = store.alloc_field(FieldDesc::new(class, name, Type::Int(Int::U8)));
    let constant = |v: u64, store: &mut Assembly| {
        V1Node::ConvU8(Box::new(V1Node::V2(store.alloc_node(CILNode::Const(Box::new(Const::U64(v)))))))
    };
    let tag = V1Node::LDField { addr: Box::new(V1Node::LDLoc(0)), field };
    let relative = V1Node::Sub(Box::new(tag), Box::new(constant(5, &mut store)));
    let no = V1Node::V2(store.alloc_node(CILNode::Const(Box::new(Const::Bool(false)))));
    let test = V1Node::Eq(
        Box::new(V1Node::GtUn(Box::new(relative.clone()), Box::new(constant(1, &mut store)))),
        Box::new(no),
    );
    let tagged = V1Node::Add(Box::new(relative), Box::new(constant(1, &mut store)));
    assert_eq!(args, vec![tagged, constant(0, &mut store), test]);
}

#[test]
fn a_niche_with_one_variant_is_decoded_by_a_comparison() {
    let mut store = Assembly::new();
    let class = Interned::from_index(7);
    let mut layout = niche_layout(Primitive::Int(Integer::I32, true));
    if let Variants::Multiple { tag_encoding, .. } = &mut layout.variants {
        *tag_encoding = TagEncoding::Niche {
            untagged_variant: 1,
            niche_variants_start: 0,
            niche_variants_end: 0,
            niche_start: 3,
        };
    }
    let node = get_discr(&layout, V1Node::LDLoc(0), class, &mut store);
    let (name, args, _) = helper_call(&node, &store);
    assert_eq!(name, "select_i32");
    let name = store.alloc_string("value__");
    let field = store.alloc_field(FieldDesc::new(class, name, Type::Int(Int::I32)));
    let constant = |v: u64, store: &mut Assembly| {
        V1Node::ConvI32(Box::new(V1Node::V2(store.alloc_node(CILNode::Const(Box::new(Const::U64(v)))))))
    };
    let tag = V1Node::LDField { addr: Box::new(V1Node::LDLoc(0)), field };
    let test = V1Node::Eq(Box::new(tag), Box::new(constant(3, &mut store)));
    assert_eq!(args, vec![constant(0, &mut store), constant(1, &mut store), test]);
}

#[test]
fn a_wide_niche_tag_is_compared_by_a_helper() {
    let mut store = Assembly::new();
    let class = Interned::from_index(7);
    let mut layout = niche_layout(Primitive::Int(Integer::I128, false));
    assert!(!layout.check_can_get());
    if let Variants::Multiple { tag_encoding, .. } = &mut layout.variants {
        *tag_encoding = TagEncoding::Niche {
            untagged_variant: 0,
            niche_variants_start: 1,
            niche_variants_end: 1,
            niche_start: u128::MAX,
        };
    }
    assert!(layout.check_can_get());
    let node = get_discr(&layout, V1Node::LDLoc(0), class, &mut store);
    let (name, args, _) = helper_call(&node, &store);
    assert_eq!(name, "select_u128");
    let (name, test_args, pure) = helper_call(&args[2], &store);
    assert_eq!(name, "eq_u128");
    assert!(!pure);
    let start = store.alloc_node(CILNode::Const(Box::new(Const::U128(u128::MAX))));
    assert_eq!(test_args[1], V1Node::V2(start));
    assert!(matches!(test_args[0], V1Node::LDField { .. }));
    match &args[0] {
        V1Node::Call(call) => {
            let site = store.get_mref(call.site).clone();
            assert_eq!(store.get_string(site.name()), "op_Implicit");
            assert_eq!(store.get_string(store.class_ref(site.class()).name()), "System.UInt128");
            assert_eq!(store.get_sig(site.sig()).inputs(), &vec![Type::Int(Int::U64)]);
            assert_eq!(store.get_sig(site.sig()).output(), &Type::Int(Int::U128));
        }
        other => panic!("not a conversion: {:?}", other),
    }
}

#[test]
fn a_pointer_tag_is_selected_as_an_integer() {
    let mut store = Assembly::new();
    let node = get_discr(&niche_layout(Primitive::Pointer), V1Node::LDLoc(0), Interned::from_index(1), &mut store);
    match &node {
        V1Node::CastPtr { val, new_ptr } => {
            let void = store.alloc_type(Type::Void);
            assert_eq!(**new_ptr, Type::Ptr(void));
            let (name, args, _) = helper_call(val, &store);
            assert_eq!(name, "select_usize");
            assert!(matches!(&args[0], V1Node::CastPtr { new_ptr, .. } if **new_ptr == Type::Int(Int::USize)));
        }
        other => panic!("not a cast: {:?}", other),
    }
    assert_eq!(node.check_lowerable(&store), Ok(()));
}

#[test]
fn offsets_of_fields_are_listed() {
    let mut it = FieldOffsetIterator::from_fields_shape(&FieldsShape::Array { stride: 4, count: 3 });
    assert_eq!(it.next(), Some(0));
    assert_eq!(it.next(), Some(4));
    assert_eq!(it.next(), Some(8));
    assert_eq!(it.next(), None);
    assert_eq!(it.next(), None);
    let arbitrary = FieldsShape::Arbitrary { offsets: vec![16, 0, 65535, 65536, 4294967295], memory_index: vec![1, 0, 2, 3, 4] };
    assert!(arbitrary.is_readable());
    let mut it = FieldOffsetIterator::from_fields_shape(&arbitrary);
    assert_eq!(it.nth(1), Some(0));
    assert_eq!(it.next(), Some(65535));
    assert_eq!(it.next(), Some(0));
    assert_eq!(it.next(), Some(0));
    assert_eq!(it.next(), None);
    let mut it = FieldOffsetIterator::from_fields_shape(&FieldsShape::Union(2));
    assert_eq!(it.nth(0), Some(0));
    assert_eq!(it.nth(0), Some(0));
    assert_eq!(it.nth(0), None);
    let mut it = FieldOffsetIterator::from_fields_shape(&FieldsShape::Primitive);
    assert_eq!(it.next(), None);
    let mut it = FieldOffsetIterator::from_fields_shape(&FieldsShape::Array { stride: 2, count: 4 });
    assert_eq!(it.nth(5), None);
    assert_eq!(it.next(), None);
    assert!(!FieldsShape::Array { stride: 1 << 32, count: 0 }.is_readable());
    assert!(!FieldsShape::Array { stride: 1 << 16, count: 1 << 16 }.is_readable());
    assert!(FieldsShape::Array { stride: 0xffff_ffff, count: 1 }.is_readable());
    assert!(!FieldsShape::Arbitrary { offsets: vec![1 << 32], memory_index: vec![0] }.is_readable());
    assert!(!FieldsShape::Arbitrary { offsets: vec![], memory_index: vec![0] }.is_readable());
}

#[test]
fn the_tag_of_an_enum_has_a_type_and_an_offset() {
    let mut store = Assembly::new();
    let layout = direct_layout(Primitive::Int(Integer::I16, true), vec![1, 2]);
    assert_eq!(enum_tag_info(&layout, &mut store), (Type::Int(Int::I16), 0));
    let mut single = leaf(false);
    assert_eq!(enum_tag_info(&single, &mut store), (Type::Void, 0));
    single.fields = FieldsShape::Arbitrary { offsets: vec![12], memory_index: vec![0] };
    assert_eq!(enum_tag_info(&single, &mut store), (Type::Void, 12));
    single.variants = Variants::Empty;
    assert_eq!(enum_tag_info(&single, &mut store), (Type::Void, 0));
    let mut far = direct_layout(Primitive::Pointer, vec![1]);
    if let Variants::Multiple { tag_field, .. } = &mut far.variants {
        *tag_field = 9;
    }
    let void = store.alloc_type(Type::Void);
    assert_eq!(enum_tag_info(&far, &mut store), (Type::Ptr(void), 0));
}

#[test]
fn scalars_have_types() {
    let mut store = Assembly::new();
    let cases = [
        (Primitive::Int(Integer::I8, true), Type::Int(Int::I8), 8),
        (Primitive::Int(Integer::I16, true), Type::Int(Int::I16), 16),
        (Primitive::Int(Integer::I32, true), Type::Int(Int::I32), 32),
        (Primitive::Int(Integer::I64, true), Type::Int(Int::I64), 64),
        (Primitive::Int(Integer::I128, true), Type::Int(Int::I128), 128),
        (Primitive::Int(Integer::I8, false), Type::Int(Int::U8), 8),
        (Primitive::Int(Integer::I16, false), Type::Int(Int::U16), 16),
        (Primitive::Int(Integer::I32, false), Type::Int(Int::U32), 32),
        (Primitive::Int(Integer::I64, false), Type::Int(Int::U64), 64),
        (Primitive::Int(Integer::I128, false), Type::Int(Int::U128), 128),
        (Primitive::Float(Float::F16), Type::Float(Float::F16), 16),
        (Primitive::Float(Float::F32), Type::Float(Float::F32), 32),
        (Primitive::Float(Float::F64), Type::Float(Float::F64), 64),
    ];
    for (primitive, tpe, bits) in cases {
        assert_eq!(primitive_to_type(primitive, &mut store), tpe);
        assert_eq!(primitive.bits(), bits);
    }
    assert_eq!(Primitive::Pointer.bits(), 64);
    assert!(Primitive::Int(Integer::I128, true).wide());
    assert!(!Primitive::Pointer.wide());
}

#[test]
fn the_layout_of_a_variant_is_found() {
    let layout = niche_layout(U8);
    let mut marked = niche_layout(U8);
    if let Variants::Multiple { variants, .. } = &mut marked.variants {
        variants[1].uninhabited = true;
    }
    assert!(get_variant_at_index(1, &marked).uninhabited);
    assert!(!get_variant_at_index(1, &layout).uninhabited);
    let single = leaf(true);
    assert_eq!(get_variant_at_index(5, &single), &single);
    assert_eq!(layout.discriminant_for(2), Some(2));
    assert_eq!(layout.discriminant_for(3), None);
    let call = CallOpArgs { args: vec![], site: Interned::from_index(0), is_pure: IsPure(false) };
    assert_eq!(call.clone(), call);
}
