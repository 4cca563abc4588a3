use cilly::assembly::Assembly;
use cilly::cil_node::V1Node;
use cilly::cilnode::{BinOp, CILNode, IsPure, UnOp};
use cilly::cst::Const;
use cilly::interned::Interned;
use cilly::rewrite::{Identity, NodePass};
use cilly::tpe::Type;
use std::cell::RefCell;

/// Expands a node into text, operands in full, so that two nodes can be
/// compared whatever handles they hold.
fn show(node: &CILNode, store: &Assembly) -> String {
    let kids: Vec<String> = node
        .child_nodes()
        .into_iter()
        .map(|h| show(store.get_node(h), store))
        .collect();
    let head = match node {
        CILNode::BinOp(_, _, op) => format!("{:?}", op),
        CILNode::UnOp(_, op) => format!("{:?}", op),
        CILNode::Call(info) => format!("Call{}{:?}", info.0.as_bimap_index(), info.2),
        CILNode::LdInd { tpe, volatile, .. } => format!("LdInd{:?}{}", store.get_type(*tpe), volatile),
        CILNode::LdLoc(n) => format!("LdLoc{}", n),
        CILNode::LdArg(n) => format!("LdArg{}", n),
        CILNode::Const(c) => format!("{:?}", c),
        other => format!("{:?}", other),
    };
    format!("{}({})", head, kids.join(","))
}

fn sample(store: &mut Assembly) -> CILNode {
    let site = store.helper("f", vec![Type::Bool], Type::Bool);
    let tree = V1Node::Add(
        Box::new(V1Node::Mul(Box::new(V1Node::LDLoc(0)), Box::new(V1Node::LDLoc(1)))),
        Box::new(V1Node::Call(Box::new(cilly::cil_node::CallOpArgs {
            args: vec![
                V1Node::LDIndI32 { ptr: Box::new(V1Node::LDLoc(2)) },
                V1Node::Neg(Box::new(V1Node::LDLoc(0))),
            ],
            site,
            is_pure: IsPure(true),
        }))),
    );
    CILNode::from_v1(&tree, store)
}

#[test]
fn rewriting_with_the_identity_changes_nothing() {
    let mut store = Assembly::new();
    let node = sample(&mut store);
    let before = store.nodes_len();
    let text = show(&node, &store);
    let mapped = node.clone().map(&mut store, &Identity);
    assert_eq!(show(&mapped, &store), text);
    assert_eq!(mapped, node);
    assert_eq!(store.nodes_len(), before);
}

#[test]
fn rewriting_keeps_the_purity_of_a_call() {
    let mut store = Assembly::new();
    let site = store.helper("g", vec![], Type::Void);
    let arg = store.alloc_node(CILNode::LdLoc(0));
    let call = CILNode::Call(Box::new((site, vec![arg], IsPure(true))));
    assert_eq!(call.clone().map(&mut store, &Identity), call);
}

struct Shift;

impl NodePass for Shift {
    fn apply(&self, node: CILNode, _store: &mut Assembly) -> CILNode {
        match node {
            CILNode::LdLoc(n) => CILNode::LdLoc(n + 10),
            other => other,
        }
    }
}

#[test]
fn a_pass_is_applied_at_every_leaf() {
    let mut store = Assembly::new();
    let node = sample(&mut store);
    let mapped = node.map(&mut store, &Shift);
    assert_eq!(
        show(&mapped, &store),
        "Add(Mul(LdLoc10(),LdLoc11()),Call0IsPure(true)(LdIndInt(I32)false(LdLoc12()),Neg(LdLoc10())))"
    );
}

struct Recorder {
    seen: RefCell<Vec<String>>,
}

impl NodePass for Recorder {
    fn apply(&self, node: CILNode, store: &mut Assembly) -> CILNode {
        self.seen.borrow_mut().push(show(&node, store));
        node
    }
}

#[test]
fn a_pass_sees_operands_before_the_node_that_holds_them() {
    let mut store = Assembly::new();
    let a = store.alloc_node(CILNode::LdLoc(0));
    let b = store.alloc_node(CILNode::LdLoc(1));
    let neg = store.alloc_node(CILNode::UnOp(b, UnOp::Neg));
    let node = CILNode::BinOp(a, neg, BinOp::Sub);
    let pass = Recorder { seen: RefCell::new(vec![]) };
    let mapped = node.clone().map(&mut store, &pass);
    assert_eq!(mapped, node);
    assert_eq!(
        *pass.seen.borrow(),
        vec!["LdLoc0()", "LdLoc1()", "Neg(LdLoc1())", "Sub(LdLoc0(),Neg(LdLoc1()))"]
    );
}

struct FoldNeg;

impl NodePass for FoldNeg {
    fn apply(&self, node: CILNode, store: &mut Assembly) -> CILNode {
        if let CILNode::UnOp(val, UnOp::Neg) = &node {
            if let CILNode::Const(c) = store.get_node(*val) {
                if let Const::I32(v) = **c {
                    return CILNode::Const(Box::new(Const::I32(v.wrapping_neg())));
                }
            }
        }
        node
    }
}

#[test]
fn a_pass_may_replace_a_node_by_another_kind() {
    let mut store = Assembly::new();
    let five = store.alloc_node(CILNode::Const(Box::new(Const::I32(5))));
    let neg = store.alloc_node(CILNode::UnOp(five, UnOp::Neg));
    let twice = store.alloc_node(CILNode::UnOp(neg, UnOp::Neg));
    let node = CILNode::BinOp(twice, neg, BinOp::Add);
    let mapped = node.map(&mut store, &FoldNeg);
    assert_eq!(show(&mapped, &store), "Add(I32(5)(),I32(-5)())");
}

#[test]
fn leaves_are_handed_to_the_pass_as_they_are() {
    let mut store = Assembly::new();
    let pass = Recorder { seen: RefCell::new(vec![]) };
    let tpe = store.alloc_type(Type::Bool);
    let leaves = vec![
        CILNode::Const(Box::new(Const::Bool(true))),
        CILNode::LdLoc(1),
        CILNode::LdLocA(1),
        CILNode::LdArg(1),
        CILNode::LdArgA(1),
        CILNode::SizeOf(tpe),
        CILNode::GetException,
        CILNode::LocAllocAlgined { tpe, align: 8 },
        CILNode::LdStaticField(Interned::from_index(0)),
        CILNode::LdStaticFieldAddress(Interned::from_index(0)),
        CILNode::LdFtn(Interned::from_index(0)),
        CILNode::LdTypeToken(tpe),
    ];
    for leaf in leaves {
        assert!(leaf.child_nodes().is_empty());
        assert_eq!(leaf.clone().map(&mut store, &pass), leaf);
    }
    assert_eq!(pass.seen.borrow().len(), 12);
    assert_eq!(store.nodes_len(), 0);
}

#[test]
fn a_node_takes_new_operands() {
    let mut store = Assembly::new();
    let a = store.alloc_node(CILNode::LdLoc(0));
    let b = store.alloc_node(CILNode::LdLoc(1));
    let c = store.alloc_node(CILNode::LdLoc(2));
    let sig = store.sig(vec![], Type::Void);
    assert_eq!(
        CILNode::BinOp(a, b, BinOp::Add).with_children(vec![b, c]),
        CILNode::BinOp(b, c, BinOp::Add)
    );
    assert_eq!(
        CILNode::CallI(Box::new((a, sig, vec![b]))).with_children(vec![c, a]),
        CILNode::CallI(Box::new((c, sig, vec![a])))
    );
    assert_eq!(CILNode::LdLoc(3).with_children(vec![]), CILNode::LdLoc(3));
    assert_eq!(
        CILNode::LdElelemRef { array: a, index: b }.with_children(vec![c, c]),
        CILNode::LdElelemRef { array: c, index: c }
    );
}
