use crate::assembly::Assembly;
use crate::cil_node::{TreeView, V1Node};
use crate::cilnode::NodeView;
use crate::interned::Interned;
use crate::tpe::Type;
use vstd::prelude::*;

verus! {

/// What is known of the value of a constant: a scalar, nothing at all for
/// a constant without size, or for a constant in memory the stretches
/// into which its bytes fall, each of them initialized or not.
#[derive(Debug, PartialEq, Eq)]
pub enum ConstShape {
    /// An integer scalar; `is_null` tells whether it is zero.
    ScalarInt { is_null: bool },
    /// A pointer.
    ScalarPtr,
    ZeroSized,
    /// A slice; `chunks` tells of each stretch of its bytes whether it is
    /// initialized.
    Slice { chunks: Vec<bool> },
    /// A constant held in memory, if it is plain memory.
    Indirect { memory: Option<Vec<bool>> },
}

/// An operand: a place that is copied or moved from, or a constant.
#[derive(Debug, PartialEq, Eq)]
pub enum OperandShape {
    Place,
    Constant(ConstShape),
}

/// Whether the bytes are one stretch that is not initialized.
pub open spec fn all_uninit(chunks: Seq<bool>) -> bool {
    chunks.len() == 1 && !chunks[0]
}

impl OperandShape {
    /// Whether the operand has no initialized data, so that assigning it
    /// can be skipped: a constant without size, or a constant in memory
    /// all of whose bytes are one stretch that is not initialized.
    pub open spec fn uninit_spec(self) -> bool {
        match self {
            OperandShape::Place => false,
            OperandShape::Constant(shape) => match shape {
                ConstShape::ScalarInt { .. } | ConstShape::ScalarPtr => false,
                ConstShape::ZeroSized => true,
                ConstShape::Slice { chunks } => all_uninit(chunks@),
                ConstShape::Indirect { memory } => match memory {
                    Some(chunks) => all_uninit(chunks@),
                    None => false,
                },
            },
        }
    }

    /// Whether the operand is a constant all of whose bits are zero: a
    /// zero integer, or a constant without size.
    pub open spec fn const_zero_spec(self) -> bool {
        match self {
            OperandShape::Place => false,
            OperandShape::Constant(shape) => match shape {
                ConstShape::ScalarInt { is_null } => is_null,
                ConstShape::ZeroSized => true,
                _ => false,
            },
        }
    }
}

fn one_uninit(chunks: &Vec<bool>) -> (r: bool)
    ensures
        r == all_uninit(chunks@),
{
    chunks.len() == 1 && !chunks[0]
}

/// Whether the operand has no initialized data.
pub fn is_uninit(operand: &OperandShape) -> (r: bool)
    ensures
        r == operand.uninit_spec(),
{
    match operand {
        OperandShape::Place => false,
        OperandShape::Constant(shape) => match shape {
            ConstShape::ScalarInt { .. } => false,
            ConstShape::ScalarPtr => false,
            ConstShape::ZeroSized => true,
            ConstShape::Slice { chunks } => one_uninit(chunks),
            ConstShape::Indirect { memory } => match memory {
                Some(chunks) => one_uninit(chunks),
                None => false,
            },
        },
    }
}

/// Whether the operand is a constant all of whose bits are zero.
pub fn is_const_zero(operand: &OperandShape) -> (r: bool)
    ensures
        r == operand.const_zero_spec(),
{
    match operand {
        OperandShape::Place => false,
        OperandShape::Constant(shape) => match shape {
            ConstShape::ScalarInt { is_null } => *is_null,
            ConstShape::ZeroSized => true,
            _ => false,
        },
    }
}

/// The object of type `local_type` at the address of the constant
/// `constant`: the constant becomes an anonymous constant of the store,
/// and the object is loaded from its address.
pub fn constant_address(constant: V1Node, local_type: Type, store: &mut Assembly) -> (r: V1Node)
    requires
        old(store).wf(),
        constant@.lowerable(old(store)@),
    ensures
        final(store).wf(),
        final(store)@.extends(old(store)@),
        r@ matches TreeView::Load { ptr, tpe } && tpe == local_type && (*ptr matches TreeView::Graph(h)
            && final(store)@.has_node(h) && final(store)@.nodes[h.index()] is LdStaticFieldAddress),
        r@.lowerable(final(store)@),
{
    let ghost s0 = store@;
    proof {
        store.lemma_wf();
    }
    let tpe = store.alloc_type(local_type);
    let ghost s1 = store@;
    proof {
        constant@.lemma_stable(s0, s1);
    }
    let ptr = V1Node::stack_addr(constant, tpe, store);
    proof {
        store@.lemma_extends_transitive(s1, s0);
    }
    V1Node::load_object(ptr, local_type)
}

} // verus!
