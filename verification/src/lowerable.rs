use crate::assembly::Assembly;
use crate::cil_node::{lemma_view_all, lowerable_all, view_all, Shape, TreeView, V1Node};
use crate::expr::AssemblyView;
use crate::cilnode::CILNode;
use vstd::prelude::*;
use vstd::string::StringExecFns;

verus! {

/// Why a tree cannot be lowered.
#[derive(Debug, Clone, Copy, PartialEq, Eq, Structural)]
pub enum LowerError {
    /// The tree has a part that lowering does not support yet: a value that
    /// no pass may look into.
    UnsupportedBlackBox,
    /// A pointer cast has a target that is no pointer-like type.
    CastTargetNotPointer,
    /// A volatile mark wraps something that does not lower to a load.
    VolatileNotLoad,
    /// The tree embeds a handle of a node that the store does not hold.
    UnknownNode,
}

impl LowerError {
    /// A description of the error.
    pub fn message(&self) -> (r: String)
        ensures
            r@ == (match *self {
                LowerError::UnsupportedBlackBox => "lowering does not support BlackBox yet"@,
                LowerError::CastTargetNotPointer => "the target of a pointer cast is not a pointer-like type"@,
                LowerError::VolatileNotLoad => "a volatile mark wraps something that does not lower to a load"@,
                LowerError::UnknownNode => "the tree embeds a handle that the store did not issue"@,
            }),
    {
        match self {
            LowerError::UnsupportedBlackBox => String::from_str(
                "lowering does not support BlackBox yet",
            ),
            LowerError::CastTargetNotPointer => String::from_str(
                "the target of a pointer cast is not a pointer-like type",
            ),
            LowerError::VolatileNotLoad => String::from_str(
                "a volatile mark wraps something that does not lower to a load",
            ),
            LowerError::UnknownNode => String::from_str(
                "the tree embeds a handle that the store did not issue",
            ),
        }
    }
}

/// The first fault among the first `n` trees of a list, in the order of the
/// list.
pub open spec fn fault_upto(trees: Seq<TreeView>, s: AssemblyView, n: nat) -> Option<LowerError>
    decreases trees, n,
{
    if n == 0 || n > trees.len() {
        None
    } else {
        match fault_upto(trees, s, (n - 1) as nat) {
            Some(e) => Some(e),
            None => trees[n - 1].fault(s),
        }
    }
}

impl TreeView {
    /// Why the tree cannot be lowered into the store `s`, if it cannot: the
    /// first fault that a walk over the tree meets, which looks at a tree
    /// before its operands, and at operands in their order, except that a
    /// volatile mark is looked at after what it wraps.
    pub open spec fn fault(self, s: AssemblyView) -> Option<LowerError>
        decreases self, 0nat,
    {
        match self {
            TreeView::Graph(node) => if s.has_node(node) {
                None
            } else {
                Some(LowerError::UnknownNode)
            },
            TreeView::Opaque(_) => Some(LowerError::UnsupportedBlackBox),
            TreeView::Local(_) | TreeView::FnPtr(_) | TreeView::TypeToken(_) | TreeView::Str(_)
            | TreeView::AllocAligned { .. } | TreeView::Exception => None,
            TreeView::FloatCast { input, .. } | TreeView::IntCast { input, .. } => (*input).fault(s),
            TreeView::Load { ptr, .. } => (*ptr).fault(s),
            TreeView::FieldAddress { addr, .. } | TreeView::Field { addr, .. } => (*addr).fault(s),
            TreeView::BinOp(lhs, rhs, _) => match (*lhs).fault(s) {
                Some(e) => Some(e),
                None => (*rhs).fault(s),
            },
            TreeView::Call { args, .. } => fault_upto(args, s, args.len()),
            TreeView::RefToPtr(inner) | TreeView::UnOp(inner, _) | TreeView::Len(inner) => (*inner).fault(
                s,
            ),
            TreeView::CallI { ptr, args, .. } => match (*ptr).fault(s) {
                Some(e) => Some(e),
                None => fault_upto(args, s, args.len()),
            },
            TreeView::Elem { arr, idx } => match (*arr).fault(s) {
                Some(e) => Some(e),
                None => (*idx).fault(s),
            },
            TreeView::CastPtr { val, new_ptr } => if new_ptr.is_pointer_like() {
                (*val).fault(s)
            } else {
                Some(LowerError::CastTargetNotPointer)
            },
            TreeView::Alloc { size } => (*size).fault(s),
            TreeView::CheckedCast { val, .. } | TreeView::IsInst { val, .. } => (*val).fault(s),
            TreeView::Volatile(inner) => match (*inner).fault(s) {
                Some(e) => Some(e),
                None => if (*inner).denote(s) is LdInd {
                    None
                } else {
                    Some(LowerError::VolatileNotLoad)
                },
            },
            TreeView::Unbox { object, .. } => (*object).fault(s),
        }
    }

    /// A tree can be lowered just where it is without fault.
    pub proof fn lemma_fault(self, s: AssemblyView)
        ensures
            self.lowerable(s) <==> self.fault(s) is None,
        decreases self,
    {
        match self {
            TreeView::FloatCast { input, .. } | TreeView::IntCast { input, .. } => {
                (*input).lemma_fault(s);
            },
            TreeView::Load { ptr, .. } => {
                (*ptr).lemma_fault(s);
            },
            TreeView::FieldAddress { addr, .. } | TreeView::Field { addr, .. } => {
                (*addr).lemma_fault(s);
            },
            TreeView::BinOp(lhs, rhs, _) => {
                (*lhs).lemma_fault(s);
                (*rhs).lemma_fault(s);
            },
            TreeView::Call { args, .. } => {
                lemma_fault_upto(args, s, args.len());
                assert(lowerable_all(args, s) <==> forall|i: int|
                    0 <= i < args.len() ==> (#[trigger] args[i]).lowerable(s));
            },
            TreeView::RefToPtr(inner) | TreeView::UnOp(inner, _) | TreeView::Len(inner)
            | TreeView::Volatile(inner) => {
                (*inner).lemma_fault(s);
            },
            TreeView::CallI { ptr, args, .. } => {
                (*ptr).lemma_fault(s);
                lemma_fault_upto(args, s, args.len());
                assert(lowerable_all(args, s) <==> forall|i: int|
                    0 <= i < args.len() ==> (#[trigger] args[i]).lowerable(s));
            },
            TreeView::Elem { arr, idx } => {
                (*arr).lemma_fault(s);
                (*idx).lemma_fault(s);
            },
            TreeView::CastPtr { val, .. } => {
                (*val).lemma_fault(s);
            },
            TreeView::Alloc { size } => {
                (*size).lemma_fault(s);
            },
            TreeView::CheckedCast { val, .. } | TreeView::IsInst { val, .. } => {
                (*val).lemma_fault(s);
            },
            TreeView::Unbox { object, .. } => {
                (*object).lemma_fault(s);
            },
            _ => {},
        }
    }
}

/// The first `n` trees of a list are without fault just where each of them
/// can be lowered.
pub proof fn lemma_fault_upto(trees: Seq<TreeView>, s: AssemblyView, n: nat)
    requires
        n <= trees.len(),
    ensures
        fault_upto(trees, s, n) is None <==> forall|i: int|
            0 <= i < n ==> (#[trigger] trees[i]).lowerable(s),
    decreases trees, n,
{
    if n > 0 {
        lemma_fault_upto(trees, s, (n - 1) as nat);
        trees[n - 1].lemma_fault(s);
        if fault_upto(trees, s, n) is None {
            assert forall|i: int| 0 <= i < n implies (#[trigger] trees[i]).lowerable(s) by {
                if i == n - 1 {
                } else {
                }
            }
        } else {
            if fault_upto(trees, s, (n - 1) as nat) is None {
                assert(!trees[n - 1].lowerable(s));
            } else {
                let i = choose|i: int| 0 <= i < n - 1 && !(#[trigger] trees[i]).lowerable(s);
                assert(!trees[i].lowerable(s));
            }
        }
    }
}

/// The result of a check, by the fault that it found.
pub open spec fn checked(fault: Option<LowerError>) -> Result<(), LowerError> {
    match fault {
        Some(e) => Err(e),
        None => Ok(()),
    }
}

impl V1Node {
    /// Whether lowering the tree yields a load. Only a load does, a volatile
    /// mark around what does, and an embedded graph node that is a load.
    pub fn lowers_to_load(&self, store: &Assembly) -> (r: bool)
        requires
            store.wf(),
            self@.lowerable(store@),
        ensures
            r == (self@.denote(store@) is LdInd),
    {
        match self.shape() {
            Shape::Load { .. } => true,
            Shape::Volatile(_) => true,
            Shape::Graph(node) => match store.get_node(node) {
                CILNode::LdInd { .. } => true,
                _ => false,
            },
            _ => false,
        }
    }

    /// Checks whether the tree can be lowered into the store; says why, if
    /// it cannot.
    pub fn check_lowerable(&self, store: &Assembly) -> (r: Result<(), LowerError>)
        requires
            store.wf(),
        ensures
            r == checked(self@.fault(store@)),
            r is Ok <==> self@.lowerable(store@),
        decreases self@, 0int,
    {
        let shape = self.shape();
        proof {
            shape.lemma_operands();
            self@.lemma_fault(store@);
        }
        match shape {
            Shape::Graph(node) => {
                if store.has_node(node) {
                    Ok(())
                } else {
                    Err(LowerError::UnknownNode)
                }
            },
            Shape::Opaque(_) => Err(LowerError::UnsupportedBlackBox),
            Shape::Local(_) | Shape::FnPtr(_) | Shape::TypeToken(_) | Shape::Str(_)
            | Shape::AllocAligned { .. } | Shape::Exception => Ok(()),
            Shape::FloatCast { input, .. } => input.check_lowerable(store),
            Shape::IntCast { input, .. } => input.check_lowerable(store),
            Shape::Load { ptr, .. } => ptr.check_lowerable(store),
            Shape::FieldAddress { addr, .. } => addr.check_lowerable(store),
            Shape::Field { addr, .. } => addr.check_lowerable(store),
            Shape::RefToPtr(inner) => inner.check_lowerable(store),
            Shape::UnOp(inner, _) => inner.check_lowerable(store),
            Shape::Len(arr) => arr.check_lowerable(store),
            Shape::Alloc { size } => size.check_lowerable(store),
            Shape::CheckedCast { val, .. } => val.check_lowerable(store),
            Shape::IsInst { val, .. } => val.check_lowerable(store),
            Shape::Unbox { object, .. } => object.check_lowerable(store),
            Shape::BinOp(lhs, rhs, _) => match lhs.check_lowerable(store) {
                Ok(_) => rhs.check_lowerable(store),
                Err(e) => Err(e),
            },
            Shape::Elem { arr, idx } => match arr.check_lowerable(store) {
                Ok(_) => idx.check_lowerable(store),
                Err(e) => Err(e),
            },
            Shape::Call { args, .. } => check_all(args, store),
            Shape::CallI { ptr, args, .. } => match ptr.check_lowerable(store) {
                Ok(_) => check_all(args, store),
                Err(e) => Err(e),
            },
            Shape::CastPtr { val, new_ptr } => {
                if new_ptr.is_pointer_like() {
                    val.check_lowerable(store)
                } else {
                    Err(LowerError::CastTargetNotPointer)
                }
            },
            Shape::Volatile(inner) => match inner.check_lowerable(store) {
                Ok(_) => {
                    proof {
                        inner@.lemma_fault(store@);
                    }
                    if inner.lowers_to_load(store) {
                        Ok(())
                    } else {
                        Err(LowerError::VolatileNotLoad)
                    }
                },
                Err(e) => Err(e),
            },
        }
    }
}

/// Checks whether every tree of a list can be lowered into the store; says
/// why the first one that cannot be cannot.
pub fn check_all(trees: &Vec<V1Node>, store: &Assembly) -> (r: Result<(), LowerError>)
    requires
        store.wf(),
    ensures
        r == checked(fault_upto(view_all(trees@), store@, trees@.len())),
        r is Ok <==> lowerable_all(view_all(trees@), store@),
    decreases view_all(trees@), 1int,
{
    proof {
        lemma_view_all(trees@);
        lemma_fault_upto(view_all(trees@), store@, trees@.len());
    }
    let mut i: usize = 0;
    while i < trees.len()
        invariant
            i <= trees@.len(),
            store.wf(),
            view_all(trees@).len() == trees@.len(),
            forall|j: int| 0 <= j < trees@.len() ==> #[trigger] view_all(trees@)[j] == trees@[j]@,
            fault_upto(view_all(trees@), store@, i as nat) is None,
        decreases trees@.len() - i,
    {
        proof {
            assert(view_all(trees@)[i as int] == trees@[i as int]@);
            assert(decreases_to!(view_all(trees@) => view_all(trees@)[i as int]));
        }
        match trees[i].check_lowerable(store) {
            Ok(_) => {},
            Err(e) => {
                proof {
                    lemma_fault_after(view_all(trees@), store@, i as nat + 1, trees@.len());
                }
                return Err(e);
            },
        }
        i += 1;
    }
    Ok(())
}

/// The first fault among the first trees of a list is the first fault of
/// the list.
pub proof fn lemma_fault_after(trees: Seq<TreeView>, s: AssemblyView, n: nat, m: nat)
    requires
        n <= m <= trees.len(),
        fault_upto(trees, s, n) is Some,
    ensures
        fault_upto(trees, s, m) == fault_upto(trees, s, n),
    decreases m,
{
    if m > n {
        lemma_fault_after(trees, s, n, (m - 1) as nat);
    }
}

} // verus!
