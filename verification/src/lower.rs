use crate::assembly::Assembly;
use crate::cil_node::{
    denote_all, lemma_denote_all, lemma_stable_all, lemma_view_all, lowerable_all, view_all,
    CallKind, Shape, TreeView, V1Node,
};
use crate::lowerable::LowerError;
use crate::cilnode::{CILNode, IsPure, NodeView, PtrCastRes};
use crate::cst::Const;
use crate::expr::Expr;
use crate::interned::Interned;
use crate::tpe::Type;
use vstd::prelude::*;

verus! {

impl CILNode {
    /// Lowers a tree into the graph form: interns every operand of the tree
    /// and returns the node that stands for the tree. The node is not
    /// interned; its operands are, each before the node that holds it.
    ///
    /// The tree has to be one that can be lowered, see `check_lowerable`.
    #[verifier::rlimit(50)]
    pub fn from_v1(v1: &V1Node, store: &mut Assembly) -> (r: CILNode)
        requires
            old(store).wf(),
            v1@.lowerable(old(store)@),
        ensures
            final(store).wf(),
            final(store)@.extends(old(store)@),
            r@.wf_in(final(store)@),
            final(store)@.expr_of(r@) == v1@.denote(old(store)@),
            v1@ matches TreeView::BinOp(_, _, op) ==> (r@ matches NodeView::BinOp(_, _, kind) && kind
                == op),
            v1@ is Load ==> (r@ matches NodeView::LdInd { volatile, .. } && !volatile),
            v1@ is Volatile ==> (r@ matches NodeView::LdInd { volatile, .. } && volatile),
            final(store).initializers() == old(store).initializers(),
        decreases v1@, 1int,
    {
        let shape = v1.shape();
        proof {
            store@.lemma_extends_reflexive();
            shape.lemma_operands();
        }
        match shape {
            Shape::Graph(node) => {
                return store.get_node(node).clone();
            },
            Shape::Local(n) => {
                return CILNode::LdLoc(n);
            },
            Shape::Opaque(_) => {
                return vstd::pervasive::unreached();
            },
            Shape::FloatCast { input, target, is_signed } => {
                let input = Self::lower_one(input, store, Ghost(v1@));
                return CILNode::FloatCast { input, target, is_signed };
            },
            Shape::Load { ptr, tpe } => {
                let addr = Self::lower_one(ptr, store, Ghost(v1@));
                let ghost mid = store@;
                let tpe = store.alloc_type(tpe);
                proof {
                    store@.lemma_extends_transitive(mid, old(store)@);
                }
                return CILNode::LdInd { addr, tpe, volatile: false };
            },
            Shape::FieldAddress { addr, field } => {
                let addr = Self::lower_one(addr, store, Ghost(v1@));
                return CILNode::LdFieldAddress { addr, field };
            },
            Shape::Field { addr, field } => {
                let addr = Self::lower_one(addr, store, Ghost(v1@));
                return CILNode::LdField { addr, field };
            },
            Shape::BinOp(lhs, rhs, op) => {
                let (lhs, rhs) = Self::lower_pair(lhs, rhs, store, Ghost(v1@));
                return CILNode::BinOp(lhs, rhs, op);
            },
            Shape::Call { how, site, args, is_pure } => {
                let args = Self::lower_list(args, store, Ghost(v1@));
                let is_pure = match how {
                    CallKind::Direct => is_pure,
                    _ => IsPure(false),
                };
                return CILNode::Call(Box::new((site, args, is_pure)));
            },
            Shape::IntCast { input, target, extend } => {
                let input = Self::lower_one(input, store, Ghost(v1@));
                return CILNode::IntCast { input, target, extend };
            },
            Shape::RefToPtr(inner) => {
                let val = Self::lower_one(inner, store, Ghost(v1@));
                return CILNode::RefToPtr(val);
            },
            Shape::UnOp(inner, op) => {
                let val = Self::lower_one(inner, store, Ghost(v1@));
                return CILNode::UnOp(val, op);
            },
            Shape::FnPtr(site) => {
                return CILNode::LdFtn(site);
            },
            Shape::TypeToken(tpe) => {
                let tpe = store.alloc_type(tpe);
                return CILNode::LdTypeToken(tpe);
            },
            Shape::Str(text) => {
                let text = store.alloc_string(text.as_str());
                return CILNode::Const(Box::new(Const::PlatformString(text)));
            },
            Shape::CallI { sig, ptr, args } => {
                let sig = store.alloc_sig(sig.clone());
                let ghost s1 = store@;
                proof {
                    ptr@.lemma_stable(old(store)@, s1);
                }
                let ptr = Self::lower_one(ptr, store, Ghost(v1@));
                let ghost s2 = store@;
                proof {
                    s2.lemma_extends_transitive(s1, old(store)@);
                    lemma_stable_all(view_all(args@), old(store)@, s2);
                }
                let args = Self::lower_list(args, store, Ghost(v1@));
                proof {
                    store@.lemma_extends_transitive(s2, old(store)@);
                }
                return CILNode::CallI(Box::new((ptr, sig, args)));
            },
            Shape::Len(arr) => {
                let val = Self::lower_one(arr, store, Ghost(v1@));
                return CILNode::LdLen(val);
            },
            Shape::Elem { arr, idx } => {
                let array = Self::lower_one(arr, store, Ghost(v1@));
                let ghost mid = store@;
                proof {
                    idx@.lemma_stable(old(store)@, mid);
                }
                let index = Self::lower_one(idx, store, Ghost(v1@));
                proof {
                    store@.lemma_extends_transitive(mid, old(store)@);
                    assert(store@.exprs()[array.index()] == mid.exprs()[array.index()]);
                }
                return CILNode::LdElelemRef { array, index };
            },
            Shape::CastPtr { val, new_ptr } => {
                let val = Self::lower_one(val, store, Ghost(v1@));
                return match PtrCastRes::of_type(&new_ptr) {
                    Some(res) => CILNode::PtrCast(val, Box::new(res)),
                    None => vstd::pervasive::unreached(),
                };
            },
            Shape::AllocAligned { tpe, align } => {
                let tpe = store.alloc_type(tpe);
                return CILNode::LocAllocAlgined { tpe, align };
            },
            Shape::Alloc { size } => {
                let size = Self::lower_one(size, store, Ghost(v1@));
                return CILNode::LocAlloc { size };
            },
            Shape::Exception => {
                return CILNode::GetException;
            },
            Shape::CheckedCast { val, class } => {
                let val = Self::lower_one(val, store, Ghost(v1@));
                let ghost mid = store@;
                let tpe = store.alloc_type(Type::ClassRef(class));
                proof {
                    store@.lemma_extends_transitive(mid, old(store)@);
                }
                return CILNode::CheckedCast(val, tpe);
            },
            Shape::IsInst { val, class } => {
                let tpe = store.alloc_type(Type::ClassRef(class));
                let ghost mid = store@;
                proof {
                    val@.lemma_stable(old(store)@, mid);
                }
                let val = Self::lower_one(val, store, Ghost(v1@));
                proof {
                    store@.lemma_extends_transitive(mid, old(store)@);
                }
                return CILNode::IsInst(val, tpe);
            },
            Shape::Volatile(inner) => {
                let load = Self::from_v1(inner, store);
                return match load {
                    CILNode::LdInd { addr, tpe, volatile } => {
                        proof {
                            let before = NodeView::LdInd { addr, tpe, volatile };
                            let after = NodeView::LdInd { addr, tpe, volatile: true };
                            assert(before.kids() =~= after.kids());
                        }
                        CILNode::LdInd { addr, tpe, volatile: true }
                    },
                    _ => vstd::pervasive::unreached(),
                };
            },
            Shape::Unbox { object, tpe } => {
                let object = Self::lower_one(object, store, Ghost(v1@));
                let ghost mid = store@;
                let tpe = store.alloc_type(tpe);
                proof {
                    store@.lemma_extends_transitive(mid, old(store)@);
                }
                return CILNode::UnboxAny { object, tpe };
            },
        }
    }

    /// Lowers and interns an operand of the tree `parent`.
    fn lower_one(v1: &V1Node, store: &mut Assembly, Ghost(parent): Ghost<TreeView>) -> (h: Interned<
        CILNode,
    >)
        requires
            old(store).wf(),
            v1@.lowerable(old(store)@),
            decreases_to!(parent => v1@),
        ensures
            final(store).wf(),
            final(store)@.extends(old(store)@),
            final(store)@.has_node(h),
            final(store)@.expr_at(h) == v1@.denote(old(store)@),
            final(store).initializers() == old(store).initializers(),
        decreases parent, 0int,
    {
        let node = Self::from_v1(v1, store);
        let ghost mid = store@;
        let h = store.alloc_node(node);
        proof {
            store@.lemma_extends_transitive(mid, old(store)@);
        }
        h
    }

    /// Lowers two operands of the tree `parent`, then interns them.
    fn lower_pair(
        lhs: &V1Node,
        rhs: &V1Node,
        store: &mut Assembly,
        Ghost(parent): Ghost<TreeView>,
    ) -> (r: (Interned<CILNode>, Interned<CILNode>))
        requires
            old(store).wf(),
            lhs@.lowerable(old(store)@),
            rhs@.lowerable(old(store)@),
            decreases_to!(parent => lhs@),
            decreases_to!(parent => rhs@),
        ensures
            final(store).wf(),
            final(store)@.extends(old(store)@),
            final(store)@.has_node(r.0),
            final(store)@.has_node(r.1),
            final(store)@.expr_at(r.0) == lhs@.denote(old(store)@),
            final(store)@.expr_at(r.1) == rhs@.denote(old(store)@),
            final(store).initializers() == old(store).initializers(),
        decreases parent, 0int,
    {
        let first = Self::from_v1(lhs, store);
        let ghost s1 = store@;
        proof {
            rhs@.lemma_stable(old(store)@, s1);
        }
        let second = Self::from_v1(rhs, store);
        let ghost s2 = store@;
        proof {
            s2.lemma_extends_keeps(s1, first@);
            s2.lemma_extends_transitive(s1, old(store)@);
        }
        let a = store.alloc_node(first);
        let ghost s3 = store@;
        proof {
            s3.lemma_extends_keeps(s2, second@);
            s3.lemma_extends_transitive(s2, old(store)@);
        }
        let b = store.alloc_node(second);
        proof {
            store@.lemma_extends_transitive(s3, old(store)@);
            assert(store@.exprs()[a.index()] == s3.exprs()[a.index()]);
        }
        (a, b)
    }

    /// Lowers and interns the operands of the tree `parent` that a list
    /// holds, in order.
    fn lower_list(trees: &Vec<V1Node>, store: &mut Assembly, Ghost(parent): Ghost<TreeView>) -> (r:
        Vec<Interned<CILNode>>)
        requires
            old(store).wf(),
            lowerable_all(view_all(trees@), old(store)@),
            decreases_to!(parent => view_all(trees@)),
        ensures
            final(store).wf(),
            final(store)@.extends(old(store)@),
            r@.len() == trees@.len(),
            forall|i: int| 0 <= i < r@.len() ==> final(store)@.has_node(#[trigger] r@[i]),
            r@.map_values(|h: Interned<CILNode>| final(store)@.exprs()[h.index()]) == denote_all(
                view_all(trees@),
                old(store)@,
            ),
            final(store).initializers() == old(store).initializers(),
        decreases parent, 0int,
    {
        let ghost views = view_all(trees@);
        let ghost start = store@;
        proof {
            lemma_view_all(trees@);
            lemma_denote_all(views, start);
            start.lemma_extends_reflexive();
            store.lemma_wf();
        }
        let mut out: Vec<Interned<CILNode>> = Vec::new();
        let mut i: usize = 0;
        while i < trees.len()
            invariant
                i <= trees@.len(),
                out@.len() == i,
                store.wf(),
                start.wf(),
                store@.extends(start),
                views == view_all(trees@),
                views.len() == trees@.len(),
                forall|j: int| 0 <= j < trees@.len() ==> #[trigger] views[j] == trees@[j]@,
                lowerable_all(views, start),
                decreases_to!(parent => views),
                forall|j: int| 0 <= j < i ==> store@.has_node(#[trigger] out@[j]),
                forall|j: int|
                    0 <= j < i ==> store@.exprs()[(#[trigger] out@[j]).index()] == views[j].denote(
                        start,
                    ),
                store.initializers() == old(store).initializers(),
            decreases trees@.len() - i,
        {
            let ghost mid = store@;
            proof {
                assert(views[i as int] == trees@[i as int]@);
                assert(decreases_to!(views => views[i as int]));
                assert(views[i as int].lowerable(start));
                views[i as int].lemma_stable(start, mid);
            }
            let node = Self::from_v1(&trees[i], store);
            let ghost mid2 = store@;
            let h = store.alloc_node(node);
            proof {
                store@.lemma_extends_transitive(mid2, mid);
                store@.lemma_extends_transitive(mid, start);
                assert forall|j: int| 0 <= j < i implies store@.has_node(#[trigger] out@[j])
                    && store@.exprs()[out@[j].index()] == views[j].denote(start) by {
                    assert(mid.has_node(out@[j]));
                    assert(store@.exprs()[out@[j].index()] == mid.exprs()[out@[j].index()]);
                }
            }
            out.push(h);
            i += 1;
        }
        proof {
            assert(out@.map_values(|h: Interned<CILNode>| store@.exprs()[h.index()]) =~= denote_all(
                views,
                start,
            ));
        }
        out
    }

    /// Lowers a tree if it can be lowered, and says why if it cannot.
    pub fn try_from_v1(v1: &V1Node, store: &mut Assembly) -> (r: Result<CILNode, LowerError>)
        requires
            old(store).wf(),
        ensures
            final(store).wf(),
            final(store)@.extends(old(store)@),
            r is Ok <==> v1@.lowerable(old(store)@),
            r matches Err(e) ==> v1@.fault(old(store)@) == Some(e) && final(store)@ == old(store)@,
            r matches Ok(node) ==> node@.wf_in(final(store)@) && final(store)@.expr_of(node@)
                == v1@.denote(old(store)@),
            final(store).initializers() == old(store).initializers(),
    {
        proof {
            store@.lemma_extends_reflexive();
        }
        match v1.check_lowerable(store) {
            Ok(_) => Ok(Self::from_v1(v1, store)),
            Err(e) => Err(e),
        }
    }
}

} // verus!
