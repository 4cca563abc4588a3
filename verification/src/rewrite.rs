use crate::assembly::Assembly;
use crate::cilnode::{CILNode, NodeView};
use crate::expr::{AssemblyView, Expr};
use crate::interned::Interned;
use vstd::prelude::*;

verus! {

impl Expr {
    /// The operands of the expression, in order.
    pub open spec fn operands(self) -> Seq<Expr> {
        match self {
            Expr::BinOp(lhs, rhs, _) => seq![*lhs, *rhs],
            Expr::UnOp(val, _) => seq![*val],
            Expr::Call { args, .. } => args,
            Expr::IntCast { input, .. } => seq![*input],
            Expr::FloatCast { input, .. } => seq![*input],
            Expr::RefToPtr(val) => seq![*val],
            Expr::PtrCast(val, _) => seq![*val],
            Expr::LdFieldAddress { addr, .. } => seq![*addr],
            Expr::LdField { addr, .. } => seq![*addr],
            Expr::LdInd { addr, .. } => seq![*addr],
            Expr::IsInst(val, _) => seq![*val],
            Expr::CheckedCast(val, _) => seq![*val],
            Expr::CallI { ptr, args, .. } => seq![*ptr] + args,
            Expr::LocAlloc { size } => seq![*size],
            Expr::LdLen(val) => seq![*val],
            Expr::LdElelemRef { array, index } => seq![*array, *index],
            Expr::UnboxAny { object, .. } => seq![*object],
            _ => Seq::empty(),
        }
    }

    /// The expression with `ops` in place of its operands. A call takes as
    /// many arguments as `ops` gives it.
    pub open spec fn with_operands(self, ops: Seq<Expr>) -> Expr {
        match self {
            Expr::BinOp(_, _, op) => Expr::BinOp(Box::new(ops[0]), Box::new(ops[1]), op),
            Expr::UnOp(_, op) => Expr::UnOp(Box::new(ops[0]), op),
            Expr::Call { site, is_pure, .. } => Expr::Call { site: site, args: ops, is_pure: is_pure },
            Expr::IntCast { target, extend, .. } => Expr::IntCast { input: Box::new(ops[0]), target: target, extend: extend },
            Expr::FloatCast { target, is_signed, .. } => Expr::FloatCast { input: Box::new(ops[0]), target: target, is_signed: is_signed },
            Expr::RefToPtr(_) => Expr::RefToPtr(Box::new(ops[0])),
            Expr::PtrCast(_, res) => Expr::PtrCast(Box::new(ops[0]), res),
            Expr::LdFieldAddress { field, .. } => Expr::LdFieldAddress { addr: Box::new(ops[0]), field: field },
            Expr::LdField { field, .. } => Expr::LdField { addr: Box::new(ops[0]), field: field },
            Expr::LdInd { tpe, volatile, .. } => Expr::LdInd { addr: Box::new(ops[0]), tpe: tpe, volatile: volatile },
            Expr::IsInst(_, tpe) => Expr::IsInst(Box::new(ops[0]), tpe),
            Expr::CheckedCast(_, tpe) => Expr::CheckedCast(Box::new(ops[0]), tpe),
            Expr::CallI { sig, .. } => Expr::CallI { ptr: Box::new(ops[0]), sig: sig, args: ops.skip(1) },
            Expr::LocAlloc { .. } => Expr::LocAlloc { size: Box::new(ops[0]) },
            Expr::LdLen(_) => Expr::LdLen(Box::new(ops[0])),
            Expr::LdElelemRef { .. } => Expr::LdElelemRef { array: Box::new(ops[0]), index: Box::new(ops[1]) },
            Expr::UnboxAny { tpe, .. } => Expr::UnboxAny { object: Box::new(ops[0]), tpe: tpe },
            _ => self,
        }
    }

    /// An expression is the expression with its own operands in place.
    pub proof fn lemma_with_own_operands(self)
        ensures
            self.with_operands(self.operands()) == self,
    {
        match self {
            Expr::Call { args, .. } => {
                assert(self.operands() =~= args);
            },
            Expr::CallI { ptr, args, .. } => {
                assert(self.operands().skip(1) =~= args);
            },
            _ => {},
        }
    }

    /// The operands of an expression are parts of it.
    pub proof fn lemma_operands_decrease(self, i: int)
        requires
            0 <= i < self.operands().len(),
        ensures
            decreases_to!(self => self.operands()[i]),
    {
        match self {
            Expr::BinOp(lhs, rhs, _) => {
                if i == 0 {
                    assert(self.operands()[0] == *lhs);
                }
                if i == 1 {
                    assert(self.operands()[1] == *rhs);
                }
            },
            Expr::UnOp(val, _) => {
                if i == 0 {
                    assert(self.operands()[0] == *val);
                }
            },
            Expr::Call { args, .. } => {
                assert(self.operands()[i] == args[i]);
                assert(decreases_to!(args => args[i]));
            },
            Expr::IntCast { input, .. } => {
                if i == 0 {
                    assert(self.operands()[0] == *input);
                }
            },
            Expr::FloatCast { input, .. } => {
                if i == 0 {
                    assert(self.operands()[0] == *input);
                }
            },
            Expr::RefToPtr(val) => {
                if i == 0 {
                    assert(self.operands()[0] == *val);
                }
            },
            Expr::PtrCast(val, _) => {
                if i == 0 {
                    assert(self.operands()[0] == *val);
                }
            },
            Expr::LdFieldAddress { addr, .. } => {
                if i == 0 {
                    assert(self.operands()[0] == *addr);
                }
            },
            Expr::LdField { addr, .. } => {
                if i == 0 {
                    assert(self.operands()[0] == *addr);
                }
            },
            Expr::LdInd { addr, .. } => {
                if i == 0 {
                    assert(self.operands()[0] == *addr);
                }
            },
            Expr::IsInst(val, _) => {
                if i == 0 {
                    assert(self.operands()[0] == *val);
                }
            },
            Expr::CheckedCast(val, _) => {
                if i == 0 {
                    assert(self.operands()[0] == *val);
                }
            },
            Expr::CallI { ptr, args, .. } => {
                if i == 0 {
                    assert(self.operands()[0] == *ptr);
                } else {
                    assert(self.operands()[i] == args[i - 1]);
                    assert(decreases_to!(args => args[i - 1]));
                }
            },
            Expr::LocAlloc { size } => {
                if i == 0 {
                    assert(self.operands()[0] == *size);
                }
            },
            Expr::LdLen(val) => {
                if i == 0 {
                    assert(self.operands()[0] == *val);
                }
            },
            Expr::LdElelemRef { array, index } => {
                if i == 0 {
                    assert(self.operands()[0] == *array);
                }
                if i == 1 {
                    assert(self.operands()[1] == *index);
                }
            },
            Expr::UnboxAny { object, .. } => {
                if i == 0 {
                    assert(self.operands()[0] == *object);
                }
            },
            _ => {},
        }
    }
}

impl NodeView {
    /// The node with `ks` in place of its operands. A call takes as many
    /// arguments as `ks` gives it.
    pub open spec fn with_kids(self, ks: Seq<Interned<CILNode>>) -> NodeView {
        match self {
            NodeView::BinOp(_, _, op) => NodeView::BinOp(ks[0], ks[1], op),
            NodeView::UnOp(_, op) => NodeView::UnOp(ks[0], op),
            NodeView::Call { site, is_pure, .. } => NodeView::Call { site: site, args: ks, is_pure: is_pure },
            NodeView::IntCast { target, extend, .. } => NodeView::IntCast { input: ks[0], target: target, extend: extend },
            NodeView::FloatCast { target, is_signed, .. } => NodeView::FloatCast { input: ks[0], target: target, is_signed: is_signed },
            NodeView::RefToPtr(_) => NodeView::RefToPtr(ks[0]),
            NodeView::PtrCast(_, res) => NodeView::PtrCast(ks[0], res),
            NodeView::LdFieldAddress { field, .. } => NodeView::LdFieldAddress { addr: ks[0], field: field },
            NodeView::LdField { field, .. } => NodeView::LdField { addr: ks[0], field: field },
            NodeView::LdInd { tpe, volatile, .. } => NodeView::LdInd { addr: ks[0], tpe: tpe, volatile: volatile },
            NodeView::IsInst(_, tpe) => NodeView::IsInst(ks[0], tpe),
            NodeView::CheckedCast(_, tpe) => NodeView::CheckedCast(ks[0], tpe),
            NodeView::CallI { sig, .. } => NodeView::CallI { ptr: ks[0], sig: sig, args: ks.skip(1) },
            NodeView::LocAlloc { .. } => NodeView::LocAlloc { size: ks[0] },
            NodeView::LdLen(_) => NodeView::LdLen(ks[0]),
            NodeView::LdElelemRef { .. } => NodeView::LdElelemRef { array: ks[0], index: ks[1] },
            NodeView::UnboxAny { tpe, .. } => NodeView::UnboxAny { object: ks[0], tpe: tpe },
            _ => self,
        }
    }

    /// A node with other operands in place has those operands, and refers
    /// to the types, signatures and strings that it referred to.
    pub proof fn lemma_with_kids(self, ks: Seq<Interned<CILNode>>, bound: int, s: AssemblyView)
        requires
            self.wf_in(s),
            ks.len() == self.kids().len(),
            forall|i: int| 0 <= i < ks.len() ==> (#[trigger] ks[i]).index() < bound,
        ensures
            self.with_kids(ks).kids() == ks,
            self.with_kids(ks).ok_below(bound, s),
    {
        let n = self.with_kids(ks);
        assert(n.kids() =~= ks);
    }

    /// The expression of a node with other operands in place is the
    /// expression of the node with the expressions of those operands in
    /// place.
    pub proof fn lemma_build_with_kids(
        self,
        ks: Seq<Interned<CILNode>>,
        prev: Seq<Expr>,
        s: AssemblyView,
        prev2: Seq<Expr>,
        s2: AssemblyView,
    )
        requires
            self.wf_in(s),
            s2.tables_extend(s),
            ks.len() == self.kids().len(),
        ensures
            self.build(prev, s).operands() == self.kids().map_values(
                |h: Interned<CILNode>| prev[h.index()],
            ),
            self.with_kids(ks).build(prev2, s2) == self.build(prev, s).with_operands(
                ks.map_values(|h: Interned<CILNode>| prev2[h.index()]),
            ),
    {
        let ops = ks.map_values(|h: Interned<CILNode>| prev2[h.index()]);
        assert(self.build(prev, s).operands() =~= self.kids().map_values(
            |h: Interned<CILNode>| prev[h.index()],
        ));
        match self {
            NodeView::Call { args, .. } => {
                assert(self.kids() =~= args);
            },
            NodeView::CallI { args, .. } => {
                assert(ks.skip(1).map_values(|h: Interned<CILNode>| prev2[h.index()]) =~= ops.skip(1));
            },
            _ => {},
        }
    }
}

/// A transformation of nodes that a rewrite applies at every node. What it
/// makes of a node has to be a function of the expression that the node
/// stands for: `sem` is that function.
pub trait NodePass {
    /// What the pass makes of an expression whose operands have been
    /// rewritten already. A pass that does not say otherwise leaves the
    /// expression as it is.
    open spec fn sem(&self, e: Expr) -> Expr {
        e
    }

    /// Transforms one node. The operands of the node are in the store; the
    /// pass may intern further nodes.
    fn apply(&self, node: CILNode, store: &mut Assembly) -> (r: CILNode)
        requires
            old(store).wf(),
            node@.wf_in(old(store)@),
        ensures
            final(store).wf(),
            final(store)@.extends(old(store)@),
            r@.wf_in(final(store)@),
            final(store)@.expr_of(r@) == self.sem(old(store)@.expr_of(node@)),
    ;
}

/// The pass that leaves every node as it is.
pub struct Identity;

impl NodePass for Identity {
    fn apply(&self, node: CILNode, store: &mut Assembly) -> (r: CILNode)
        ensures
            r == node,
            *final(store) == *old(store),
    {
        proof {
            store@.lemma_extends_reflexive();
        }
        node
    }
}

/// The expressions of a list, each rewritten by `pass`.
pub open spec fn rewritten_all<P: NodePass>(pass: P, args: Seq<Expr>) -> Seq<Expr>
    decreases args, 2int,
{
    Seq::new(
        args.len(),
        |i: int|
            if 0 <= i < args.len() {
                rewritten(pass, args[i])
            } else {
                Expr::GetException
            },
    )
}

/// The operands of `e`, each rewritten by `pass`.
pub open spec fn rewritten_operands<P: NodePass>(pass: P, e: Expr) -> Seq<Expr>
    decreases e, 0int,
{
    let ops = e.operands();
    Seq::new(
        ops.len(),
        |i: int|
            if 0 <= i < ops.len() {
                proof {
                    e.lemma_operands_decrease(i);
                }
                rewritten(pass, ops[i])
            } else {
                Expr::GetException
            },
    )
}

/// The expression `e` rewritten by `pass`: the operands of `e` are
/// rewritten first, then the pass is applied to `e` with the rewritten
/// operands in place. The pass is applied once at every node, operands
/// before the node that holds them.
pub open spec fn rewritten<P: NodePass>(pass: P, e: Expr) -> Expr
    decreases e, 1int,
{
    pass.sem(e.with_operands(rewritten_operands(pass, e)))
}

/// The rewritten operands of an expression are its operands, rewritten.
pub proof fn lemma_rewritten<P: NodePass>(pass: P, e: Expr)
    ensures
        rewritten_operands(pass, e) == rewritten_all(pass, e.operands()),
        rewritten(pass, e) == pass.sem(e.with_operands(rewritten_all(pass, e.operands()))),
{
    assert(rewritten_operands(pass, e) =~= rewritten_all(pass, e.operands()));
}

/// Rewriting with the identity pass yields the expression that was
/// rewritten.
pub proof fn lemma_rewritten_identity(e: Expr)
    ensures
        rewritten(Identity, e) == e,
    decreases e,
{
    let ops = e.operands();
    lemma_rewritten(Identity, e);
    assert forall|i: int| 0 <= i < ops.len() implies rewritten(Identity, ops[i]) == ops[i] by {
        e.lemma_operands_decrease(i);
        lemma_rewritten_identity(ops[i]);
    }
    assert(rewritten_all(Identity, ops) =~= ops);
    e.lemma_with_own_operands();
}

impl NodeView {
    /// Every operand of a node lies below the rank of the node.
    pub proof fn lemma_rank_bounds(self)
        ensures
            forall|i: int| 0 <= i < self.kids().len() ==> (#[trigger] self.kids()[i]).index() < self.rank(),
    {
        Self::lemma_rank_of_bounds(self.kids());
    }

    pub proof fn lemma_rank_of_bounds(kids: Seq<Interned<CILNode>>)
        ensures
            forall|i: int| 0 <= i < kids.len() ==> (#[trigger] kids[i]).index() < Self::rank_of(kids),
        decreases kids.len(),
    {
        if kids.len() > 0 {
            Self::lemma_rank_of_bounds(kids.drop_last());
            assert forall|i: int| 0 <= i < kids.len() implies (#[trigger] kids[i]).index()
                < Self::rank_of(kids) by {
                if i < kids.len() - 1 {
                    assert(kids.drop_last()[i] == kids[i]);
                }
            }
        }
    }

    /// A node whose operands lie below a position has at most that position
    /// as its rank.
    pub proof fn lemma_rank_below(self, bound: int, s: AssemblyView)
        requires
            self.ok_below(bound, s),
            0 <= bound,
        ensures
            self.rank() <= bound,
    {
        Self::lemma_rank_of_below(self.kids(), bound);
    }

    pub proof fn lemma_rank_of_below(kids: Seq<Interned<CILNode>>, bound: int)
        requires
            forall|i: int| 0 <= i < kids.len() ==> (#[trigger] kids[i]).index() < bound,
            0 <= bound,
        ensures
            Self::rank_of(kids) <= bound,
        decreases kids.len(),
    {
        if kids.len() > 0 {
            assert forall|i: int| 0 <= i < kids.drop_last().len() implies (#[trigger] kids.drop_last()[i]).index()
                < bound by {
                assert(kids.drop_last()[i] == kids[i]);
            }
            Self::lemma_rank_of_below(kids.drop_last(), bound);
            assert(kids[kids.len() - 1].index() < bound);
        }
    }
}

impl CILNode {
    /// The node with `kids` in place of its operands.
    #[verifier::rlimit(50)]
    pub fn with_children(self, kids: Vec<Interned<CILNode>>) -> (r: CILNode)
        requires
            kids@.len() == self@.kids().len(),
        ensures
            r@ == self@.with_kids(kids@),
    {
        match self {
            CILNode::BinOp(_, _, op) => {
                return CILNode::BinOp(kids[0], kids[1], op);
            },
            CILNode::UnOp(_, op) => {
                return CILNode::UnOp(kids[0], op);
            },
            CILNode::Call(info) => {
                assert(kids@.skip(0) =~= kids@);
                return CILNode::Call(Box::new((info.0, kids, info.2)));
            },
            CILNode::IntCast { target, extend, .. } => {
                return CILNode::IntCast { input: kids[0], target: target, extend: extend };
            },
            CILNode::FloatCast { target, is_signed, .. } => {
                return CILNode::FloatCast { input: kids[0], target: target, is_signed: is_signed };
            },
            CILNode::RefToPtr(_) => {
                return CILNode::RefToPtr(kids[0]);
            },
            CILNode::PtrCast(_, res) => {
                return CILNode::PtrCast(kids[0], res);
            },
            CILNode::LdFieldAddress { field, .. } => {
                return CILNode::LdFieldAddress { addr: kids[0], field: field };
            },
            CILNode::LdField { field, .. } => {
                return CILNode::LdField { addr: kids[0], field: field };
            },
            CILNode::LdInd { tpe, volatile, .. } => {
                return CILNode::LdInd { addr: kids[0], tpe: tpe, volatile: volatile };
            },
            CILNode::IsInst(_, tpe) => {
                return CILNode::IsInst(kids[0], tpe);
            },
            CILNode::CheckedCast(_, tpe) => {
                return CILNode::CheckedCast(kids[0], tpe);
            },
            CILNode::CallI(info) => {
                let mut kids = kids;
                assert(self@.kids().len() >= 1);
                let ghost all = kids@;
                let ptr = kids.remove(0);
                assert(kids@ =~= all.skip(1));
                return CILNode::CallI(Box::new((ptr, info.1, kids)));
            },
            CILNode::LocAlloc { .. } => {
                return CILNode::LocAlloc { size: kids[0] };
            },
            CILNode::LdLen(_) => {
                return CILNode::LdLen(kids[0]);
            },
            CILNode::LdElelemRef { .. } => {
                return CILNode::LdElelemRef { array: kids[0], index: kids[1] };
            },
            CILNode::UnboxAny { tpe, .. } => {
                return CILNode::UnboxAny { object: kids[0], tpe: tpe };
            },
            _ => {
                return self;
            },
        }
    }

    /// Rewrites the node with `pass`: rewrites and interns anew each operand
    /// of the node, in order, then applies the pass to the node with the
    /// new operands in place. A node without operands is handed to the pass
    /// as it is. The result stands for the expression of the node,
    /// rewritten by the pass.
    pub fn map<P: NodePass>(self, store: &mut Assembly, pass: &P) -> (r: CILNode)
        requires
            old(store).wf(),
            self@.wf_in(old(store)@),
        ensures
            final(store).wf(),
            final(store)@.extends(old(store)@),
            r@.wf_in(final(store)@),
            final(store)@.expr_of(r@) == rewritten(*pass, old(store)@.expr_of(self@)),
        decreases self@.rank(), 1int,
    {
        let ghost before = store@;
        let ghost model = self@;
        let kids = self.child_nodes();
        proof {
            model.lemma_rank_bounds();
            store.lemma_wf();
        }
        let mapped = Self::map_list(&kids, store, pass, Ghost(model.rank()));
        let ghost mid = store@;
        let node = self.with_children(mapped);
        proof {
            mid.lemma_exprs_len();
            model.lemma_with_kids(mapped@, mid.nodes.len() as int, before);
            model.with_kids(mapped@).lemma_ok_below_extends(mid.nodes.len() as int, before, mid);
            model.lemma_build_with_kids(mapped@, before.exprs(), before, mid.exprs(), mid);
            lemma_rewritten(*pass, before.expr_of(model));
        }
        let r = pass.apply(node, store);
        proof {
            store@.lemma_extends_transitive(mid, before);
        }
        r
    }

    /// Rewrites the node at `h` and interns the result.
    fn map_child<P: NodePass>(h: Interned<CILNode>, store: &mut Assembly, pass: &P) -> (r: Interned<
        CILNode,
    >)
        requires
            old(store).wf(),
            old(store)@.has_node(h),
        ensures
            final(store).wf(),
            final(store)@.extends(old(store)@),
            final(store)@.has_node(r),
            final(store)@.expr_at(r) == rewritten(*pass, old(store)@.expr_at(h)),
        decreases h.index(), 2int,
    {
        let node = store.get_node(h).clone();
        proof {
            store.lemma_wf();
            node@.lemma_rank_below(h.index(), store@);
        }
        let mapped = node.map(store, pass);
        let ghost mid = store@;
        let r = store.alloc_node(mapped);
        proof {
            store@.lemma_extends_transitive(mid, old(store)@);
        }
        r
    }

    /// Rewrites the nodes that a list refers to, in order, and interns the
    /// results.
    fn map_list<P: NodePass>(
        handles: &Vec<Interned<CILNode>>,
        store: &mut Assembly,
        pass: &P,
        Ghost(rank): Ghost<nat>,
    ) -> (r: Vec<Interned<CILNode>>)
        requires
            old(store).wf(),
            forall|i: int| 0 <= i < handles@.len() ==> old(store)@.has_node(#[trigger] handles@[i]),
            forall|i: int| 0 <= i < handles@.len() ==> (#[trigger] handles@[i]).index() < rank,
        ensures
            final(store).wf(),
            final(store)@.extends(old(store)@),
            r@.len() == handles@.len(),
            forall|i: int| 0 <= i < r@.len() ==> final(store)@.has_node(#[trigger] r@[i]),
            r@.map_values(|h: Interned<CILNode>| final(store)@.exprs()[h.index()]) == rewritten_all(
                *pass,
                handles@.map_values(|h: Interned<CILNode>| old(store)@.exprs()[h.index()]),
            ),
        decreases rank, 0int,
    {
        let ghost start = store@;
        let ghost before = handles@.map_values(|h: Interned<CILNode>| start.exprs()[h.index()]);
        proof {
            store.lemma_wf();
            start.lemma_extends_reflexive();
            lemma_rewritten_all(*pass, before);
        }
        let mut out: Vec<Interned<CILNode>> = Vec::new();
        let mut i: usize = 0;
        while i < handles.len()
            invariant
                i <= handles@.len(),
                out@.len() == i,
                store.wf(),
                start.wf(),
                store@.extends(start),
                before == handles@.map_values(|h: Interned<CILNode>| start.exprs()[h.index()]),
                forall|j: int| 0 <= j < handles@.len() ==> start.has_node(#[trigger] handles@[j]),
                forall|j: int| 0 <= j < handles@.len() ==> (#[trigger] handles@[j]).index() < rank,
                forall|j: int| 0 <= j < i ==> store@.has_node(#[trigger] out@[j]),
                forall|j: int|
                    0 <= j < i ==> store@.exprs()[(#[trigger] out@[j]).index()] == rewritten(
                        *pass,
                        before[j],
                    ),
            decreases handles@.len() - i,
        {
            let ghost mid = store@;
            let h = handles[i];
            proof {
                assert(start.has_node(h));
                assert(mid.exprs()[h.index()] == start.exprs()[h.index()]);
            }
            let r = Self::map_child(h, store, pass);
            proof {
                store@.lemma_extends_transitive(mid, start);
                assert forall|j: int| 0 <= j < i implies store@.has_node(#[trigger] out@[j])
                    && store@.exprs()[out@[j].index()] == rewritten(*pass, before[j]) by {
                    assert(mid.has_node(out@[j]));
                    assert(store@.exprs()[out@[j].index()] == mid.exprs()[out@[j].index()]);
                }
            }
            out.push(r);
            i += 1;
        }
        proof {
            assert(out@.map_values(|h: Interned<CILNode>| store@.exprs()[h.index()])
                =~= rewritten_all(*pass, before));
        }
        out
    }
}

/// The list of rewritten expressions has one expression for each
/// expression of the list, in order.
pub proof fn lemma_rewritten_all<P: NodePass>(pass: P, args: Seq<Expr>)
    ensures
        rewritten_all(pass, args).len() == args.len(),
        forall|i: int| 0 <= i < args.len() ==> #[trigger] rewritten_all(pass, args)[i] == rewritten(pass, args[i]),
{
}

} // verus!
