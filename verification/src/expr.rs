use crate::cilnode::{BinOp, CILNode, ExtendKind, IsPure, MethodKind, NodeView, PtrCastRes, UnOp};
use crate::class_ref::{ClassRef, ClassRefView};
use crate::cst::Const;
use crate::field_desc::{FieldDesc, StaticFieldDesc};
use crate::fn_sig::FnSigView;
use crate::interned::Interned;
use crate::method_ref::{MethodRef, MethodRefView};
use crate::tpe::{Float, Int, Type};
use vstd::prelude::*;

verus! {

/// The computation that a node stands for: the node with every operand
/// replaced by the computation that the operand stands for, every type and
/// signature handle by what it refers to, and a string constant by its text.
/// Two nodes with the same expression compute the same thing, whatever
/// handles they hold.
pub enum Expr {
    /// A constant other than a string.
    Const(Const),
    /// A string constant.
    Str(Seq<char>),
    BinOp(Box<Expr>, Box<Expr>, BinOp),
    UnOp(Box<Expr>, UnOp),
    LdLoc(u32),
    LdLocA(u32),
    LdArg(u32),
    LdArgA(u32),
    Call { site: Interned<MethodRef>, args: Seq<Expr>, is_pure: IsPure },
    IntCast { input: Box<Expr>, target: Int, extend: ExtendKind },
    FloatCast { input: Box<Expr>, target: Float, is_signed: bool },
    RefToPtr(Box<Expr>),
    PtrCast(Box<Expr>, PtrCastRes),
    LdFieldAddress { addr: Box<Expr>, field: Interned<FieldDesc> },
    LdField { addr: Box<Expr>, field: Interned<FieldDesc> },
    LdInd { addr: Box<Expr>, tpe: Type, volatile: bool },
    SizeOf(Type),
    GetException,
    IsInst(Box<Expr>, Type),
    CheckedCast(Box<Expr>, Type),
    CallI { ptr: Box<Expr>, sig: FnSigView, args: Seq<Expr> },
    LocAlloc { size: Box<Expr> },
    LdStaticField(Interned<StaticFieldDesc>),
    LdStaticFieldAddress(Interned<StaticFieldDesc>),
    LdFtn(Interned<MethodRef>),
    LdTypeToken(Type),
    LdLen(Box<Expr>),
    LocAllocAlgined { tpe: Type, align: u64 },
    LdElelemRef { array: Box<Expr>, index: Box<Expr> },
    UnboxAny { object: Box<Expr>, tpe: Type },
}

/// The mathematical model of a store: what each of its tables holds, by
/// position.
pub struct AssemblyView {
    pub strings: Seq<Seq<char>>,
    pub types: Seq<Type>,
    pub nodes: Seq<NodeView>,
    pub sigs: Seq<FnSigView>,
    pub class_refs: Seq<ClassRefView>,
    pub method_refs: Seq<MethodRefView>,
    pub fields: Seq<FieldDesc>,
    pub statics: Seq<StaticFieldDesc>,
}

impl AssemblyView {
    /// The store without any entry.
    pub open spec fn empty() -> AssemblyView {
        AssemblyView {
            strings: Seq::empty(),
            types: Seq::empty(),
            nodes: Seq::empty(),
            sigs: Seq::empty(),
            class_refs: Seq::empty(),
            method_refs: Seq::empty(),
            fields: Seq::empty(),
            statics: Seq::empty(),
        }
    }

    /// The invariant of a store: no table holds a value twice, and every node
    /// refers to entries that were stored before it.
    pub open spec fn wf(self) -> bool {
        &&& self.strings.no_duplicates()
        &&& self.types.no_duplicates()
        &&& self.nodes.no_duplicates()
        &&& self.sigs.no_duplicates()
        &&& self.class_refs.no_duplicates()
        &&& self.method_refs.no_duplicates()
        &&& self.fields.no_duplicates()
        &&& self.statics.no_duplicates()
        &&& forall|i: int| 0 <= i < self.nodes.len() ==> (#[trigger] self.nodes[i]).ok_below(i, self)
    }

    /// Whether this store holds everything that `old` holds, at the same
    /// positions, and gives every node of `old` the expression that it has
    /// in `old`. A store only ever grows into a store that extends it.
    pub open spec fn extends(self, old: AssemblyView) -> bool {
        &&& self.tables_extend(old)
        &&& forall|i: int|
            0 <= i < old.nodes.len() ==> #[trigger] self.exprs()[i] == old.exprs()[i]
    }

    /// Whether every table of this store begins with what the table holds
    /// in `old`.
    pub open spec fn tables_extend(self, old: AssemblyView) -> bool {
        &&& old.strings.is_prefix_of(self.strings)
        &&& old.types.is_prefix_of(self.types)
        &&& old.nodes.is_prefix_of(self.nodes)
        &&& old.sigs.is_prefix_of(self.sigs)
        &&& old.class_refs.is_prefix_of(self.class_refs)
        &&& old.method_refs.is_prefix_of(self.method_refs)
        &&& old.fields.is_prefix_of(self.fields)
        &&& old.statics.is_prefix_of(self.statics)
    }

    /// Whether `h` refers to a string of the store with the text `text`.
    pub open spec fn has_string(self, h: Interned<String>, text: Seq<char>) -> bool {
        h.index() < self.strings.len() && self.strings[h.index()] == text
    }

    /// Whether `c` refers to the class without generic arguments that has
    /// the given name, assembly and kind.
    pub open spec fn has_class(
        self,
        c: Interned<ClassRef>,
        name: Seq<char>,
        assembly: Option<Seq<char>>,
        is_valuetype: bool,
    ) -> bool {
        &&& c.index() < self.class_refs.len()
        &&& self.has_string(self.class_refs[c.index()].name, name)
        &&& match (self.class_refs[c.index()].assembly, assembly) {
            (Some(h), Some(a)) => self.has_string(h, a),
            (None, None) => true,
            _ => false,
        }
        &&& self.class_refs[c.index()].is_valuetype == is_valuetype
        &&& self.class_refs[c.index()].generics == Seq::<Type>::empty()
    }

    /// Whether `c` refers to the main module: the class of the functions
    /// that belong to no other class.
    pub open spec fn is_main_module(self, c: Interned<ClassRef>) -> bool {
        self.has_class(c, "MainModule"@, None, false)
    }

    /// Whether `m` refers to the method of `class` without generic
    /// arguments that has the given name, argument types, result type and
    /// kind.
    pub open spec fn has_method(
        self,
        m: Interned<MethodRef>,
        class: Interned<ClassRef>,
        name: Seq<char>,
        inputs: Seq<Type>,
        output: Type,
        kind: MethodKind,
    ) -> bool {
        &&& m.index() < self.method_refs.len()
        &&& self.method_refs[m.index()].class == class
        &&& self.has_string(self.method_refs[m.index()].name, name)
        &&& self.method_refs[m.index()].sig.index() < self.sigs.len()
        &&& self.sigs[self.method_refs[m.index()].sig.index()] == (FnSigView { inputs, output })
        &&& self.method_refs[m.index()].kind == kind
        &&& self.method_refs[m.index()].generics == Seq::<Type>::empty()
    }

    /// Whether `m` refers to the runtime helper that has the given name,
    /// argument types and result type: a static method of the main module.
    pub open spec fn is_helper(
        self,
        m: Interned<MethodRef>,
        name: Seq<char>,
        inputs: Seq<Type>,
        output: Type,
    ) -> bool {
        &&& m.index() < self.method_refs.len()
        &&& self.has_method(m, self.method_refs[m.index()].class, name, inputs, output, MethodKind::Static)
        &&& self.is_main_module(self.method_refs[m.index()].class)
    }

    /// Whether `f` refers to the static field of the main module that
    /// stands for the one value of the empty type.
    pub open spec fn is_global_void(self, f: Interned<StaticFieldDesc>) -> bool {
        &&& f.index() < self.statics.len()
        &&& self.is_main_module(self.statics[f.index()].owner)
        &&& self.has_string(self.statics[f.index()].name, "global_void"@)
        &&& self.statics[f.index()].tpe == Type::Void
    }

    /// Whether `f` refers to the static field of the main module that holds
    /// the anonymous constant of type `tpe` for the node `val`.
    pub open spec fn is_constant_field(
        self,
        f: Interned<StaticFieldDesc>,
        val: Interned<CILNode>,
        tpe: Type,
    ) -> bool {
        &&& f.index() < self.statics.len()
        &&& self.is_main_module(self.statics[f.index()].owner)
        &&& self.has_string(
            self.statics[f.index()].name,
            "c_"@ + crate::assembly::decimal_spec(val.idx as nat),
        )
        &&& self.statics[f.index()].tpe == tpe
    }

    /// What holds of a class of a store holds of it in every store that
    /// extends it.
    pub proof fn lemma_has_class_extends(
        self,
        old: AssemblyView,
        c: Interned<ClassRef>,
        name: Seq<char>,
        assembly: Option<Seq<char>>,
        is_valuetype: bool,
    )
        requires
            self.extends(old),
            old.has_class(c, name, assembly, is_valuetype),
        ensures
            self.has_class(c, name, assembly, is_valuetype),
    {
    }

    /// What holds of a method of a store holds of it in every store that
    /// extends it.
    pub proof fn lemma_has_method_extends(
        self,
        old: AssemblyView,
        m: Interned<MethodRef>,
        class: Interned<ClassRef>,
        name: Seq<char>,
        inputs: Seq<Type>,
        output: Type,
        kind: MethodKind,
    )
        requires
            self.extends(old),
            old.has_method(m, class, name, inputs, output, kind),
        ensures
            self.has_method(m, class, name, inputs, output, kind),
    {
    }

    /// Whether `h` refers to a node of the store.
    pub open spec fn has_node(self, h: Interned<CILNode>) -> bool {
        h.index() < self.nodes.len()
    }

    /// The expressions of the first `k` nodes of the store.
    pub open spec fn exprs_upto(self, k: nat) -> Seq<Expr>
        decreases k,
    {
        if k == 0 {
            Seq::empty()
        } else {
            let prev = self.exprs_upto((k - 1) as nat);
            prev.push(self.nodes[k - 1].build(prev, self))
        }
    }

    /// The expressions of the nodes of the store, by position.
    pub open spec fn exprs(self) -> Seq<Expr> {
        self.exprs_upto(self.nodes.len())
    }

    /// The expression of the node that `h` refers to.
    pub open spec fn expr_at(self, h: Interned<CILNode>) -> Expr {
        self.exprs()[h.index()]
    }

    /// The expression of a node whose operands refer to nodes of the store.
    pub open spec fn expr_of(self, n: NodeView) -> Expr {
        n.build(self.exprs(), self)
    }

    pub proof fn lemma_exprs_upto_len(self, k: nat)
        ensures
            self.exprs_upto(k).len() == k,
        decreases k,
    {
        if k > 0 {
            self.lemma_exprs_upto_len((k - 1) as nat);
        }
    }

    pub proof fn lemma_exprs_upto_take(self, j: nat, k: nat)
        requires
            j <= k,
        ensures
            self.exprs_upto(k).take(j as int) == self.exprs_upto(j),
        decreases k,
    {
        self.lemma_exprs_upto_len(k);
        self.lemma_exprs_upto_len(j);
        if j == k {
            assert(self.exprs_upto(k).take(j as int) =~= self.exprs_upto(j));
        } else {
            self.lemma_exprs_upto_take(j, (k - 1) as nat);
            self.lemma_exprs_upto_len((k - 1) as nat);
            assert(self.exprs_upto(k).take(j as int) =~= self.exprs_upto((k - 1) as nat).take(
                j as int,
            ));
        }
    }

    /// Growing a store leaves the expressions of its nodes as they were.
    pub proof fn lemma_exprs_upto_extends(self, old: AssemblyView, k: nat)
        requires
            old.wf(),
            self.tables_extend(old),
            k <= old.nodes.len(),
        ensures
            self.exprs_upto(k) == old.exprs_upto(k),
        decreases k,
    {
        if k > 0 {
            self.lemma_exprs_upto_extends(old, (k - 1) as nat);
            let prev = old.exprs_upto((k - 1) as nat);
            old.lemma_exprs_upto_len((k - 1) as nat);
            let n = old.nodes[k - 1];
            assert(self.nodes[k - 1] == n);
            assert(n.ok_below(k - 1, old));
            n.lemma_build_stable(k - 1, prev, old, prev, self);
        }
    }

    /// The expression at a handle is the expression of the node stored there.
    pub proof fn lemma_expr_at(self, h: Interned<CILNode>)
        requires
            self.wf(),
            self.has_node(h),
        ensures
            self.expr_at(h) == self.expr_of(self.nodes[h.index()]),
    {
        let i = h.index() as nat;
        let len = self.nodes.len();
        self.lemma_exprs_upto_take(i + 1, len);
        self.lemma_exprs_upto_take(i, len);
        self.lemma_exprs_upto_len(len);
        self.lemma_exprs_upto_len(i);
        let prev = self.exprs_upto(i);
        assert(self.exprs_upto(i + 1) == prev.push(self.nodes[i as int].build(prev, self)));
        assert(self.exprs()[i as int] == self.exprs().take(i as int + 1)[i as int]);
        assert(self.nodes[i as int].ok_below(i as int, self));
        assert forall|j: int| 0 <= j < i implies prev[j] == self.exprs()[j] by {
            assert(self.exprs().take(i as int)[j] == self.exprs()[j]);
        }
        self.nodes[i as int].lemma_build_stable(i as int, prev, self, self.exprs(), self);
    }

    /// A well-formed store that grew extends what it was.
    pub proof fn lemma_grown_extends(self, old: AssemblyView)
        requires
            old.wf(),
            self.tables_extend(old),
        ensures
            self.extends(old),
    {
        let k = old.nodes.len();
        self.lemma_exprs_upto_extends(old, k);
        self.lemma_exprs_upto_take(k, self.nodes.len());
        self.lemma_exprs_upto_len(self.nodes.len());
        old.lemma_exprs_upto_len(k);
        assert forall|j: int| 0 <= j < k implies #[trigger] self.exprs()[j] == old.exprs()[j] by {
            assert(self.exprs().take(k as int)[j] == self.exprs()[j]);
        }
    }

    /// A node that could be interned into a store can be interned into every
    /// store that extends it, and stands for the same expression there.
    pub proof fn lemma_extends_keeps(self, old: AssemblyView, n: NodeView)
        requires
            self.extends(old),
            n.wf_in(old),
        ensures
            n.wf_in(self),
            self.expr_of(n) == old.expr_of(n),
    {
        let k = old.nodes.len();
        self.lemma_exprs_upto_len(self.nodes.len());
        old.lemma_exprs_upto_len(k);
        n.lemma_build_stable(k as int, old.exprs(), old, self.exprs(), self);
        n.lemma_ok_below_extends(k as int, old, self);
    }

    /// The number of expressions of a store is the number of its nodes.
    pub proof fn lemma_exprs_len(self)
        ensures
            self.exprs().len() == self.nodes.len(),
    {
        self.lemma_exprs_upto_len(self.nodes.len());
    }

    pub proof fn lemma_extends_transitive(self, mid: AssemblyView, old: AssemblyView)
        requires
            self.extends(mid),
            mid.extends(old),
        ensures
            self.extends(old),
    {
        assert forall|i: int| 0 <= i < old.nodes.len() implies #[trigger] self.exprs()[i]
            == old.exprs()[i] by {
            assert(mid.exprs()[i] == old.exprs()[i]);
        }
    }

    pub proof fn lemma_extends_reflexive(self)
        ensures
            self.extends(self),
    {
    }
}

impl NodeView {
    /// What a node is built from does not change when the store grows.
    pub proof fn lemma_build_stable(
        self,
        bound: int,
        prev1: Seq<Expr>,
        s1: AssemblyView,
        prev2: Seq<Expr>,
        s2: AssemblyView,
    )
        requires
            self.ok_below(bound, s1),
            s2.tables_extend(s1),
            bound <= prev1.len(),
            bound <= prev2.len(),
            forall|j: int| 0 <= j < bound ==> prev1[j] == prev2[j],
        ensures
            self.build(prev1, s1) == self.build(prev2, s2),
    {
        let kids = self.kids();
        assert forall|i: int| 0 <= i < kids.len() implies prev1[(#[trigger] kids[i]).index()]
            == prev2[kids[i].index()] by {}
        match self {
            NodeView::Call { site, args, is_pure } => {
                assert(args =~= kids);
                assert(args.map_values(|h: Interned<CILNode>| prev1[h.index()])
                    =~= args.map_values(|h: Interned<CILNode>| prev2[h.index()]));
            },
            NodeView::CallI { ptr, sig, args } => {
                assert(kids[0] == ptr);
                assert forall|i: int| 0 <= i < args.len() implies prev1[(#[trigger] args[i]).index()]
                    == prev2[args[i].index()] by {
                    assert(kids[i + 1] == args[i]);
                }
                assert(args.map_values(|h: Interned<CILNode>| prev1[h.index()])
                    =~= args.map_values(|h: Interned<CILNode>| prev2[h.index()]));
            },
            NodeView::BinOp(a, b, _) => {
                assert(kids[0] == a && kids[1] == b);
            },
            NodeView::LdElelemRef { array, index } => {
                assert(kids[0] == array && kids[1] == index);
            },
            _ => {
                if kids.len() > 0 {
                    assert(kids[0].index() < bound);
                }
            },
        }
    }

    /// A node that may be interned into a store may be interned into every
    /// store that extends it.
    pub proof fn lemma_ok_below_extends(self, bound: int, s1: AssemblyView, s2: AssemblyView)
        requires
            self.ok_below(bound, s1),
            s2.tables_extend(s1),
            bound <= s2.nodes.len(),
        ensures
            self.ok_below(bound, s2),
            self.wf_in(s2),
    {
    }
}

} // verus!
