use crate::assembly::Assembly;
use crate::cil_node::{
    lemma_stable_all, lemma_view_all, lowerable_all, view_all, CallKind, CallOpArgs, TreeView,
    V1Node,
};
use crate::cil_root::{RootView, V1Root};
use crate::cilnode::{BinOp, CILNode, IsPure, MethodKind, NodeView};
use crate::class_ref::ClassRef;
use crate::cst::Const;
use crate::expr::{AssemblyView, Expr};
use crate::field_desc::FieldDesc;
use crate::interned::Interned;
use crate::method_ref::MethodRef;
use crate::tpe::{Int, Type};
use vstd::prelude::*;
use vstd::string::StringExecFns;

verus! {

impl AssemblyView {
    /// Whether `c` refers to the class of the platform that stands for a
    /// handle of the garbage collector.
    pub open spec fn is_gc_handle(self, c: Interned<ClassRef>) -> bool {
        self.has_class(
            c,
            "System.Runtime.InteropServices.GCHandle"@,
            Some("System.Runtime"@),
            true,
        )
    }
}

impl TreeView {
    /// Whether the tree is a direct call of the runtime helper with the
    /// given name, argument types and result type, on the given arguments.
    pub open spec fn calls_helper(
        self,
        s: AssemblyView,
        name: Seq<char>,
        inputs: Seq<Type>,
        output: Type,
        with: Seq<TreeView>,
        pure: bool,
    ) -> bool {
        &&& self matches TreeView::Call { how, site, args, is_pure }
        &&& how is Direct
        &&& s.is_helper(site, name, inputs, output)
        &&& args == with
        &&& is_pure == IsPure(pure)
    }

    /// Whether the tree selects between `a` and `b` of type `tpe` by the
    /// predicate `p`: for an integer type a call of the selection helper
    /// of the type; for a pointer type the call of the helper of the
    /// pointer-sized unsigned integer on the two pointers cast to it, cast
    /// back to the pointer type.
    pub open spec fn selects(
        self,
        s: AssemblyView,
        tpe: Type,
        a: TreeView,
        b: TreeView,
        p: TreeView,
    ) -> bool {
        match tpe {
            Type::Int(kind) => self.calls_helper(
                s,
                "select_"@ + kind.name_spec(),
                seq![tpe, tpe, Type::Bool],
                tpe,
                seq![a, b, p],
                true,
            ),
            _ => self matches TreeView::CastPtr { val, new_ptr } && new_ptr == tpe && (*val).calls_helper(
                s,
                "select_usize"@,
                seq![Type::Int(Int::USize), Type::Int(Int::USize), Type::Bool],
                Type::Int(Int::USize),
                seq![
                    TreeView::CastPtr { val: Box::new(a), new_ptr: Type::Int(Int::USize) },
                    TreeView::CastPtr { val: Box::new(b), new_ptr: Type::Int(Int::USize) },
                    p,
                ],
                true,
            ),
        }
    }

    /// Whether the tree reads `operand`, of type `src`, as a value of type
    /// `target`: it is the operand where the types are the same, else a
    /// call of the helper that reads a value as another type.
    pub open spec fn transmutes(
        self,
        s: AssemblyView,
        src: Type,
        target: Type,
        operand: TreeView,
    ) -> bool {
        if src == target {
            self == operand
        } else {
            self.calls_helper(s, "transmute"@, seq![src], target, seq![operand], false)
        }
    }

    /// Whether the tree is the node of the store that holds the constant
    /// `c`.
    pub open spec fn is_const(self, s: AssemblyView, c: Const) -> bool {
        self matches TreeView::Graph(h) && s.has_node(h) && s.nodes[h.index()] == NodeView::Const(c)
    }

    /// Whether the tree is a direct call of the method of `class` with the
    /// given name, argument types, result type and kind, on the given
    /// arguments, not marked pure.
    pub open spec fn calls_method(
        self,
        s: AssemblyView,
        class: Interned<ClassRef>,
        name: Seq<char>,
        inputs: Seq<Type>,
        output: Type,
        kind: MethodKind,
        with: Seq<TreeView>,
    ) -> bool {
        &&& self matches TreeView::Call { how, site, args, is_pure }
        &&& how is Direct
        &&& s.has_method(site, class, name, inputs, output, kind)
        &&& args == with
        &&& is_pure == IsPure(false)
    }
}

/// The list of the given types.
fn types1(a: Type) -> (r: Vec<Type>)
    ensures
        r@ == seq![a],
{
    let mut out: Vec<Type> = Vec::new();
    out.push(a);
    assert(out@ =~= seq![a]);
    out
}

fn types2(a: Type, b: Type) -> (r: Vec<Type>)
    ensures
        r@ == seq![a, b],
{
    let mut out: Vec<Type> = Vec::new();
    out.push(a);
    out.push(b);
    assert(out@ =~= seq![a, b]);
    out
}

fn types3(a: Type, b: Type, c: Type) -> (r: Vec<Type>)
    ensures
        r@ == seq![a, b, c],
{
    let mut out: Vec<Type> = Vec::new();
    out.push(a);
    out.push(b);
    out.push(c);
    assert(out@ =~= seq![a, b, c]);
    out
}

impl V1Node {
    /// A direct call of `site` on the given arguments.
    pub fn call_site(site: Interned<MethodRef>, args: Vec<V1Node>, is_pure: IsPure) -> (r: V1Node)
        ensures
            r@ == (TreeView::Call {
                how: CallKind::Direct,
                site,
                args: view_all(args@),
                is_pure,
            }),
    {
        V1Node::call_of(CallKind::Direct, site, args, is_pure)
    }

    /// A direct call of the runtime helper with the given name, argument
    /// types and result type.
    pub fn call_helper(
        name: &str,
        inputs: Vec<Type>,
        output: Type,
        args: Vec<V1Node>,
        pure: bool,
        store: &mut Assembly,
    ) -> (r: V1Node)
        requires
            old(store).wf(),
        ensures
            final(store).wf(),
            final(store)@.extends(old(store)@),
            r@.calls_helper(final(store)@, name@, inputs@, output, view_all(args@), pure),
            lowerable_all(view_all(args@), old(store)@) ==> r@.lowerable(final(store)@),
            final(store).initializers() == old(store).initializers(),
    {
        proof {
            if lowerable_all(view_all(args@), old(store)@) {
                store.lemma_wf();
            }
        }
        let site = store.helper(name, inputs, output);
        proof {
            if lowerable_all(view_all(args@), old(store)@) {
                lemma_stable_all(view_all(args@), old(store)@, store@);
            }
        }
        Self::call_site(site, args, IsPure(pure))
    }

    /// The address of a value: the value becomes an anonymous constant of
    /// the type that `tpe` refers to, and the result is the address of
    /// that constant.
    pub fn stack_addr(val: Self, tpe: Interned<Type>, store: &mut Assembly) -> (r: Self)
        requires
            old(store).wf(),
            val@.lowerable(old(store)@),
            tpe.index() < old(store)@.types.len(),
        ensures
            final(store).wf(),
            final(store)@.extends(old(store)@),
            r@ matches TreeView::Graph(h) && final(store)@.has_node(h) && (
            final(store)@.nodes[h.index()] matches NodeView::LdStaticFieldAddress(field) && exists|
                node: Interned<CILNode>,
            |
                {
                    &&& final(store)@.has_node(node)
                    &&& final(store)@.expr_at(node) == val@.denote(old(store)@)
                    &&& final(store)@.is_constant_field(field, node, old(store)@.types[tpe.index()])
                    &&& final(store).initializers().contains((field, node))
                }),
            r@.lowerable(final(store)@),
    {
        let ghost s0 = store@;
        let node = CILNode::from_v1(&val, store);
        let ghost s1 = store@;
        let node = store.alloc_node(node);
        let ghost s2 = store@;
        proof {
            s2.lemma_extends_transitive(s1, s0);
        }
        let tpe = *store.get_type(tpe);
        let field = store.annon_const(node, tpe);
        let ghost s3 = store@;
        proof {
            s3.lemma_extends_transitive(s2, s0);
        }
        let address = CILNode::LdStaticFieldAddress(field);
        assert(address@.kids() =~= Seq::empty());
        let h = store.alloc_node(address);
        proof {
            store@.lemma_extends_transitive(s3, s0);
            assert(store@.exprs()[node.index()] == s3.exprs()[node.index()]);
            assert(s3.exprs()[node.index()] == s2.exprs()[node.index()]);
            store@.lemma_has_class_extends(
                s3,
                s3.statics[field.index()].owner,
                "MainModule"@,
                None,
                false,
            );
            assert(store@.is_constant_field(field, node, tpe));
            assert(store@.has_node(node));
            assert(store@.expr_at(node) == val@.denote(s0));
        }
        V1Node::graph(h)
    }

    /// The pair of a value and the flag that tells whether computing it
    /// overflowed, as the tuple of class `tuple`.
    pub fn ovf_check_tuple(
        store: &mut Assembly,
        tuple: Interned<ClassRef>,
        out_of_range: Self,
        val: Self,
        tpe: Type,
    ) -> (r: V1Node)
        requires
            old(store).wf(),
        ensures
            final(store).wf(),
            final(store)@.extends(old(store)@),
            r@.calls_helper(
                final(store)@,
                "ovf_check_tuple"@,
                seq![tpe, Type::Bool],
                Type::ClassRef(tuple),
                seq![val@, out_of_range@],
                true,
            ),
            val@.lowerable(old(store)@) && out_of_range@.lowerable(old(store)@) ==> r@.lowerable(
                final(store)@,
            ),
            final(store).initializers() == old(store).initializers(),
    {
        let mut args: Vec<V1Node> = Vec::new();
        args.push(val);
        args.push(out_of_range);
        proof {
            lemma_view_all(args@);
            assert(view_all(args@) =~= seq![val@, out_of_range@]);
        }
        Self::call_helper(
            "ovf_check_tuple",
            types2(tpe, Type::Bool),
            Type::ClassRef(tuple),
            args,
            true,
            store,
        )
    }

    /// A slice: the value of class `slice_tpe` made of a data pointer and
    /// its metadata.
    pub fn create_slice(
        slice_tpe: Interned<ClassRef>,
        store: &mut Assembly,
        metadata: Self,
        ptr: Self,
    ) -> (r: Self)
        requires
            old(store).wf(),
        ensures
            final(store).wf(),
            final(store)@.extends(old(store)@),
            exists|void_ptr: Interned<Type>|
                {
                    &&& void_ptr.index() < final(store)@.types.len()
                    &&& final(store)@.types[void_ptr.index()] == Type::Void
                    &&& r@.calls_helper(
                        final(store)@,
                        "create_slice"@,
                        seq![Type::Ptr(void_ptr), Type::Int(Int::USize)],
                        Type::ClassRef(slice_tpe),
                        seq![ptr@, metadata@],
                        true,
                    )
                },
            ptr@.lowerable(old(store)@) && metadata@.lowerable(old(store)@) ==> r@.lowerable(
                final(store)@,
            ),
            final(store).initializers() == old(store).initializers(),
    {
        let ghost s0 = store@;
        let void_ptr = store.nptr(Type::Void);
        let ghost s1 = store@;
        let mut args: Vec<V1Node> = Vec::new();
        args.push(ptr);
        args.push(metadata);
        proof {
            lemma_view_all(args@);
            assert(view_all(args@) =~= seq![ptr@, metadata@]);
            if ptr@.lowerable(s0) && metadata@.lowerable(s0) {
                store.lemma_wf();
                lemma_stable_all(view_all(args@), s0, s1);
            }
        }
        let r = Self::call_helper(
            "create_slice",
            types2(void_ptr, Type::Int(Int::USize)),
            Type::ClassRef(slice_tpe),
            args,
            true,
            store,
        );
        proof {
            store@.lemma_extends_transitive(s1, s0);
        }
        r
    }

    /// The node of the store that holds the constant `c`, which is no
    /// string.
    pub fn constant(c: Const, store: &mut Assembly) -> (r: V1Node)
        requires
            old(store).wf(),
            !(c is PlatformString),
        ensures
            final(store).wf(),
            final(store)@.extends(old(store)@),
            r@.is_const(final(store)@, c),
            r@.denote(final(store)@) == Expr::Const(c),
            r@.lowerable(final(store)@),
            final(store).initializers() == old(store).initializers(),
    {
        let node = CILNode::Const(Box::new(c));
        assert(node@.kids() =~= Seq::empty());
        V1Node::graph(store.alloc_node(node))
    }

    /// The constant `value` of the unsigned 128-bit type.
    pub fn const_u128(value: u128, store: &mut Assembly) -> (r: V1Node)
        requires
            old(store).wf(),
        ensures
            final(store).wf(),
            final(store)@.extends(old(store)@),
            r@.is_const(final(store)@, Const::U128(value)),
            r@.denote(final(store)@) == Expr::Const(Const::U128(value)),
            r@.lowerable(final(store)@),
            final(store).initializers() == old(store).initializers(),
    {
        let node = CILNode::Const(Box::new(Const::U128(value)));
        assert(node@.kids() =~= Seq::empty());
        V1Node::graph(store.alloc_node(node))
    }

    /// The constant of the signed 128-bit type that has the bits of
    /// `value`.
    pub fn const_i128(value: u128, store: &mut Assembly) -> (r: V1Node)
        requires
            old(store).wf(),
        ensures
            final(store).wf(),
            final(store)@.extends(old(store)@),
            r@.is_const(final(store)@, Const::I128(value as i128)),
            r@.denote(final(store)@) == Expr::Const(Const::I128(value as i128)),
            r@.lowerable(final(store)@),
            final(store).initializers() == old(store).initializers(),
    {
        let node = CILNode::Const(Box::new(Const::I128(value as i128)));
        assert(node@.kids() =~= Seq::empty());
        V1Node::graph(store.alloc_node(node))
    }

    /// A handle of the garbage collector for the object, as a
    /// pointer-sized integer: the handle is allocated for the object and
    /// then converted.
    pub fn managed_ref_to_handle(self, store: &mut Assembly) -> (r: Self)
        requires
            old(store).wf(),
        ensures
            final(store).wf(),
            final(store)@.extends(old(store)@),
            exists|class: Interned<ClassRef>, inner: TreeView|
                {
                    &&& final(store)@.is_gc_handle(class)
                    &&& inner.calls_method(
                        final(store)@,
                        class,
                        "Alloc"@,
                        seq![Type::PlatformObject],
                        Type::ClassRef(class),
                        MethodKind::Static,
                        seq![self@],
                    )
                    &&& r@.calls_method(
                        final(store)@,
                        class,
                        "op_Explicit"@,
                        seq![Type::ClassRef(class)],
                        Type::Int(Int::ISize),
                        MethodKind::Instance,
                        seq![inner],
                    )
                },
            self@.lowerable(old(store)@) ==> r@.lowerable(final(store)@),
            final(store).initializers() == old(store).initializers(),
    {
        let ghost s0 = store@;
        let ghost model = self@;
        let class = ClassRef::gc_handle(store);
        let ghost s1 = store@;
        let alloc = store.static_method(
            class,
            "Alloc",
            types1(Type::PlatformObject),
            Type::ClassRef(class),
            MethodKind::Static,
        );
        let ghost s2 = store@;
        proof {
            s2.lemma_extends_transitive(s1, s0);
        }
        let mut args: Vec<V1Node> = Vec::new();
        args.push(self);
        proof {
            lemma_view_all(args@);
            assert(view_all(args@) =~= seq![model]);
        }
        let gc_handle = Self::call_site(alloc, args, IsPure(false));
        let ghost inner = gc_handle@;
        let convert = store.static_method(
            class,
            "op_Explicit",
            types1(Type::ClassRef(class)),
            Type::Int(Int::ISize),
            MethodKind::Instance,
        );
        let mut args: Vec<V1Node> = Vec::new();
        args.push(gc_handle);
        proof {
            lemma_view_all(args@);
            assert(view_all(args@) =~= seq![inner]);
            store@.lemma_extends_transitive(s2, s0);
            store@.lemma_has_class_extends(
                s1,
                class,
                "System.Runtime.InteropServices.GCHandle"@,
                Some("System.Runtime"@),
                true,
            );
            store@.lemma_has_method_extends(
                s2,
                alloc,
                class,
                "Alloc"@,
                seq![Type::PlatformObject],
                Type::ClassRef(class),
                MethodKind::Static,
            );
            if model.lowerable(s0) {
                store.lemma_wf();
                model.lemma_stable(s0, store@);
            }
        }
        let r = Self::call_site(convert, args, IsPure(false));
        proof {
            if model.lowerable(s0) {
                assert(lowerable_all(seq![model], store@));
                assert(inner.lowerable(store@));
                assert(lowerable_all(seq![inner], store@));
            }
            assert(inner.calls_method(
                store@,
                class,
                "Alloc"@,
                seq![Type::PlatformObject],
                Type::ClassRef(class),
                MethodKind::Static,
                seq![model],
            ));
        }
        r
    }

    /// The value `a` if `predictate` holds, else `b`, for values of an
    /// integer type or of a pointer type. Pointers are selected as
    /// pointer-sized integers and cast back.
    pub fn select(tpe: Type, a: Self, b: Self, predictate: Self, store: &mut Assembly) -> (r: Self)
        requires
            old(store).wf(),
            tpe is Int || tpe is Ptr,
        ensures
            final(store).wf(),
            final(store)@.extends(old(store)@),
            r@.selects(final(store)@, tpe, a@, b@, predictate@),
            a@.lowerable(old(store)@) && b@.lowerable(old(store)@) && predictate@.lowerable(
                old(store)@,
            ) ==> r@.lowerable(final(store)@),
            final(store).initializers() == old(store).initializers(),
    {
        match tpe {
            Type::Int(kind) => {
                let name = String::from_str("select_").concat(kind.name());
                let mut args: Vec<V1Node> = Vec::new();
                args.push(a);
                args.push(b);
                args.push(predictate);
                proof {
                    lemma_view_all(args@);
                    assert(view_all(args@) =~= seq![a@, b@, predictate@]);
                }
                Self::call_helper(
                    name.as_str(),
                    types3(Type::Int(kind), Type::Int(kind), Type::Bool),
                    Type::Int(kind),
                    args,
                    true,
                    store,
                )
            },
            _ => {
                let kind = Int::USize;
                let name = String::from_str("select_").concat(kind.name());
                proof {
                    reveal_strlit("select_");
                    reveal_strlit("usize");
                    reveal_strlit("select_usize");
                    assert(name@ =~= "select_usize"@);
                }
                let first = a.cast_ptr(Type::Int(kind));
                let second = b.cast_ptr(Type::Int(kind));
                let mut args: Vec<V1Node> = Vec::new();
                args.push(first);
                args.push(second);
                args.push(predictate);
                proof {
                    lemma_view_all(args@);
                    assert(view_all(args@) =~= seq![first@, second@, predictate@]);
                }
                Self::call_helper(
                    name.as_str(),
                    types3(Type::Int(kind), Type::Int(kind), Type::Bool),
                    Type::Int(kind),
                    args,
                    true,
                    store,
                ).cast_ptr(tpe)
            },
        }
    }

    /// A value of type `tpe` that has not been initialized.
    pub fn uninit_val(tpe: Type, store: &mut Assembly) -> (r: Self)
        requires
            old(store).wf(),
        ensures
            final(store).wf(),
            final(store)@.extends(old(store)@),
            tpe is Void ==> (r@ matches TreeView::Graph(h) && final(store)@.has_node(h) && (
            final(store)@.nodes[h.index()] matches NodeView::LdStaticField(field)
                && final(store)@.is_global_void(field))),
            !(tpe is Void) ==> r@.calls_helper(
                final(store)@,
                "uninit_val"@,
                Seq::empty(),
                tpe,
                Seq::empty(),
                true,
            ),
            r@.lowerable(final(store)@),
            final(store).initializers() == old(store).initializers(),
    {
        if tpe.is(&Type::Void) {
            let ghost s0 = store@;
            let field = store.global_void();
            let ghost s1 = store@;
            let h = store.load_static(field);
            proof {
                store@.lemma_extends_transitive(s1, s0);
                assert(store@.is_main_module(store@.statics[field.index()].owner)) by {
                    store@.lemma_has_class_extends(
                        s1,
                        s1.statics[field.index()].owner,
                        "MainModule"@,
                        None,
                        false,
                    );
                }
            }
            return V1Node::graph(h);
        }
        let args: Vec<V1Node> = Vec::new();
        proof {
            lemma_view_all(args@);
            assert(view_all(args@) =~= Seq::<TreeView>::empty());
        }
        Self::call_helper("uninit_val", Vec::new(), tpe, args, true, store)
    }

    /// The value read as a value of type `target`, where it has type
    /// `src`: the value itself where the types are the same.
    pub fn transmute_on_stack(self, src: Type, target: Type, store: &mut Assembly) -> (r: Self)
        requires
            old(store).wf(),
        ensures
            final(store).wf(),
            final(store)@.extends(old(store)@),
            src == target ==> final(store)@ == old(store)@,
            r@.transmutes(final(store)@, src, target, self@),
            self@.lowerable(old(store)@) ==> r@.lowerable(final(store)@),
            final(store).initializers() == old(store).initializers(),
    {
        if src.is(&target) {
            proof {
                store@.lemma_extends_reflexive();
            }
            return self;
        }
        let ghost model = self@;
        let mut args: Vec<V1Node> = Vec::new();
        args.push(self);
        proof {
            lemma_view_all(args@);
            assert(view_all(args@) =~= seq![model]);
        }
        Self::call_helper("transmute", types1(src), target, args, false, store)
    }

    /// The two statements that record the result of a compare-and-exchange
    /// in the pair at `destination_addr`: the first stores the value that
    /// was found, the second stores whether it was the expected one.
    pub fn cxchng_res_val(
        old_val: Self,
        expected: Self,
        destination_addr: Self,
        val_desc: Interned<FieldDesc>,
        flag_desc: Interned<FieldDesc>,
    ) -> (r: [V1Root; 2])
        ensures
            r@[0]@ == (RootView::SetField {
                addr: destination_addr@,
                value: old_val@,
                desc: val_desc,
            }),
            r@[1]@ == (RootView::SetField {
                addr: destination_addr@,
                value: TreeView::BinOp(
                    Box::new(
                        TreeView::Field { addr: Box::new(destination_addr@), field: val_desc },
                    ),
                    Box::new(expected@),
                    BinOp::Eq,
                ),
                desc: flag_desc,
            }),
    {
        let set_val = V1Root::SetField {
            addr: Box::new(destination_addr.duplicate()),
            value: Box::new(old_val),
            desc: val_desc,
        };
        let val = V1Node::load_field(destination_addr.duplicate(), val_desc);
        let same = V1Node::binary(BinOp::Eq, val, expected);
        [
            set_val,
            V1Root::SetField { addr: Box::new(destination_addr), value: Box::new(same), desc: flag_desc },
        ]
    }
}

impl TreeView {
    /// A call of a runtime helper in a store is the same call in every
    /// store that extends it.
    pub proof fn lemma_calls_helper_extends_any(self, s1: AssemblyView, s2: AssemblyView)
        requires
            s2.extends(s1),
        ensures
            forall|name: Seq<char>, inputs: Seq<Type>, output: Type, with: Seq<TreeView>, pure: bool|
                self.calls_helper(s1, name, inputs, output, with, pure) ==> #[trigger] self.calls_helper(
                    s2,
                    name,
                    inputs,
                    output,
                    with,
                    pure,
                ),
    {
    }
}

impl CILNode {
    /// A handle of the garbage collector for the object that the node
    /// yields, as a pointer-sized integer: the node and the allocation of
    /// the handle are interned, the result converts the handle.
    pub fn ref_to_handle(&self, store: &mut Assembly) -> (r: Self)
        requires
            old(store).wf(),
            self@.wf_in(old(store)@),
        ensures
            final(store).wf(),
            final(store)@.extends(old(store)@),
            r@.wf_in(final(store)@),
            exists|class: Interned<ClassRef>, alloc: Interned<MethodRef>, convert: Interned<MethodRef>|
                {
                    &&& final(store)@.is_gc_handle(class)
                    &&& final(store)@.has_method(
                        alloc,
                        class,
                        "Alloc"@,
                        seq![Type::PlatformObject],
                        Type::ClassRef(class),
                        MethodKind::Static,
                    )
                    &&& final(store)@.has_method(
                        convert,
                        class,
                        "op_Explicit"@,
                        seq![Type::ClassRef(class)],
                        Type::Int(Int::ISize),
                        MethodKind::Static,
                    )
                    &&& final(store)@.expr_of(r@) == (Expr::Call {
                        site: convert,
                        args: seq![
                            Expr::Call {
                                site: alloc,
                                args: seq![old(store)@.expr_of(self@)],
                                is_pure: IsPure(false),
                            },
                        ],
                        is_pure: IsPure(false),
                    })
                },
            final(store).initializers() == old(store).initializers(),
    {
        let ghost s0 = store@;
        let class = ClassRef::gc_handle(store);
        let ghost s1 = store@;
        let alloc = store.static_method(
            class,
            "Alloc",
            types1(Type::PlatformObject),
            Type::ClassRef(class),
            MethodKind::Static,
        );
        let ghost s2 = store@;
        let convert = store.static_method(
            class,
            "op_Explicit",
            types1(Type::ClassRef(class)),
            Type::Int(Int::ISize),
            MethodKind::Static,
        );
        let ghost s3 = store@;
        proof {
            s2.lemma_extends_transitive(s1, s0);
            s3.lemma_extends_transitive(s2, s0);
            s3.lemma_extends_keeps(s0, self@);
        }
        let arg = store.alloc_node(self.clone());
        let ghost s4 = store@;
        let mut args: Vec<Interned<CILNode>> = Vec::new();
        args.push(arg);
        let inner = CILNode::call(alloc, args);
        proof {
            assert(inner@.kids() =~= seq![arg]);
            s4.lemma_extends_transitive(s3, s0);
        }
        let handle = store.alloc_node(inner);
        let ghost s5 = store@;
        let mut args: Vec<Interned<CILNode>> = Vec::new();
        args.push(handle);
        let r = CILNode::call(convert, args);
        proof {
            assert(r@.kids() =~= seq![handle]);
            s5.lemma_extends_transitive(s4, s0);
            s5.lemma_extends_transitive(s4, s3);
            s5.lemma_extends_transitive(s3, s2);
            s5.lemma_extends_transitive(s2, s1);
            s5.lemma_has_class_extends(
                s1,
                class,
                "System.Runtime.InteropServices.GCHandle"@,
                Some("System.Runtime"@),
                true,
            );
            s5.lemma_has_method_extends(
                s2,
                alloc,
                class,
                "Alloc"@,
                seq![Type::PlatformObject],
                Type::ClassRef(class),
                MethodKind::Static,
            );
            s5.lemma_has_method_extends(
                s3,
                convert,
                class,
                "op_Explicit"@,
                seq![Type::ClassRef(class)],
                Type::Int(Int::ISize),
                MethodKind::Static,
            );
            assert(s4.expr_of(inner@) =~= (Expr::Call {
                site: alloc,
                args: seq![s0.expr_of(self@)],
                is_pure: IsPure(false),
            })) by {
                assert(seq![arg].map_values(|h: Interned<CILNode>| s4.exprs()[h.index()])
                    =~= seq![s0.expr_of(self@)]);
            }
            assert(s5.expr_of(r@) =~= (Expr::Call {
                site: convert,
                args: seq![s4.expr_of(inner@)],
                is_pure: IsPure(false),
            })) by {
                assert(seq![handle].map_values(|h: Interned<CILNode>| s5.exprs()[h.index()])
                    =~= seq![s4.expr_of(inner@)]);
            }
            let whole = Expr::Call {
                site: convert,
                args: seq![
                    Expr::Call { site: alloc, args: seq![s0.expr_of(self@)], is_pure: IsPure(false) },
                ],
                is_pure: IsPure(false),
            };
            assert(s5.expr_of(r@) == whole);
            assert(s5.is_gc_handle(class));
            assert(s5.has_method(
                alloc,
                class,
                "Alloc"@,
                seq![Type::PlatformObject],
                Type::ClassRef(class),
                MethodKind::Static,
            ));
            assert(s5.has_method(
                convert,
                class,
                "op_Explicit"@,
                seq![Type::ClassRef(class)],
                Type::Int(Int::ISize),
                MethodKind::Static,
            ));
        }
        r
    }
}

impl ClassRef {
    /// The class of the platform that stands for a handle of the garbage
    /// collector.
    pub fn gc_handle(store: &mut Assembly) -> (r: Interned<ClassRef>)
        requires
            old(store).wf(),
        ensures
            final(store).wf(),
            final(store)@.extends(old(store)@),
            final(store)@.is_gc_handle(r),
            final(store).initializers() == old(store).initializers(),
    {
        store.named_class("System.Runtime.InteropServices.GCHandle", Some("System.Runtime"), true)
    }
}

} // verus!
