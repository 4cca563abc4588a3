use crate::assembly::Assembly;
use crate::cil_node::{lemma_view_all, lowerable_all, view_all, CallKind, TreeView, V1Node};
use crate::cilnode::{ExtendKind, IsPure, MethodKind};
use crate::class_ref::ClassRef;
use crate::expr::AssemblyView;
use crate::interned::Interned;
use crate::method_ref::MethodRef;
use crate::tpe::{Int, Type};
use vstd::prelude::*;

verus! {

impl Int {
    /// How a cast to this type fills the bits that the source does not
    /// have: by the sign for a signed type, with zeros for an unsigned one.
    pub open spec fn extend_spec(self) -> ExtendKind {
        if self.is_signed() {
            ExtendKind::SignExtend
        } else {
            ExtendKind::ZeroExtend
        }
    }

    /// The name of the class of the platform that stands for a 128-bit
    /// integer type.
    pub open spec fn wide_class_name(self) -> Seq<char> {
        if self.is_signed() {
            "System.Int128"@
        } else {
            "System.UInt128"@
        }
    }
}

/// Whether a cast between two integer types is a call of a conversion
/// operator: the casts from and to the 128-bit types are.
pub open spec fn cast_is_call(src: Int, target: Int) -> bool {
    src != target && (src.is_wide() || target.is_wide())
}

impl AssemblyView {
    /// Whether `site` refers to the conversion operator from `src` to
    /// `target`, one of which is a 128-bit type. The operator belongs to the
    /// class of the 128-bit type, of the target if both are such; it is the
    /// implicit one where the cast widens.
    pub open spec fn is_conversion(self, site: Interned<MethodRef>, src: Int, target: Int) -> bool {
        let owner = if target.is_wide() {
            target
        } else {
            src
        };
        let name = if target.is_wide() && !src.is_wide() {
            "op_Implicit"@
        } else {
            "op_Explicit"@
        };
        &&& site.index() < self.method_refs.len()
        &&& self.has_class(
            self.method_refs[site.index()].class,
            owner.wide_class_name(),
            Some("System.Runtime"@),
            true,
        )
        &&& self.has_method(
            site,
            self.method_refs[site.index()].class,
            name,
            seq![Type::Int(src)],
            Type::Int(target),
            MethodKind::Static,
        )
    }
}

/// The tree that casts `operand` from the integer type `src` to `target`,
/// which is an integer type or a pointer type. A cast to the type that the
/// operand has is the operand. A cast from or to a 128-bit type is a call
/// of the conversion operator `site`. A cast to a pointer type goes through
/// the pointer-sized unsigned integer.
pub open spec fn cast_view(
    src: Int,
    target: Type,
    operand: TreeView,
    site: Interned<MethodRef>,
) -> TreeView {
    match target {
        Type::Int(t) => if t == src {
            operand
        } else if cast_is_call(src, t) {
            TreeView::Call {
                how: CallKind::Direct,
                site,
                args: seq![operand],
                is_pure: IsPure(false),
            }
        } else {
            TreeView::IntCast { input: Box::new(operand), target: t, extend: t.extend_spec() }
        },
        _ => TreeView::CastPtr {
            val: Box::new(
                TreeView::IntCast {
                    input: Box::new(operand),
                    target: Int::USize,
                    extend: ExtendKind::ZeroExtend,
                },
            ),
            new_ptr: target,
        },
    }
}

/// Whether the tree `r` casts `operand` from `src` to `target` in the
/// store `s`.
pub open spec fn is_cast(
    r: TreeView,
    src: Int,
    target: Type,
    operand: TreeView,
    s: AssemblyView,
) -> bool {
    exists|site: Interned<MethodRef>|
        {
            &&& #[trigger] cast_view(src, target, operand, site) == r
            &&& (target is Int && cast_is_call(src, target->Int_0)) ==> s.is_conversion(
                site,
                src,
                target->Int_0,
            )
        }
}

/// Interns the class of the platform that stands for the 128-bit type
/// `kind`.
fn wide_class(kind: Int, store: &mut Assembly) -> (r: Interned<ClassRef>)
    requires
        old(store).wf(),
    ensures
        final(store).wf(),
        final(store)@.extends(old(store)@),
        final(store)@.has_class(r, kind.wide_class_name(), Some("System.Runtime"@), true),
        final(store).initializers() == old(store).initializers(),
{
    if kind.is_signed() {
        store.named_class("System.Int128", Some("System.Runtime"), true)
    } else {
        store.named_class("System.UInt128", Some("System.Runtime"), true)
    }
}

/// Casts `operand` from the integer type `src` to `target`, which is an
/// integer type or a pointer type. A 128-bit integer is not cast to a
/// pointer.
pub fn int_to_int(src: Type, target: Type, operand: V1Node, store: &mut Assembly) -> (r: V1Node)
    requires
        old(store).wf(),
        src is Int,
        target is Int || target is Ptr,
        target is Ptr ==> !src->Int_0.is_wide(),
    ensures
        final(store).wf(),
        final(store)@.extends(old(store)@),
        is_cast(r@, src->Int_0, target, operand@, final(store)@),
        operand@.lowerable(old(store)@) ==> r@.lowerable(final(store)@),
        final(store).initializers() == old(store).initializers(),
{
    let ghost model = operand@;
    let ghost s0 = store@;
    proof {
        s0.lemma_extends_reflexive();
        store.lemma_wf();
    }
    let from = match src {
        Type::Int(k) => k,
        _ => Int::USize,
    };
    match target {
        Type::Int(to) => {
            if to == from {
                proof {
                    let site = Interned::<MethodRef> { idx: 0, kind: std::marker::PhantomData };
                    assert(cast_view(from, target, model, site) == model);
                }
                operand
            } else if from.is_wide() || to.is_wide() {
                let owner = if to.is_wide() {
                    to
                } else {
                    from
                };
                let class = wide_class(owner, store);
                let ghost s1 = store@;
                let mut inputs: Vec<Type> = Vec::new();
                inputs.push(src);
                assert(inputs@ =~= seq![Type::Int(from)]);
                let site = if to.is_wide() && !from.is_wide() {
                    store.static_method(class, "op_Implicit", inputs, target, MethodKind::Static)
                } else {
                    store.static_method(class, "op_Explicit", inputs, target, MethodKind::Static)
                };
                let mut args: Vec<V1Node> = Vec::new();
                args.push(operand);
                proof {
                    store@.lemma_extends_transitive(s1, s0);
                    store@.lemma_has_class_extends(
                        s1,
                        class,
                        owner.wide_class_name(),
                        Some("System.Runtime"@),
                        true,
                    );
                    lemma_view_all(args@);
                    assert(view_all(args@) =~= seq![model]);
                    if model.lowerable(s0) {
                        model.lemma_stable(s0, store@);
                        assert(lowerable_all(seq![model], store@));
                    }
                }
                let r = V1Node::call_site(site, args, IsPure(false));
                proof {
                    assert(cast_view(from, target, model, site) == r@);
                }
                r
            } else {
                let r = V1Node::int_cast(to, operand);
                proof {
                    let site = Interned::<MethodRef> { idx: 0, kind: std::marker::PhantomData };
                    assert(cast_view(from, target, model, site) == r@);
                }
                r
            }
        },
        _ => {
            let inner = V1Node::int_cast(Int::USize, operand);
            assert(model.lowerable(s0) ==> inner@.lowerable(s0));
            let r = inner.cast_ptr(target);
            proof {
                let site = Interned::<MethodRef> { idx: 0, kind: std::marker::PhantomData };
                assert(cast_view(from, target, model, site) == r@);
            }
            r
        },
    }
}

} // verus!
