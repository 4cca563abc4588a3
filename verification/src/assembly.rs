use crate::bimap::{lemma_with_value, position_of, with_value, BiMap};
use crate::cilnode::{CILNode, MethodKind, NodeView};
use crate::class_ref::{ClassRef, ClassRefView};
use crate::expr::{AssemblyView, Expr};
use crate::field_desc::{FieldDesc, StaticFieldDesc};
use crate::fn_sig::{FnSig, FnSigView};
use crate::interned::Interned;
use crate::method_ref::{MethodRef, MethodRefView};
use crate::tpe::Type;
use vstd::prelude::*;
use vstd::string::StringExecFns;

verus! {

/// The store of a compilation session: one interning table for each kind of
/// value that the graph form refers to by handle. The store only grows, so a
/// handle that it has given out stays valid and keeps its meaning.
pub struct Assembly {
    strings: BiMap<String>,
    types: BiMap<Type>,
    nodes: BiMap<CILNode>,
    sigs: BiMap<FnSig>,
    class_refs: BiMap<ClassRef>,
    method_refs: BiMap<MethodRef>,
    fields: BiMap<FieldDesc>,
    statics: BiMap<StaticFieldDesc>,
    initializers: Vec<(Interned<StaticFieldDesc>, Interned<CILNode>)>,
}

impl View for Assembly {
    type V = AssemblyView;

    closed spec fn view(&self) -> AssemblyView {
        AssemblyView {
            strings: self.strings@,
            types: self.types@,
            nodes: self.nodes@,
            sigs: self.sigs@,
            class_refs: self.class_refs@,
            method_refs: self.method_refs@,
            fields: self.fields@,
            statics: self.statics@,
        }
    }
}

/// The decimal digit `d`.
pub open spec fn digit_spec(d: nat) -> Seq<char> {
    if d == 0 {
        "0"@
    } else if d == 1 {
        "1"@
    } else if d == 2 {
        "2"@
    } else if d == 3 {
        "3"@
    } else if d == 4 {
        "4"@
    } else if d == 5 {
        "5"@
    } else if d == 6 {
        "6"@
    } else if d == 7 {
        "7"@
    } else if d == 8 {
        "8"@
    } else {
        "9"@
    }
}

/// The number `n` written in decimal digits.
pub open spec fn decimal_spec(n: nat) -> Seq<char>
    decreases n,
{
    if n < 10 {
        digit_spec(n)
    } else {
        decimal_spec(n / 10) + digit_spec(n % 10)
    }
}

fn digit(d: u64) -> (r: &'static str)
    requires
        d < 10,
    ensures
        r@ == digit_spec(d as nat),
{
    if d == 0 {
        "0"
    } else if d == 1 {
        "1"
    } else if d == 2 {
        "2"
    } else if d == 3 {
        "3"
    } else if d == 4 {
        "4"
    } else if d == 5 {
        "5"
    } else if d == 6 {
        "6"
    } else if d == 7 {
        "7"
    } else if d == 8 {
        "8"
    } else {
        "9"
    }
}

/// Writes a number in decimal digits.
pub fn decimal(n: u64) -> (r: String)
    ensures
        r@ == decimal_spec(n as nat),
    decreases n,
{
    if n < 10 {
        String::from_str(digit(n))
    } else {
        decimal(n / 10).concat(digit(n % 10))
    }
}

/// A store that grew in its tables other than the node table is as well
/// formed as it was.
proof fn lemma_grown(old: AssemblyView, new: AssemblyView)
    requires
        old.wf(),
        new.tables_extend(old),
        new.nodes == old.nodes,
        new.strings.no_duplicates(),
        new.types.no_duplicates(),
        new.sigs.no_duplicates(),
        new.class_refs.no_duplicates(),
        new.method_refs.no_duplicates(),
        new.fields.no_duplicates(),
        new.statics.no_duplicates(),
    ensures
        new.wf(),
        new.extends(old),
{
    assert forall|i: int| 0 <= i < new.nodes.len() implies (#[trigger] new.nodes[i]).ok_below(
        i,
        new,
    ) by {
        old.nodes[i].lemma_ok_below_extends(i, old, new);
    }
    new.lemma_grown_extends(old);
}

impl Assembly {
    /// The invariant of the store.
    pub closed spec fn wf(&self) -> bool {
        &&& self.strings.wf()
        &&& self.types.wf()
        &&& self.nodes.wf()
        &&& self.sigs.wf()
        &&& self.class_refs.wf()
        &&& self.method_refs.wf()
        &&& self.fields.wf()
        &&& self.statics.wf()
        &&& self@.wf()
    }

    /// The anonymous constants of the store: each static field that holds
    /// one, with the node that computes its value.
    pub closed spec fn initializers(&self) -> Seq<(Interned<StaticFieldDesc>, Interned<CILNode>)> {
        self.initializers@
    }

    /// A well-formed store has a well-formed model.
    pub proof fn lemma_wf(&self)
        requires
            self.wf(),
        ensures
            self@.wf(),
    {
    }

    /// A store without entries.
    pub fn new() -> (r: Self)
        ensures
            r.wf(),
            r@ == AssemblyView::empty(),
            r.initializers() == Seq::<(Interned<StaticFieldDesc>, Interned<CILNode>)>::empty(),
    {
        Assembly {
            strings: BiMap::new(),
            types: BiMap::new(),
            nodes: BiMap::new(),
            sigs: BiMap::new(),
            class_refs: BiMap::new(),
            method_refs: BiMap::new(),
            fields: BiMap::new(),
            statics: BiMap::new(),
            initializers: Vec::new(),
        }
    }

    /// Interns a node and returns its handle: the handle that the node has
    /// already, if the store holds it, else a new one. The operands of the
    /// node have to be in the store.
    pub fn alloc_node(&mut self, node: CILNode) -> (h: Interned<CILNode>)
        requires
            old(self).wf(),
            node@.wf_in(old(self)@),
        ensures
            final(self).wf(),
            final(self)@ == (AssemblyView {
                nodes: with_value(old(self)@.nodes, node@),
                ..old(self)@
            }),
            h.index() == position_of(old(self)@.nodes, node@),
            final(self)@.extends(old(self)@),
            final(self)@.has_node(h),
            final(self)@.nodes[h.index()] == node@,
            final(self)@.expr_at(h) == old(self)@.expr_of(node@),
            final(self).initializers() == old(self).initializers(),
    {
        let ghost before = self@;
        let ghost model = node@;
        proof {
            lemma_with_value(before.nodes, model);
        }
        let h = self.nodes.intern(node);
        proof {
            let after = self@;
            assert(after.tables_extend(before));
            assert forall|i: int| 0 <= i < after.nodes.len() implies (#[trigger] after.nodes[i]).ok_below(
                i,
                after,
            ) by {
                if i < before.nodes.len() {
                    before.nodes[i].lemma_ok_below_extends(i, before, after);
                } else {
                    model.lemma_ok_below_extends(before.nodes.len() as int, before, after);
                }
            }
            after.lemma_grown_extends(before);
            after.lemma_expr_at(h);
            after.lemma_extends_keeps(before, model);
        }
        h
    }

    /// The node that `h` refers to.
    pub fn get_node(&self, h: Interned<CILNode>) -> (r: &CILNode)
        requires
            self.wf(),
            self@.has_node(h),
        ensures
            r@ == self@.nodes[h.index()],
            r@.ok_below(h.index(), self@),
            r@.wf_in(self@),
            self@.expr_of(r@) == self@.expr_at(h),
    {
        proof {
            self@.lemma_expr_at(h);
            self@.nodes[h.index()].lemma_ok_below_extends(h.index(), self@, self@);
        }
        self.nodes.get(h)
    }

    /// The number of nodes in the store.
    pub fn nodes_len(&self) -> (n: u64)
        ensures
            n == self@.nodes.len(),
    {
        self.nodes.len()
    }

    /// Whether `h` refers to a node of the store.
    pub fn has_node(&self, h: Interned<CILNode>) -> (r: bool)
        ensures
            r == self@.has_node(h),
    {
        h.idx < self.nodes.len()
    }

    /// Interns a string and returns its handle: the handle that it has
    /// already, if the store holds it, else a new one.
    pub fn alloc_owned_string(&mut self, value: String) -> (h: Interned<String>)
        requires
            old(self).wf(),
        ensures
            final(self).wf(),
            final(self)@ == (AssemblyView {
                strings: with_value(old(self)@.strings, value@),
                ..old(self)@
            }),
            h.index() == position_of(old(self)@.strings, value@),
            final(self)@.extends(old(self)@),
            h.index() < final(self)@.strings.len(),
            final(self)@.strings[h.index()] == value@,
            final(self).initializers() == old(self).initializers(),
    {
        let ghost before = self@;
        proof {
            lemma_with_value(before.strings, value@);
        }
        let h = self.strings.intern(value);
        proof {
            lemma_grown(before, self@);
        }
        h
    }

    /// The string that `h` refers to.
    pub fn get_string(&self, h: Interned<String>) -> (r: &String)
        requires
            h.index() < self@.strings.len(),
        ensures
            r@ == self@.strings[h.index()],
    {
        self.strings.get(h)
    }

    /// Whether `h` refers to a string of the store.
    pub fn has_string(&self, h: Interned<String>) -> (r: bool)
        ensures
            r == (h.index() < self@.strings.len()),
    {
        h.idx < self.strings.len()
    }

    /// Interns a type and returns its handle: the handle that it has
    /// already, if the store holds it, else a new one.
    pub fn alloc_type(&mut self, tpe: Type) -> (h: Interned<Type>)
        requires
            old(self).wf(),
        ensures
            final(self).wf(),
            final(self)@ == (AssemblyView {
                types: with_value(old(self)@.types, tpe@),
                ..old(self)@
            }),
            h.index() == position_of(old(self)@.types, tpe@),
            final(self)@.extends(old(self)@),
            h.index() < final(self)@.types.len(),
            final(self)@.types[h.index()] == tpe@,
            final(self).initializers() == old(self).initializers(),
    {
        let ghost before = self@;
        proof {
            lemma_with_value(before.types, tpe@);
        }
        let h = self.types.intern(tpe);
        proof {
            lemma_grown(before, self@);
        }
        h
    }

    /// The type that `h` refers to.
    pub fn get_type(&self, h: Interned<Type>) -> (r: &Type)
        requires
            h.index() < self@.types.len(),
        ensures
            r@ == self@.types[h.index()],
    {
        self.types.get(h)
    }

    /// Whether `h` refers to a type of the store.
    pub fn has_type(&self, h: Interned<Type>) -> (r: bool)
        ensures
            r == (h.index() < self@.types.len()),
    {
        h.idx < self.types.len()
    }

    /// Interns a signature and returns its handle: the handle that it has
    /// already, if the store holds it, else a new one.
    pub fn alloc_sig(&mut self, sig: FnSig) -> (h: Interned<FnSig>)
        requires
            old(self).wf(),
        ensures
            final(self).wf(),
            final(self)@ == (AssemblyView {
                sigs: with_value(old(self)@.sigs, sig@),
                ..old(self)@
            }),
            h.index() == position_of(old(self)@.sigs, sig@),
            final(self)@.extends(old(self)@),
            h.index() < final(self)@.sigs.len(),
            final(self)@.sigs[h.index()] == sig@,
            final(self).initializers() == old(self).initializers(),
    {
        let ghost before = self@;
        proof {
            lemma_with_value(before.sigs, sig@);
        }
        let h = self.sigs.intern(sig);
        proof {
            lemma_grown(before, self@);
        }
        h
    }

    /// The signature that `h` refers to.
    pub fn get_sig(&self, h: Interned<FnSig>) -> (r: &FnSig)
        requires
            h.index() < self@.sigs.len(),
        ensures
            r@ == self@.sigs[h.index()],
    {
        self.sigs.get(h)
    }

    /// Whether `h` refers to a signature of the store.
    pub fn has_sig(&self, h: Interned<FnSig>) -> (r: bool)
        ensures
            r == (h.index() < self@.sigs.len()),
    {
        h.idx < self.sigs.len()
    }

    /// Interns a class reference and returns its handle: the handle that it has
    /// already, if the store holds it, else a new one.
    pub fn alloc_class_ref(&mut self, class: ClassRef) -> (h: Interned<ClassRef>)
        requires
            old(self).wf(),
        ensures
            final(self).wf(),
            final(self)@ == (AssemblyView {
                class_refs: with_value(old(self)@.class_refs, class@),
                ..old(self)@
            }),
            h.index() == position_of(old(self)@.class_refs, class@),
            final(self)@.extends(old(self)@),
            h.index() < final(self)@.class_refs.len(),
            final(self)@.class_refs[h.index()] == class@,
            final(self).initializers() == old(self).initializers(),
    {
        let ghost before = self@;
        proof {
            lemma_with_value(before.class_refs, class@);
        }
        let h = self.class_refs.intern(class);
        proof {
            lemma_grown(before, self@);
        }
        h
    }

    /// The class reference that `h` refers to.
    pub fn class_ref(&self, h: Interned<ClassRef>) -> (r: &ClassRef)
        requires
            h.index() < self@.class_refs.len(),
        ensures
            r@ == self@.class_refs[h.index()],
    {
        self.class_refs.get(h)
    }

    /// Whether `h` refers to a class reference of the store.
    pub fn has_class_ref(&self, h: Interned<ClassRef>) -> (r: bool)
        ensures
            r == (h.index() < self@.class_refs.len()),
    {
        h.idx < self.class_refs.len()
    }

    /// Interns a method reference and returns its handle: the handle that it has
    /// already, if the store holds it, else a new one.
    pub fn alloc_methodref(&mut self, mref: MethodRef) -> (h: Interned<MethodRef>)
        requires
            old(self).wf(),
        ensures
            final(self).wf(),
            final(self)@ == (AssemblyView {
                method_refs: with_value(old(self)@.method_refs, mref@),
                ..old(self)@
            }),
            h.index() == position_of(old(self)@.method_refs, mref@),
            final(self)@.extends(old(self)@),
            h.index() < final(self)@.method_refs.len(),
            final(self)@.method_refs[h.index()] == mref@,
            final(self).initializers() == old(self).initializers(),
    {
        let ghost before = self@;
        proof {
            lemma_with_value(before.method_refs, mref@);
        }
        let h = self.method_refs.intern(mref);
        proof {
            lemma_grown(before, self@);
        }
        h
    }

    /// The method reference that `h` refers to.
    pub fn get_mref(&self, h: Interned<MethodRef>) -> (r: &MethodRef)
        requires
            h.index() < self@.method_refs.len(),
        ensures
            r@ == self@.method_refs[h.index()],
    {
        self.method_refs.get(h)
    }

    /// Whether `h` refers to a method reference of the store.
    pub fn has_mref(&self, h: Interned<MethodRef>) -> (r: bool)
        ensures
            r == (h.index() < self@.method_refs.len()),
    {
        h.idx < self.method_refs.len()
    }

    /// Interns a field and returns its handle: the handle that it has
    /// already, if the store holds it, else a new one.
    pub fn alloc_field(&mut self, field: FieldDesc) -> (h: Interned<FieldDesc>)
        requires
            old(self).wf(),
        ensures
            final(self).wf(),
            final(self)@ == (AssemblyView {
                fields: with_value(old(self)@.fields, field@),
                ..old(self)@
            }),
            h.index() == position_of(old(self)@.fields, field@),
            final(self)@.extends(old(self)@),
            h.index() < final(self)@.fields.len(),
            final(self)@.fields[h.index()] == field@,
            final(self).initializers() == old(self).initializers(),
    {
        let ghost before = self@;
        proof {
            lemma_with_value(before.fields, field@);
        }
        let h = self.fields.intern(field);
        proof {
            lemma_grown(before, self@);
        }
        h
    }

    /// The field that `h` refers to.
    pub fn get_field(&self, h: Interned<FieldDesc>) -> (r: &FieldDesc)
        requires
            h.index() < self@.fields.len(),
        ensures
            r@ == self@.fields[h.index()],
    {
        self.fields.get(h)
    }

    /// Whether `h` refers to a field of the store.
    pub fn has_field(&self, h: Interned<FieldDesc>) -> (r: bool)
        ensures
            r == (h.index() < self@.fields.len()),
    {
        h.idx < self.fields.len()
    }

    /// Interns a static field and returns its handle: the handle that it has
    /// already, if the store holds it, else a new one.
    pub fn alloc_sfld(&mut self, field: StaticFieldDesc) -> (h: Interned<StaticFieldDesc>)
        requires
            old(self).wf(),
        ensures
            final(self).wf(),
            final(self)@ == (AssemblyView {
                statics: with_value(old(self)@.statics, field@),
                ..old(self)@
            }),
            h.index() == position_of(old(self)@.statics, field@),
            final(self)@.extends(old(self)@),
            h.index() < final(self)@.statics.len(),
            final(self)@.statics[h.index()] == field@,
            final(self).initializers() == old(self).initializers(),
    {
        let ghost before = self@;
        proof {
            lemma_with_value(before.statics, field@);
        }
        let h = self.statics.intern(field);
        proof {
            lemma_grown(before, self@);
        }
        h
    }

    /// The static field that `h` refers to.
    pub fn get_static_field(&self, h: Interned<StaticFieldDesc>) -> (r: &StaticFieldDesc)
        requires
            h.index() < self@.statics.len(),
        ensures
            r@ == self@.statics[h.index()],
    {
        self.statics.get(h)
    }

    /// Whether `h` refers to a static field of the store.
    pub fn has_static_field(&self, h: Interned<StaticFieldDesc>) -> (r: bool)
        ensures
            r == (h.index() < self@.statics.len()),
    {
        h.idx < self.statics.len()
    }

    /// Interns a string and returns its handle.
    pub fn alloc_string(&mut self, value: &str) -> (h: Interned<String>)
        requires
            old(self).wf(),
        ensures
            final(self).wf(),
            final(self)@ == (AssemblyView {
                strings: with_value(old(self)@.strings, value@),
                ..old(self)@
            }),
            h.index() == position_of(old(self)@.strings, value@),
            final(self)@.extends(old(self)@),
            h.index() < final(self)@.strings.len(),
            final(self)@.strings[h.index()] == value@,
            final(self).initializers() == old(self).initializers(),
    {
        self.alloc_owned_string(String::from_str(value))
    }

    /// Interns the signature with the given argument types and result type.
    pub fn sig(&mut self, inputs: Vec<Type>, output: Type) -> (h: Interned<FnSig>)
        requires
            old(self).wf(),
        ensures
            final(self).wf(),
            final(self)@ == (AssemblyView {
                sigs: with_value(old(self)@.sigs, FnSigView { inputs: inputs@, output }),
                ..old(self)@
            }),
            h.index() == position_of(old(self)@.sigs, FnSigView { inputs: inputs@, output }),
            final(self)@.extends(old(self)@),
            h.index() < final(self)@.sigs.len(),
            final(self)@.sigs[h.index()] == (FnSigView { inputs: inputs@, output }),
            final(self).initializers() == old(self).initializers(),
    {
        self.alloc_sig(FnSig::new(inputs, output))
    }

    /// The type of unmanaged pointers to `inner`.
    pub fn nptr(&mut self, inner: Type) -> (r: Type)
        requires
            old(self).wf(),
        ensures
            final(self).wf(),
            final(self)@ == (AssemblyView {
                types: with_value(old(self)@.types, inner),
                ..old(self)@
            }),
            r matches Type::Ptr(h) && h.index() == position_of(old(self)@.types, inner)
                && h.index() < final(self)@.types.len() && final(self)@.types[h.index()] == inner,
            final(self)@.extends(old(self)@),
            final(self).initializers() == old(self).initializers(),
    {
        Type::Ptr(self.alloc_type(inner))
    }

    /// The type of managed references to `inner`.
    pub fn nref(&mut self, inner: Type) -> (r: Type)
        requires
            old(self).wf(),
        ensures
            final(self).wf(),
            final(self)@ == (AssemblyView {
                types: with_value(old(self)@.types, inner),
                ..old(self)@
            }),
            r matches Type::Ref(h) && h.index() == position_of(old(self)@.types, inner)
                && h.index() < final(self)@.types.len() && final(self)@.types[h.index()] == inner,
            final(self)@.extends(old(self)@),
            final(self).initializers() == old(self).initializers(),
    {
        Type::Ref(self.alloc_type(inner))
    }

    /// The class of the functions that belong to no other class, which
    /// holds the runtime helpers.
    pub fn main_module(&mut self) -> (r: Interned<ClassRef>)
        requires
            old(self).wf(),
        ensures
            final(self).wf(),
            final(self)@.extends(old(self)@),
            final(self)@.is_main_module(r),
            final(self).initializers() == old(self).initializers(),
    {
        self.named_class("MainModule", None, false)
    }

    /// Interns the reference to the class without generic arguments that
    /// has the given name and, if it is defined elsewhere, the name of its
    /// assembly.
    pub fn named_class(&mut self, name: &str, assembly: Option<&str>, is_valuetype: bool) -> (r:
        Interned<ClassRef>)
        requires
            old(self).wf(),
        ensures
            final(self).wf(),
            final(self)@.extends(old(self)@),
            final(self)@.has_class(
                r,
                name@,
                match assembly {
                    Some(a) => Some(a@),
                    None => None,
                },
                is_valuetype,
            ),
            final(self).initializers() == old(self).initializers(),
    {
        let ghost s0 = self@;
        let name = self.alloc_string(name);
        let ghost s1 = self@;
        let assembly = match assembly {
            Some(a) => Some(self.alloc_string(a)),
            None => None,
        };
        let ghost s2 = self@;
        proof {
            s1.lemma_extends_reflexive();
            s2.lemma_extends_transitive(s1, s0);
        }
        let r = self.alloc_class_ref(ClassRef::new(name, assembly, is_valuetype, Vec::new()));
        proof {
            self@.lemma_extends_transitive(s2, s0);
        }
        r
    }

    /// Interns the reference to the method of `class` that has the given
    /// name, signature, kind and generic arguments.
    pub fn new_methodref(
        &mut self,
        class: Interned<ClassRef>,
        name: &str,
        sig: Interned<FnSig>,
        kind: MethodKind,
        generics: Vec<Type>,
    ) -> (r: Interned<MethodRef>)
        requires
            old(self).wf(),
        ensures
            final(self).wf(),
            final(self)@.extends(old(self)@),
            r.index() < final(self)@.method_refs.len(),
            final(self)@.method_refs[r.index()].class == class,
            final(self)@.method_refs[r.index()].sig == sig,
            final(self)@.method_refs[r.index()].kind == kind,
            final(self)@.method_refs[r.index()].generics == generics@,
            final(self)@.method_refs[r.index()].name.index() < final(self)@.strings.len(),
            final(self)@.strings[final(self)@.method_refs[r.index()].name.index()] == name@,
            final(self).initializers() == old(self).initializers(),
    {
        let ghost s0 = self@;
        let name = self.alloc_string(name);
        let ghost s1 = self@;
        let r = self.alloc_methodref(MethodRef::new(class, name, sig, kind, generics));
        proof {
            self@.lemma_extends_transitive(s1, s0);
        }
        r
    }

    /// Interns the reference to the static method of `class` that has the
    /// given name, argument types and result type.
    pub fn static_method(
        &mut self,
        class: Interned<ClassRef>,
        name: &str,
        inputs: Vec<Type>,
        output: Type,
        kind: MethodKind,
    ) -> (r: Interned<MethodRef>)
        requires
            old(self).wf(),
        ensures
            final(self).wf(),
            final(self)@.extends(old(self)@),
            final(self)@.has_method(r, class, name@, inputs@, output, kind),
            final(self).initializers() == old(self).initializers(),
    {
        let ghost s0 = self@;
        let ghost model = FnSigView { inputs: inputs@, output };
        let sig = self.sig(inputs, output);
        let ghost s1 = self@;
        let r = self.new_methodref(class, name, sig, kind, Vec::new());
        proof {
            self@.lemma_extends_transitive(s1, s0);
            assert(self@.sigs[sig.index()] == s1.sigs[sig.index()]);
        }
        r
    }

    /// Interns the reference to the runtime helper that has the given
    /// name, argument types and result type: a static method of the main
    /// module.
    pub fn helper(&mut self, name: &str, inputs: Vec<Type>, output: Type) -> (r: Interned<
        MethodRef,
    >)
        requires
            old(self).wf(),
        ensures
            final(self).wf(),
            final(self)@.extends(old(self)@),
            final(self)@.is_helper(r, name@, inputs@, output),
            final(self).initializers() == old(self).initializers(),
    {
        let ghost s0 = self@;
        let main = self.main_module();
        let ghost s1 = self@;
        let r = self.static_method(main, name, inputs, output, MethodKind::Static);
        proof {
            self@.lemma_extends_transitive(s1, s0);
            self@.lemma_has_class_extends(s1, main, "MainModule"@, None, false);
        }
        r
    }

    /// The static field of the main module that stands for the one value
    /// of the empty type.
    pub fn global_void(&mut self) -> (r: Interned<StaticFieldDesc>)
        requires
            old(self).wf(),
        ensures
            final(self).wf(),
            final(self)@.extends(old(self)@),
            final(self)@.is_global_void(r),
            final(self).initializers() == old(self).initializers(),
    {
        let ghost s0 = self@;
        let main = self.main_module();
        let ghost s1 = self@;
        let name = self.alloc_string("global_void");
        let ghost s2 = self@;
        proof {
            s2.lemma_extends_transitive(s1, s0);
            s2.lemma_has_class_extends(s1, main, "MainModule"@, None, false);
        }
        let r = self.alloc_sfld(StaticFieldDesc::new(main, name, Type::Void));
        proof {
            self@.lemma_extends_transitive(s2, s0);
            self@.lemma_has_class_extends(s2, main, "MainModule"@, None, false);
        }
        r
    }

    /// Interns the node that loads the value of a static field.
    pub fn load_static(&mut self, field: Interned<StaticFieldDesc>) -> (r: Interned<CILNode>)
        requires
            old(self).wf(),
        ensures
            final(self).wf(),
            final(self)@.extends(old(self)@),
            final(self)@.has_node(r),
            final(self)@.nodes[r.index()] == NodeView::LdStaticField(field),
            final(self)@.expr_at(r) == Expr::LdStaticField(field),
            final(self).initializers() == old(self).initializers(),
    {
        let node = CILNode::LdStaticField(field);
        assert(node@.kids() =~= Seq::empty());
        self.alloc_node(node)
    }

    /// The node that initializes the anonymous constant `field`, if the
    /// store holds one for it.
    pub fn initializer_of(&self, field: Interned<StaticFieldDesc>) -> (r: Option<Interned<CILNode>>)
        ensures
            match r {
                Some(node) => self.initializers().contains((field, node)),
                None => forall|i: int|
                    0 <= i < self.initializers().len() ==> (#[trigger] self.initializers()[i]).0
                        != field,
            },
    {
        let mut i: usize = 0;
        while i < self.initializers.len()
            invariant
                i <= self.initializers@.len(),
                forall|j: int| 0 <= j < i ==> (#[trigger] self.initializers@[j]).0 != field,
            decreases self.initializers@.len() - i,
        {
            if self.initializers[i].0.is(&field) {
                return Some(self.initializers[i].1);
            }
            i += 1;
        }
        None
    }

    /// Makes an anonymous constant of type `tpe` whose value the node `val`
    /// computes: a static field of the main module, named after the
    /// position of the node. Asking again for the constant of a node yields
    /// the same field and records nothing new.
    pub fn annon_const(&mut self, val: Interned<CILNode>, tpe: Type) -> (r: Interned<
        StaticFieldDesc,
    >)
        requires
            old(self).wf(),
            old(self)@.has_node(val),
        ensures
            final(self).wf(),
            final(self)@.extends(old(self)@),
            final(self)@.is_constant_field(r, val, tpe),
            final(self).initializers().contains((r, val)),
            final(self).initializers() == old(self).initializers() || final(self).initializers()
                == old(self).initializers().push((r, val)),
    {
        let ghost s0 = self@;
        let main = self.main_module();
        let ghost s1 = self@;
        let text = String::from_str("c_").concat(decimal(val.idx).as_str());
        let name = self.alloc_owned_string(text);
        let ghost s2 = self@;
        proof {
            s2.lemma_extends_transitive(s1, s0);
            s2.lemma_has_class_extends(s1, main, "MainModule"@, None, false);
        }
        let r = self.alloc_sfld(StaticFieldDesc::new(main, name, tpe));
        proof {
            self@.lemma_extends_transitive(s2, s0);
            self@.lemma_has_class_extends(s2, main, "MainModule"@, None, false);
        }
        match self.initializer_of(r) {
            Some(node) => {
                if !node.is(&val) {
                    self.initializers.push((r, val));
                    proof {
                        let n = self.initializers@.len() - 1;
                        assert(self.initializers@[n] == (r, val));
                    }
                }
            },
            None => {
                self.initializers.push((r, val));
                proof {
                    let n = self.initializers@.len() - 1;
                    assert(self.initializers@[n] == (r, val));
                }
            },
        }
        r
    }
}

} // verus!
