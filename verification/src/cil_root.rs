use crate::assembly::Assembly;
use crate::cil_node::{lemma_view_all, view_all, CallKind, CallOpArgs, TreeView, V1Node};
use crate::cilnode::{IsPure, MethodKind};
use crate::expr::AssemblyView;
use crate::field_desc::FieldDesc;
use crate::interned::Interned;
use crate::method_ref::MethodRef;
use crate::tpe::Type;
use vstd::prelude::*;

verus! {

/// A statement of the tree form: an effect, where a node is a value.
#[derive(Debug, PartialEq, Eq, Hash)]
pub enum V1Root {
    /// The statement without effect.
    Nop,
    /// Stores `value` into the field `desc` of the object at `addr`.
    SetField { addr: Box<V1Node>, value: Box<V1Node>, desc: Interned<FieldDesc> },
    /// Throws the exception that the node yields. Nothing after it runs.
    Throw(V1Node),
    /// Calls a method for its effect.
    Call { site: Interned<MethodRef>, args: Vec<V1Node> },
    /// Sets `count` bytes from `dst` on to the byte `val`.
    InitBlk { dst: Box<V1Node>, val: Box<V1Node>, count: Box<V1Node> },
    /// Copies `len` bytes from `src` to `dst`.
    CpBlk { dst: Box<V1Node>, src: Box<V1Node>, len: Box<V1Node> },
}

/// The mathematical model of a statement.
pub enum RootView {
    Nop,
    SetField { addr: TreeView, value: TreeView, desc: Interned<FieldDesc> },
    Throw(TreeView),
    Call { site: Interned<MethodRef>, args: Seq<TreeView> },
    InitBlk { dst: TreeView, val: TreeView, count: TreeView },
    CpBlk { dst: TreeView, src: TreeView, len: TreeView },
}

impl View for V1Root {
    type V = RootView;

    open spec fn view(&self) -> RootView {
        match *self {
            V1Root::Nop => RootView::Nop,
            V1Root::SetField { addr, value, desc } => RootView::SetField {
                addr: (*addr)@,
                value: (*value)@,
                desc,
            },
            V1Root::Throw(node) => RootView::Throw(node@),
            V1Root::Call { site, args } => RootView::Call { site, args: view_all(args@) },
            V1Root::InitBlk { dst, val, count } => RootView::InitBlk {
                dst: (*dst)@,
                val: (*val)@,
                count: (*count)@,
            },
            V1Root::CpBlk { dst, src, len } => RootView::CpBlk {
                dst: (*dst)@,
                src: (*src)@,
                len: (*len)@,
            },
        }
    }
}

impl Clone for V1Root {
    fn clone(&self) -> (r: Self)
        ensures
            r@ == self@,
    {
        match self {
            V1Root::Nop => V1Root::Nop,
            V1Root::SetField { addr, value, desc } => V1Root::SetField {
                addr: Box::new((**addr).duplicate()),
                value: Box::new((**value).duplicate()),
                desc: *desc,
            },
            V1Root::Throw(node) => V1Root::Throw(node.duplicate()),
            V1Root::Call { site, args } => V1Root::Call {
                site: *site,
                args: crate::cil_node::copy_trees(args),
            },
            V1Root::InitBlk { dst, val, count } => V1Root::InitBlk {
                dst: Box::new((**dst).duplicate()),
                val: Box::new((**val).duplicate()),
                count: Box::new((**count).duplicate()),
            },
            V1Root::CpBlk { dst, src, len } => V1Root::CpBlk {
                dst: Box::new((**dst).duplicate()),
                src: Box::new((**src).duplicate()),
                len: Box::new((**len).duplicate()),
            },
        }
    }
}

impl AssemblyView {
    /// Whether `site` refers to the constructor of the exception class of
    /// the platform that takes the message of the exception.
    pub open spec fn is_exception_ctor(self, site: Interned<MethodRef>) -> bool {
        &&& site.index() < self.method_refs.len()
        &&& self.has_class(self.method_refs[site.index()].class, "System.Exception"@, None, false)
        &&& self.has_method(
            site,
            self.method_refs[site.index()].class,
            ".ctor"@,
            seq![Type::ClassRef(self.method_refs[site.index()].class), Type::PlatformString],
            Type::Void,
            MethodKind::Constructor,
        )
    }
}

impl RootView {
    /// Whether the statement throws a new exception with the message
    /// `msg`.
    pub open spec fn throws(self, msg: Seq<char>, s: AssemblyView) -> bool {
        &&& self matches RootView::Throw(TreeView::Call { how, site, args, is_pure })
        &&& how is Construct
        &&& s.is_exception_ctor(site)
        &&& args == seq![TreeView::Str(msg)]
        &&& is_pure == IsPure(false)
    }
}

impl V1Root {
    /// The statement that throws a new exception with the message `msg`.
    pub fn throw(msg: &str, store: &mut Assembly) -> (r: V1Root)
        requires
            old(store).wf(),
        ensures
            final(store).wf(),
            final(store)@.extends(old(store)@),
            r@.throws(msg@, final(store)@),
            final(store).initializers() == old(store).initializers(),
    {
        let ghost s0 = store@;
        let class = store.named_class("System.Exception", None, false);
        let ghost s1 = store@;
        let mut inputs: Vec<Type> = Vec::new();
        inputs.push(Type::ClassRef(class));
        inputs.push(Type::PlatformString);
        assert(inputs@ =~= seq![Type::ClassRef(class), Type::PlatformString]);
        let site = store.static_method(class, ".ctor", inputs, Type::Void, MethodKind::Constructor);
        proof {
            store@.lemma_extends_transitive(s1, s0);
            store@.lemma_has_class_extends(s1, class, "System.Exception"@, None, false);
        }
        let mut args: Vec<V1Node> = Vec::new();
        args.push(V1Node::string(msg));
        proof {
            lemma_view_all(args@);
            assert(view_all(args@) =~= seq![TreeView::Str(msg@)]);
        }
        V1Root::Throw(V1Node::call_of(CallKind::Construct, site, args, IsPure(false)))
    }
}

} // verus!
