use crate::assembly::Assembly;
use crate::cil_node::{lemma_view_all, view_all, TreeView, V1Node};
use crate::cil_root::{RootView, V1Root};
use crate::cilnode::{BinOp, CILNode, ExtendKind, MethodKind, NodeView};
use crate::class_ref::ClassRef;
use crate::cst::Const;
use crate::expr::AssemblyView;
use crate::field_desc::FieldDesc;
use crate::fn_sig::{FnSig, FnSigView};
use crate::interned::Interned;
use crate::method_ref::MethodRef;
use crate::operand::{is_const_zero, is_uninit, OperandShape};
use crate::tpe::{Int, Type};
use crate::utilis::adt::{Layout, Variants};
use vstd::prelude::*;

verus! {

/// A value to compute, as far as its operand decides whether computing it
/// can be skipped or simplified: the use of an operand, an array of copies
/// of an operand, or anything else.
#[derive(Debug, PartialEq, Eq)]
pub enum RvalueShape {
    Use(OperandShape),
    Repeat(OperandShape),
    Other,
}

impl RvalueShape {
    /// The operand that is used or copied, if the value is of one of
    /// these two shapes.
    pub open spec fn operand(self) -> Option<OperandShape> {
        match self {
            RvalueShape::Use(operand) | RvalueShape::Repeat(operand) => Some(operand),
            RvalueShape::Other => None,
        }
    }
}

/// Whether the value has no initialized data, so that assigning it can be
/// skipped: it uses or copies an operand that has none.
pub fn is_rvalue_unint(rvalue: &RvalueShape) -> (r: bool)
    ensures
        r == (rvalue.operand() matches Some(operand) && operand.uninit_spec()),
{
    match rvalue {
        RvalueShape::Use(operand) => is_uninit(operand),
        RvalueShape::Repeat(operand) => is_uninit(operand),
        RvalueShape::Other => false,
    }
}

/// Whether the value is a constant all of whose bits are zero: it uses or
/// copies an operand that is one.
pub fn is_rvalue_const_0(rvalue: &RvalueShape) -> (r: bool)
    ensures
        r == (rvalue.operand() matches Some(operand) && operand.const_zero_spec()),
{
    match rvalue {
        RvalueShape::Use(operand) => is_const_zero(operand),
        RvalueShape::Repeat(operand) => is_const_zero(operand),
        RvalueShape::Other => false,
    }
}

/// The number of elements of a repeated array that are set one by one
/// before the rest is filled by copying.
pub const SIMPLE_REPEAT_CAP: u64 = 16;

/// The copies that fill an array of `times` elements of which the first
/// `curr` are set: each copies the elements that are set already, or as many
/// of them as are still missing, behind the ones that are set, and so
/// doubles their number. A copy is the number of elements set before it and
/// the number of elements that it copies.
pub open spec fn copy_steps(curr: nat, times: nat) -> Seq<(nat, nat)>
    decreases
            (if curr < times {
                times - curr
            } else {
                0
            }),
{
    if 0 < curr < times {
        let size = if curr <= times - curr {
            curr
        } else {
            (times - curr) as nat
        };
        seq![(curr, size)] + copy_steps(2 * curr, times)
    } else {
        Seq::empty()
    }
}

/// The number of elements that a sequence of copies copies.
pub open spec fn copied(steps: Seq<(nat, nat)>) -> nat
    decreases steps.len(),
{
    if steps.len() == 0 {
        0
    } else {
        steps[0].1 + copied(steps.skip(1))
    }
}

/// The copies fill the array: together with the elements that are set
/// before them they set every element once. Each copy takes its elements
/// from among those that are set, and puts them right behind those.
pub proof fn lemma_copy_steps_fill(curr: nat, times: nat)
    requires
        0 < curr <= times,
    ensures
        curr + copied(copy_steps(curr, times)) == times,
        forall|i: int|
            0 <= i < copy_steps(curr, times).len() ==> (#[trigger] copy_steps(curr, times)[i]).1
                <= copy_steps(curr, times)[i].0,
    decreases times - curr,
{
    if curr < times {
        let size = if curr <= times - curr {
            curr
        } else {
            (times - curr) as nat
        };
        let rest = copy_steps(2 * curr, times);
        let all = copy_steps(curr, times);
        assert(all.skip(1) =~= rest);
        if 2 * curr <= times {
            lemma_copy_steps_fill(2 * curr, times);
        } else {
            assert(rest =~= Seq::empty());
        }
        assert forall|i: int| 0 <= i < all.len() implies (#[trigger] all[i]).1 <= all[i].0 by {
            if i > 0 {
                assert(all[i] == rest[i - 1]);
            }
        }
    } else {
        assert(copy_steps(curr, times) =~= Seq::empty());
    }
}

/// The copies that fill an array of `times` elements of which the first
/// `curr` are set.
pub fn repeat_plan(curr: u64, times: u64) -> (r: Vec<(u64, u64)>)
    requires
        0 < curr,
    ensures
        r@.len() == copy_steps(curr as nat, times as nat).len(),
        forall|i: int|
            0 <= i < r@.len() ==> (#[trigger] r@[i]).0 == copy_steps(curr as nat, times as nat)[i].0
                && r@[i].1 == copy_steps(curr as nat, times as nat)[i].1,
{
    let mut out: Vec<(u64, u64)> = Vec::new();
    let mut len = curr;
    let ghost all = copy_steps(curr as nat, times as nat);
    while len < times
        invariant
            0 < len,
            all == copy_steps(curr as nat, times as nat),
            out@.len() <= all.len(),
            forall|i: int|
                0 <= i < out@.len() ==> (#[trigger] out@[i]).0 == all[i].0 && out@[i].1 == all[i].1,
            all.skip(out@.len() as int) == copy_steps(len as nat, times as nat),
        decreases times - len,
    {
        let size = if len <= times - len {
            len
        } else {
            times - len
        };
        proof {
            let rest = copy_steps(len as nat, times as nat);
            assert(rest[0] == (len as nat, size as nat));
            assert(rest.len() > 0);
            assert(all.skip(out@.len() as int)[0] == all[out@.len() as int]);
            assert(all.skip(out@.len() as int).skip(1) =~= all.skip(out@.len() as int + 1));
            assert(rest.skip(1) =~= copy_steps(2 * len as nat, times as nat));
        }
        out.push((len, size));
        if len > times - len {
            proof {
                assert(copy_steps(2 * len as nat, times as nat) =~= Seq::empty());
                assert(all.skip(out@.len() as int).len() == 0);
            }
            return out;
        }
        len = len * 2;
    }
    proof {
        assert(copy_steps(len as nat, times as nat) =~= Seq::empty());
        assert(all.skip(out@.len() as int).len() == 0);
    }
    out
}

impl RootView {
    /// Whether the statement sets the element `idx` of the array at `addr`
    /// to `element`, by a call of `site`.
    #[verifier::opaque]
    pub open spec fn sets_item(
        self,
        s: AssemblyView,
        site: Interned<MethodRef>,
        addr: TreeView,
        idx: u64,
        element: TreeView,
    ) -> bool {
        &&& self matches RootView::Call { site: callee, args }
        &&& callee == site
        &&& args.len() == 3
        &&& args[0] == addr
        &&& args[1].is_const(s, Const::USize(idx))
        &&& args[2] == element
    }

    /// Whether the statement copies `size` elements from the start of the
    /// array at `addr` to behind its first `curr` elements. The node
    /// `elem_size` yields the size of an element.
    #[verifier::opaque]
    pub open spec fn copies_items(
        self,
        s: AssemblyView,
        addr: TreeView,
        elem_size: Interned<CILNode>,
        curr: u64,
        size: u64,
    ) -> bool {
        let width = TreeView::IntCast {
            input: Box::new(TreeView::Graph(elem_size)),
            target: Int::USize,
            extend: ExtendKind::ZeroExtend,
        };
        &&& self matches RootView::CpBlk { dst, src, len }
        &&& src == addr
        &&& dst matches TreeView::BinOp(base, offset, BinOp::Add)
        &&& *base == TreeView::RefToPtr(Box::new(addr))
        &&& *offset matches TreeView::BinOp(first, scale, BinOp::Mul)
        &&& first.is_const(s, Const::USize(curr))
        &&& *scale == width
        &&& len matches TreeView::BinOp(count, unit, BinOp::Mul)
        &&& count.is_const(s, Const::USize(size))
        &&& *unit == width
    }
}

impl RootView {
    /// A statement that sets an element in a store sets it in every store
    /// that extends it.
    pub proof fn lemma_sets_item_extends(
        self,
        s1: AssemblyView,
        s2: AssemblyView,
        site: Interned<MethodRef>,
        addr: TreeView,
        idx: u64,
        element: TreeView,
    )
        requires
            s2.extends(s1),
            self.sets_item(s1, site, addr, idx, element),
        ensures
            self.sets_item(s2, site, addr, idx, element),
    {
        reveal(RootView::sets_item);
    }

    /// A statement that copies elements in a store copies them in every
    /// store that extends it.
    pub proof fn lemma_copies_items_extends(
        self,
        s1: AssemblyView,
        s2: AssemblyView,
        addr: TreeView,
        elem_size: Interned<CILNode>,
        curr: u64,
        size: u64,
    )
        requires
            s2.extends(s1),
            self.copies_items(s1, addr, elem_size, curr, size),
        ensures
            self.copies_items(s2, addr, elem_size, curr, size),
    {
        reveal(RootView::copies_items);
    }
}

/// The number of elements of a repeated array that are set one by one.
pub open spec fn set_count(times: u64) -> u64 {
    if times <= SIMPLE_REPEAT_CAP {
        times
    } else {
        SIMPLE_REPEAT_CAP
    }
}

impl AssemblyView {
    /// Whether `site` refers to the method that sets an element of an array
    /// of the class `class`, whose type is `array` and whose elements have
    /// the type `element`: the instance method `set_Item` that takes a
    /// reference to the array, an index and an element.
    pub open spec fn is_set_item(
        self,
        site: Interned<MethodRef>,
        class: Interned<ClassRef>,
        array: Type,
        element: Type,
    ) -> bool {
        &&& site.index() < self.method_refs.len()
        &&& self.method_refs[site.index()].class == class
        &&& self.has_string(self.method_refs[site.index()].name, "set_Item"@)
        &&& self.method_refs[site.index()].kind == MethodKind::Instance
        &&& self.method_refs[site.index()].generics == Seq::<Type>::empty()
        &&& self.method_refs[site.index()].sig.index() < self.sigs.len()
        &&& self.sigs[self.method_refs[site.index()].sig.index()].output == Type::Void
        &&& self.sigs[self.method_refs[site.index()].sig.index()].inputs.len() == 3
        &&& self.sigs[self.method_refs[site.index()].sig.index()].inputs[0] matches Type::Ref(this)
        &&& this.index() < self.types.len()
        &&& self.types[this.index()] == array
        &&& self.sigs[self.method_refs[site.index()].sig.index()].inputs[1] == Type::Int(Int::USize)
        &&& self.sigs[self.method_refs[site.index()].sig.index()].inputs[2] == element
    }

    /// Whether `node` refers to the node that yields the size of the type
    /// `tpe`.
    pub open spec fn is_size_of(self, node: Interned<CILNode>, tpe: Type) -> bool {
        &&& self.has_node(node)
        &&& self.nodes[node.index()] matches NodeView::SizeOf(t)
        &&& t.index() < self.types.len()
        &&& self.types[t.index()] == tpe
    }
}

impl AssemblyView {
    /// The method that sets an element of an array in a store is the same
    /// in every store that extends it.
    pub proof fn lemma_is_set_item_extends(
        self,
        old: AssemblyView,
        site: Interned<MethodRef>,
        class: Interned<ClassRef>,
        array: Type,
        element: Type,
    )
        requires
            self.extends(old),
            old.is_set_item(site, class, array, element),
        ensures
            self.is_set_item(site, class, array, element),
    {
    }
}

/// Interns the method that sets an element of an array of the class
/// `class`, whose type is `array` and whose elements have the type
/// `element`.
pub fn set_item_site(class: Interned<ClassRef>, array: Type, element: Type, store: &mut Assembly) -> (r:
    Interned<MethodRef>)
    requires
        old(store).wf(),
    ensures
        final(store).wf(),
        final(store)@.extends(old(store)@),
        final(store)@.is_set_item(r, class, array, element),
        final(store).initializers() == old(store).initializers(),
{
    let ghost s0 = store@;
    let this = store.nref(array);
    let ghost s1 = store@;
    let mut inputs: Vec<Type> = Vec::new();
    inputs.push(this);
    inputs.push(Type::Int(Int::USize));
    inputs.push(element);
    assert(inputs@ =~= seq![this, Type::Int(Int::USize), element]);
    let site = store.static_method(class, "set_Item", inputs, Type::Void, MethodKind::Instance);
    proof {
        store@.lemma_extends_transitive(s1, s0);
    }
    site
}

/// The statements that set the elements of the array at `addr` to the
/// given values, in order.
pub fn set_items_to(site: Interned<MethodRef>, addr: &V1Node, values: &Vec<V1Node>, store: &mut Assembly) -> (r:
    Vec<V1Root>)
    requires
        old(store).wf(),
    ensures
        final(store).wf(),
        final(store)@.extends(old(store)@),
        r@.len() == values@.len(),
        forall|i: int|
            0 <= i < r@.len() ==> (#[trigger] r@[i])@.sets_item(
                final(store)@,
                site,
                addr@,
                i as u64,
                values@[i]@,
            ),
        final(store).initializers() == old(store).initializers(),
{
    let ghost s0 = store@;
    proof {
        s0.lemma_extends_reflexive();
    }
    let mut out: Vec<V1Root> = Vec::new();
    let mut idx: usize = 0;
    while idx < values.len()
        invariant
            idx <= values@.len(),
            store.wf(),
            store@.extends(s0),
            out@.len() == idx,
            forall|i: int|
                0 <= i < idx ==> (#[trigger] out@[i])@.sets_item(
                    store@,
                    site,
                    addr@,
                    i as u64,
                    values@[i]@,
                ),
            store.initializers() == old(store).initializers(),
        decreases values@.len() - idx,
    {
        let ghost before = store@;
        let ghost sofar = out@;
        let root = set_item(site, addr, idx as u64, &values[idx], store);
        proof {
            store@.lemma_extends_transitive(before, s0);
            assert forall|i: int| 0 <= i < idx implies (#[trigger] sofar[i])@.sets_item(
                store@,
                site,
                addr@,
                i as u64,
                values@[i]@,
            ) by {
                sofar[i]@.lemma_sets_item_extends(before, store@, site, addr@, i as u64, values@[i]@);
            }
        }
        out.push(root);
        idx += 1;
    }
    out
}

/// The statement that sets the element `idx` of the array at `addr` to
/// `element`.
fn set_item(
    site: Interned<MethodRef>,
    addr: &V1Node,
    idx: u64,
    element: &V1Node,
    store: &mut Assembly,
) -> (r: V1Root)
    requires
        old(store).wf(),
    ensures
        final(store).wf(),
        final(store)@.extends(old(store)@),
        r@.sets_item(final(store)@, site, addr@, idx, element@),
        final(store).initializers() == old(store).initializers(),
{
    let index = V1Node::constant(Const::USize(idx), store);
    let mut args: Vec<V1Node> = Vec::new();
    args.push(addr.duplicate());
    args.push(index);
    args.push(element.duplicate());
    proof {
        lemma_view_all(args@);
        reveal(RootView::sets_item);
    }
    V1Root::Call { site, args }
}

/// The statement that copies `size` elements from the start of the array
/// at `addr` to behind its first `curr` elements.
fn copy_items(addr: &V1Node, elem_size: Interned<CILNode>, curr: u64, size: u64, store: &mut Assembly) -> (r:
    V1Root)
    requires
        old(store).wf(),
    ensures
        final(store).wf(),
        final(store)@.extends(old(store)@),
        r@.copies_items(final(store)@, addr@, elem_size, curr, size),
        final(store).initializers() == old(store).initializers(),
{
    let ghost s0 = store@;
    let first = V1Node::constant(Const::USize(curr), store);
    let ghost s1 = store@;
    let ghost first_v = first@;
    let scale = V1Node::int_cast(Int::USize, V1Node::graph(elem_size));
    let offset = V1Node::binary(BinOp::Mul, first, scale);
    let base = V1Node::ref_to_raw(addr.duplicate());
    let dst = V1Node::binary(BinOp::Add, base, offset);
    let count = V1Node::constant(Const::USize(size), store);
    let unit = V1Node::int_cast(Int::USize, V1Node::graph(elem_size));
    let len = V1Node::binary(BinOp::Mul, count, unit);
    proof {
        store@.lemma_extends_transitive(s1, s0);
        assert(first_v.is_const(store@, Const::USize(curr)));
        reveal(RootView::copies_items);
    }
    V1Root::CpBlk { dst: Box::new(dst), src: Box::new(addr.duplicate()), len: Box::new(len) }
}

/// The statements that set the first `count` elements of the array at
/// `addr` to `element`, one by one.
fn set_items(site: Interned<MethodRef>, addr: &V1Node, element: &V1Node, count: u64, store: &mut Assembly) -> (r:
    Vec<V1Root>)
    requires
        old(store).wf(),
    ensures
        final(store).wf(),
        final(store)@.extends(old(store)@),
        r@.len() == count,
        forall|i: int|
            0 <= i < count ==> (#[trigger] r@[i])@.sets_item(
                final(store)@,
                site,
                addr@,
                i as u64,
                element@,
            ),
        final(store).initializers() == old(store).initializers(),
{
    let ghost s0 = store@;
    proof {
        s0.lemma_extends_reflexive();
    }
    let mut out: Vec<V1Root> = Vec::new();
    let mut idx: u64 = 0;
    while idx < count
        invariant
            idx <= count,
            store.wf(),
            store@.extends(s0),
            out@.len() == idx,
            forall|i: int|
                0 <= i < idx ==> (#[trigger] out@[i])@.sets_item(
                    store@,
                    site,
                    addr@,
                    i as u64,
                    element@,
                ),
            store.initializers() == old(store).initializers(),
        decreases count - idx,
    {
        let ghost before = store@;
        let ghost sofar = out@;
        let root = set_item(site, addr, idx, element, store);
        proof {
            store@.lemma_extends_transitive(before, s0);
            assert forall|i: int| 0 <= i < idx implies (#[trigger] sofar[i])@.sets_item(
                store@,
                site,
                addr@,
                i as u64,
                element@,
            ) by {
                sofar[i]@.lemma_sets_item_extends(before, store@, site, addr@, i as u64, element@);
            }
        }
        out.push(root);
        idx += 1;
    }
    out
}

/// The statements that fill the array at `addr`, of which the first `set`
/// elements are set, by copying, and the node that yields the size of an
/// element.
fn copy_rest(addr: &V1Node, element_type: Type, set: u64, times: u64, store: &mut Assembly) -> (r: (
    Vec<V1Root>,
    Interned<CILNode>,
))
    requires
        old(store).wf(),
    ensures
        final(store).wf(),
        final(store)@.extends(old(store)@),
        r.0@.len() == copy_steps(set as nat, times as nat).len(),
        r.0@.len() > 0 ==> final(store)@.is_size_of(r.1, element_type),
        forall|i: int|
            0 <= i < r.0@.len() ==> (#[trigger] r.0@[i])@.copies_items(
                final(store)@,
                addr@,
                r.1,
                copy_steps(set as nat, times as nat)[i].0 as u64,
                copy_steps(set as nat, times as nat)[i].1 as u64,
            ),
        final(store).initializers() == old(store).initializers(),
{
    let ghost s0 = store@;
    let ghost steps = copy_steps(set as nat, times as nat);
    proof {
        s0.lemma_extends_reflexive();
        store.lemma_wf();
    }
    let mut out: Vec<V1Root> = Vec::new();
    let mut elem_size: Interned<CILNode> = Interned::from_index(0);
    if set == 0 {
        return (out, elem_size);
    }
    let plan = repeat_plan(set, times);
    if plan.len() == 0 {
        return (out, elem_size);
    }
    let tpe = store.alloc_type(element_type);
    let ghost s1 = store@;
    let node = CILNode::SizeOf(tpe);
    assert(node@.kids() =~= Seq::empty());
    elem_size = store.alloc_node(node);
    let ghost s2 = store@;
    proof {
        s2.lemma_extends_transitive(s1, s0);
        assert(s2.is_size_of(elem_size, element_type));
    }
    let mut k: usize = 0;
    while k < plan.len()
        invariant
            k <= plan@.len(),
            plan@.len() == steps.len(),
            forall|i: int|
                0 <= i < plan@.len() ==> (#[trigger] plan@[i]).0 == steps[i].0 && plan@[i].1
                    == steps[i].1,
            store.wf(),
            store@.extends(s2),
            out@.len() == k,
            forall|i: int|
                0 <= i < k ==> (#[trigger] out@[i])@.copies_items(
                    store@,
                    addr@,
                    elem_size,
                    steps[i].0 as u64,
                    steps[i].1 as u64,
                ),
            store.initializers() == old(store).initializers(),
        decreases plan@.len() - k,
    {
        let ghost before = store@;
        let ghost sofar = out@;
        let (curr, size) = plan[k];
        let root = copy_items(addr, elem_size, curr, size, store);
        proof {
            store@.lemma_extends_transitive(before, s2);
            assert(plan@[k as int].0 == steps[k as int].0);
            assert forall|i: int| 0 <= i < k implies (#[trigger] sofar[i])@.copies_items(
                store@,
                addr@,
                elem_size,
                steps[i].0 as u64,
                steps[i].1 as u64,
            ) by {
                sofar[i]@.lemma_copies_items_extends(
                    before,
                    store@,
                    addr@,
                    elem_size,
                    steps[i].0 as u64,
                    steps[i].1 as u64,
                );
            }
        }
        out.push(root);
        k += 1;
    }
    proof {
        store@.lemma_extends_transitive(s2, s0);
    }
    (out, elem_size)
}

/// The statement that sets the `times` bytes of the array at
/// `place_address` to `element`.
fn init_bytes(element: V1Node, element_type: Type, times: u64, place_address: V1Node, store: &mut Assembly) -> (r:
    V1Root)
    requires
        old(store).wf(),
    ensures
        final(store).wf(),
        final(store)@.extends(old(store)@),
        r@.sets_bytes(final(store)@, place_address@, element_type, element@, times),
        final(store).initializers() == old(store).initializers(),
{
    let ghost s0 = store@;
    proof {
        store.lemma_wf();
    }
    let val = element.transmute_on_stack(element_type, Type::Int(Int::U8), store);
    let ghost s1 = store@;
    let ghost val_v = val@;
    let bytes = store.nptr(Type::Int(Int::U8));
    let ghost s2 = store@;
    let dst = place_address.cast_ptr(bytes);
    let count = V1Node::constant(Const::USize(times), store);
    proof {
        s2.lemma_extends_transitive(s1, s0);
        store@.lemma_extends_transitive(s2, s0);
        store@.lemma_extends_transitive(s2, s1);
        val_v.lemma_calls_helper_extends_any(s1, store@);
    }
    V1Root::InitBlk { dst: Box::new(dst), val: Box::new(val), count: Box::new(count) }
}

impl RootView {
    /// Whether the statement sets the `times` bytes of the array at `addr`
    /// to `element`, which has the type `element_type`.
    pub open spec fn sets_bytes(
        self,
        s: AssemblyView,
        addr: TreeView,
        element_type: Type,
        element: TreeView,
        times: u64,
    ) -> bool {
        &&& self matches RootView::InitBlk { dst, val, count }
        &&& dst matches TreeView::CastPtr { val: target, new_ptr: Type::Ptr(byte) }
        &&& *target == addr
        &&& byte.index() < s.types.len()
        &&& s.types[byte.index()] == Type::Int(Int::U8)
        &&& val.transmutes(s, element_type, Type::Int(Int::U8), element)
        &&& count.is_const(s, Const::USize(times))
    }
}

/// Whether the statements `r` fill the array at `addr`, of the type `array`,
/// with `times` copies of `element`, of the type `element_type`: the first
/// elements, at most 16, are set one by one by calls of `site`; then come
/// the copies that fill the rest, which take the size of an element from
/// the node `elem_size`.
pub open spec fn fills(
    r: Seq<V1Root>,
    s: AssemblyView,
    site: Interned<MethodRef>,
    elem_size: Interned<CILNode>,
    array: Type,
    element_type: Type,
    addr: TreeView,
    element: TreeView,
    times: u64,
) -> bool {
    let steps = copy_steps(set_count(times) as nat, times as nat);
    &&& s.is_set_item(site, array->ClassRef_0, array, element_type)
    &&& steps.len() > 0 ==> s.is_size_of(elem_size, element_type)
    &&& r.len() == set_count(times) + steps.len()
    &&& forall|i: int|
        0 <= i < r.len() ==> if i < set_count(times) {
            (#[trigger] r[i])@.sets_item(s, site, addr, i as u64, element)
        } else {
            r[i]@.copies_items(
                s,
                addr,
                elem_size,
                steps[i - set_count(times)].0 as u64,
                steps[i - set_count(times)].1 as u64,
            )
        }
}

/// The statements that fill the array at `place_address` with `times`
/// copies of `element`. The array has the type `array`, a class; its
/// elements have the type `element_type`.
///
/// An array of elements one byte in size is filled by one statement that
/// sets its bytes. Any other array has its elements set one by one, up to
/// the first 16 of them; the rest is filled by copying what is set, which
/// doubles it each time.
pub fn repeat(
    element: V1Node,
    element_type: Type,
    byte_sized: bool,
    times: u64,
    array: Type,
    place_address: V1Node,
    store: &mut Assembly,
) -> (r: Vec<V1Root>)
    requires
        old(store).wf(),
        array is ClassRef,
    ensures
        final(store).wf(),
        final(store)@.extends(old(store)@),
        byte_sized ==> r@.len() == 1 && r@[0]@.sets_bytes(
            final(store)@,
            place_address@,
            element_type,
            element@,
            times,
        ),
        !byte_sized ==> exists|site: Interned<MethodRef>, elem_size: Interned<CILNode>| #[trigger]
            fills(
                r@,
                final(store)@,
                site,
                elem_size,
                array,
                element_type,
                place_address@,
                element@,
                times,
            ),
        final(store).initializers() == old(store).initializers(),
{
    let ghost s0 = store@;
    proof {
        store.lemma_wf();
    }
    if byte_sized {
        let mut out: Vec<V1Root> = Vec::new();
        out.push(init_bytes(element, element_type, times, place_address, store));
        return out;
    }
    let class = match array {
        Type::ClassRef(class) => class,
        _ => Interned::from_index(0),
    };
    let site = set_item_site(class, array, element_type, store);
    let ghost s2 = store@;
    let set = if times <= SIMPLE_REPEAT_CAP {
        times
    } else {
        SIMPLE_REPEAT_CAP
    };
    let ghost steps = copy_steps(set as nat, times as nat);
    let mut out = set_items(site, &place_address, &element, set, store);
    let ghost s3 = store@;
    let ghost first = out@;
    let (mut rest, elem_size) = copy_rest(&place_address, element_type, set, times, store);
    let ghost second = rest@;
    out.append(&mut rest);
    proof {
        store@.lemma_extends_transitive(s3, s2);
        store@.lemma_extends_transitive(s2, s0);
        store@.lemma_is_set_item_extends(s2, site, class, array, element_type);
        assert forall|i: int| 0 <= i < out@.len() implies if i < set {
            (#[trigger] out@[i])@.sets_item(store@, site, place_address@, i as u64, element@)
        } else {
            out@[i]@.copies_items(
                store@,
                place_address@,
                elem_size,
                steps[i - set].0 as u64,
                steps[i - set].1 as u64,
            )
        } by {
            if i < set {
                assert(out@[i] == first[i]);
                first[i]@.lemma_sets_item_extends(
                    s3,
                    store@,
                    site,
                    place_address@,
                    i as u64,
                    element@,
                );
            } else {
                assert(out@[i] == second[i - set]);
            }
        }
        assert(fills(
            out@,
            store@,
            site,
            elem_size,
            array,
            element_type,
            place_address@,
            element@,
            times,
        ));
    }
    out
}

impl TreeView {
    /// Whether the tree reinterprets `operand`, of type `src`, as a value of
    /// type `dst`: between pointers, function pointers and pointer-sized
    /// integers it is a pointer cast; a 16-bit unsigned integer is a
    /// character of the platform as it is; anything else is read as the
    /// other type by the helper.
    pub open spec fn reinterprets(
        self,
        s: AssemblyView,
        src: Type,
        dst: Type,
        operand: TreeView,
    ) -> bool {
        if address_like(src) && address_like(dst) {
            self == (TreeView::CastPtr { val: Box::new(operand), new_ptr: dst })
        } else if src == Type::Int(Int::U16) && dst == Type::PlatformChar {
            self == operand
        } else {
            self.transmutes(s, src, dst, operand)
        }
    }
}

/// Whether values of the type are addresses: a pointer, a function pointer
/// or a pointer-sized integer.
pub open spec fn address_like(tpe: Type) -> bool {
    tpe is Ptr || tpe is FnPtr || tpe == Type::Int(Int::USize) || tpe == Type::Int(Int::ISize)
}

fn is_address_like(tpe: &Type) -> (r: bool)
    ensures
        r == address_like(*tpe),
{
    match tpe {
        Type::Ptr(_) | Type::FnPtr(_) => true,
        Type::Int(Int::USize) | Type::Int(Int::ISize) => true,
        _ => false,
    }
}

/// The operand, of type `src`, reinterpreted as a value of type `dst`.
pub fn transmute(src: Type, dst: Type, operand: V1Node, store: &mut Assembly) -> (r: V1Node)
    requires
        old(store).wf(),
    ensures
        final(store).wf(),
        final(store)@.extends(old(store)@),
        r@.reinterprets(final(store)@, src, dst, operand@),
        operand@.lowerable(old(store)@) ==> r@.lowerable(final(store)@),
        final(store).initializers() == old(store).initializers(),
{
    proof {
        store@.lemma_extends_reflexive();
    }
    if is_address_like(&src) && is_address_like(&dst) {
        operand.cast_ptr(dst)
    } else if src.is(&Type::Int(Int::U16)) && dst.is(&Type::PlatformChar) {
        operand
    } else {
        operand.transmute_on_stack(src, dst, store)
    }
}

/// The operand converted to the floating-point type `target`, which has
/// 32 or 64 bits.
pub fn float_to_float(target: Type, operand: V1Node) -> (r: V1Node)
    requires
        target == Type::Float(crate::tpe::Float::F32) || target == Type::Float(
            crate::tpe::Float::F64,
        ),
    ensures
        r@ == (TreeView::FloatCast {
            input: Box::new(operand@),
            target: target->Float_0,
            is_signed: true,
        }),
{
    match target {
        Type::Float(f) => V1Node::float_cast(f, operand),
        _ => operand,
    }
}

/// The address `val` as a value of the type `target`, which is a
/// pointer-sized integer, a pointer, a function pointer or a 64-bit
/// integer. A 64-bit integer is cast from the pointer-sized unsigned
/// integer.
pub fn expose_provenance(target: Type, val: V1Node, store: &mut Assembly) -> (r: V1Node)
    requires
        old(store).wf(),
        address_like(target) || target == Type::Int(Int::U64) || target == Type::Int(Int::I64),
    ensures
        final(store).wf(),
        final(store)@.extends(old(store)@),
        address_like(target) ==> r@ == (TreeView::CastPtr { val: Box::new(val@), new_ptr: target }),
        !address_like(target) ==> crate::casts::is_cast(
            r@,
            Int::USize,
            target,
            TreeView::CastPtr { val: Box::new(val@), new_ptr: Type::Int(Int::USize) },
            final(store)@,
        ),
        val@.lowerable(old(store)@) ==> r@.lowerable(final(store)@),
        final(store).initializers() == old(store).initializers(),
{
    proof {
        store@.lemma_extends_reflexive();
    }
    if is_address_like(&target) {
        val.cast_ptr(target)
    } else {
        crate::casts::int_to_int(
            Type::Int(Int::USize),
            target,
            val.cast_ptr(Type::Int(Int::USize)),
            store,
        )
    }
}

/// The pointer `operand` cast to the pointer type `target`. A thin pointer
/// is cast as it is, a fat pointer is read as the other fat pointer type,
/// and a fat pointer of the class `source` becomes a thin one by casting
/// its address, which is loaded from the fat pointer at `operand_addr`. A
/// thin pointer does not become a fat one.
pub fn ptr_to_ptr(
    src_fat: bool,
    target_fat: bool,
    operand: V1Node,
    operand_addr: V1Node,
    source_type: Type,
    target_type: Type,
    source: Interned<ClassRef>,
    store: &mut Assembly,
) -> (r: V1Node)
    requires
        old(store).wf(),
        src_fat || !target_fat,
        !target_fat ==> target_type.is_pointer_like(),
    ensures
        final(store).wf(),
        final(store)@.extends(old(store)@),
        src_fat && target_fat ==> r@.transmutes(
            final(store)@,
            source_type,
            target_type,
            operand@,
        ),
        !src_fat ==> r@ == (TreeView::CastPtr { val: Box::new(operand@), new_ptr: target_type }),
        src_fat && !target_fat ==> (r@ matches TreeView::CastPtr { val, new_ptr } && new_ptr
            == target_type && (*val matches TreeView::Field { addr, field } && *addr
            == operand_addr@ && exists|void: Interned<Type>|
            void.index() < final(store)@.types.len() && final(store)@.types[void.index()]
                == Type::Void && #[trigger] final(store)@.is_field(
                field,
                source,
                "data_pointer"@,
                Type::Ptr(void),
            ))),
        final(store).initializers() == old(store).initializers(),
{
    proof {
        store@.lemma_extends_reflexive();
    }
    if src_fat && target_fat {
        operand.transmute_on_stack(source_type, target_type, store)
    } else if src_fat {
        let ghost s0 = store@;
        let void_ptr = store.nptr(Type::Void);
        let ghost s1 = store@;
        let name = store.alloc_string("data_pointer");
        let ghost s2 = store@;
        let desc = store.alloc_field(crate::field_desc::FieldDesc::new(source, name, void_ptr));
        proof {
            s2.lemma_extends_transitive(s1, s0);
            store@.lemma_extends_transitive(s2, s0);
            store@.lemma_extends_transitive(s2, s1);
            assert(store@.is_field(desc, source, "data_pointer"@, Type::Ptr(void_ptr->Ptr_0)));
        }
        V1Node::load_field(operand_addr, desc).cast_ptr(target_type)
    } else {
        operand.cast_ptr(target_type)
    }
}

/// The number of items of the slice behind the fat pointer at `addr`, a
/// pointer of the class `slice_tpe`: the field `metadata` of the fat
/// pointer, a pointer-sized unsigned integer. The address is not a local
/// variable itself.
pub fn slice_len(slice_tpe: Interned<ClassRef>, addr: V1Node, store: &mut Assembly) -> (r: V1Node)
    requires
        old(store).wf(),
        !(addr@ is Local),
    ensures
        final(store).wf(),
        final(store)@.extends(old(store)@),
        r@ matches TreeView::Field { addr: target, field } && *target == addr@
            && final(store)@.is_field(field, slice_tpe, "metadata"@, Type::Int(Int::USize)),
        addr@.lowerable(old(store)@) ==> r@.lowerable(final(store)@),
        final(store).initializers() == old(store).initializers(),
{
    let ghost s0 = store@;
    let ghost tree = addr@;
    let name = store.alloc_string("metadata");
    let ghost s1 = store@;
    let field = store.alloc_field(FieldDesc::new(slice_tpe, name, Type::Int(Int::USize)));
    proof {
        store@.lemma_extends_transitive(s1, s0);
        if tree.lowerable(s0) {
            tree.lemma_stable(s0, store@);
        }
    }
    V1Node::load_field(addr, field)
}

impl TreeView {
    /// Whether the tree is the pointer to the function of the main module
    /// that has the name `name` and the signature `sig`, as a value of
    /// the type `target`: the pointer itself where `target` is the type
    /// of the pointers to functions of that signature (or where no type
    /// is asked for), else the pointer cast to `target`.
    pub open spec fn points_to_fn(
        self,
        s: AssemblyView,
        name: Seq<char>,
        sig: FnSigView,
        target: Option<Type>,
    ) -> bool {
        exists|site: Interned<MethodRef>|
            {
                &&& #[trigger] s.is_helper(site, name, sig.inputs, sig.output)
                &&& self == match target {
                    Some(tpe) if tpe != Type::FnPtr(s.method_refs[site.index()].sig) => {
                        TreeView::CastPtr { val: Box::new(TreeView::FnPtr(site)), new_ptr: tpe }
                    },
                    _ => TreeView::FnPtr(site),
                }
            }
    }
}

/// The pointer to the function of the main module that has the name
/// `name` and the signature `sig`.
pub fn reify_fn_pointer(name: &str, sig: FnSig, store: &mut Assembly) -> (r: V1Node)
    requires
        old(store).wf(),
    ensures
        final(store).wf(),
        final(store)@.extends(old(store)@),
        r@.points_to_fn(final(store)@, name@, sig@, None),
        r@.lowerable(final(store)@),
        final(store).initializers() == old(store).initializers(),
{
    let ghost s0 = store@;
    let ghost model = sig@;
    let main = store.main_module();
    let ghost s1 = store@;
    let sig = store.alloc_sig(sig);
    let ghost s2 = store@;
    let site = store.new_methodref(main, name, sig, MethodKind::Static, Vec::new());
    proof {
        s2.lemma_extends_transitive(s1, s0);
        store@.lemma_extends_transitive(s2, s0);
        store@.lemma_extends_transitive(s2, s1);
        store@.lemma_has_class_extends(s1, main, "MainModule"@, None, false);
        assert(store@.sigs[sig.index()] == s2.sigs[sig.index()]);
        assert(store@.is_helper(site, name@, model.inputs, model.output));
    }
    V1Node::fn_pointer(site)
}

/// The pointer to the function of the main module that a closure without
/// captures stands for, as a value of the type `target`, a type of
/// pointers to functions. The function has the name `name` and the
/// signature `sig`. Where `target` is a type of pointers to functions of
/// another signature, the pointer is cast to it.
pub fn closure_fn_pointer(name: &str, sig: FnSig, target: Type, store: &mut Assembly) -> (r: V1Node)
    requires
        old(store).wf(),
        target is FnPtr,
    ensures
        final(store).wf(),
        final(store)@.extends(old(store)@),
        r@.points_to_fn(final(store)@, name@, sig@, Some(target)),
        r@.lowerable(final(store)@),
        final(store).initializers() == old(store).initializers(),
{
    let ghost s0 = store@;
    let ghost model = sig@;
    let sig = store.alloc_sig(sig);
    let ghost s1 = store@;
    let main = store.main_module();
    let ghost s2 = store@;
    let site = store.new_methodref(main, name, sig, MethodKind::Static, Vec::new());
    proof {
        s2.lemma_extends_transitive(s1, s0);
        store@.lemma_extends_transitive(s2, s0);
        store@.lemma_extends_transitive(s2, s1);
        store@.lemma_has_class_extends(s2, main, "MainModule"@, None, false);
        assert(store@.sigs[sig.index()] == s1.sigs[sig.index()]);
        assert(store@.is_helper(site, name@, model.inputs, model.output));
    }
    let same = match &target {
        Type::FnPtr(target_sig) => target_sig.is(&sig),
        _ => false,
    };
    let pointer = V1Node::fn_pointer(site);
    assert(pointer@.lowerable(store@));
    if same {
        pointer
    } else {
        pointer.cast_ptr(target)
    }
}

/// The size of a value of the type `ty` as a pointer-sized unsigned
/// integer: zero for the empty type.
pub fn size_of_value(ty: Type, store: &mut Assembly) -> (r: V1Node)
    requires
        old(store).wf(),
    ensures
        final(store).wf(),
        final(store)@.extends(old(store)@),
        ty is Void ==> r@.is_const(final(store)@, Const::USize(0)),
        !(ty is Void) ==> (r@ matches TreeView::IntCast { input, target, extend } && target
            == Int::USize && extend == ExtendKind::ZeroExtend && (*input matches TreeView::Graph(h)
            && final(store)@.is_size_of(h, ty))),
        r@.lowerable(final(store)@),
        final(store).initializers() == old(store).initializers(),
{
    if ty.is(&Type::Void) {
        return V1Node::constant(Const::USize(0), store);
    }
    let ghost s0 = store@;
    let tpe = store.alloc_type(ty);
    let ghost s1 = store@;
    let node = CILNode::SizeOf(tpe);
    assert(node@.kids() =~= Seq::empty());
    let h = store.alloc_node(node);
    proof {
        store@.lemma_extends_transitive(s1, s0);
    }
    let size = V1Node::graph(h);
    assert(size@.lowerable(store@));
    V1Node::int_cast(Int::USize, size)
}

/// The discriminant of the enum at `addr` as a value of the type `target`.
/// The enum has the type `owner`. Where that is no class, or the enum has
/// no tag, the discriminant is zero; else it is read from the enum and
/// cast from the type of the tag.
pub fn discriminant(
    layout: &Layout,
    addr: V1Node,
    owner: Type,
    target: Type,
    store: &mut Assembly,
) -> (r: V1Node)
    requires
        old(store).wf(),
        target is Int,
        owner is ClassRef && layout.tag_spec() is Some ==> !layout.uninhabited && layout.can_get()
            && layout.tag_spec()->0 is Int,
    ensures
        final(store).wf(),
        final(store)@.extends(old(store)@),
        !(owner is ClassRef && layout.tag_spec() is Some) ==> exists|zero: TreeView| #[trigger]
            zero.is_const(final(store)@, Const::I32(0)) && crate::casts::is_cast(
                r@,
                Int::I32,
                target,
                zero,
                final(store)@,
            ),
        owner is ClassRef && layout.tag_spec() is Some ==> exists|read: TreeView| #[trigger]
            read.reads_discr(final(store)@, *layout, addr@, owner->ClassRef_0)
                && crate::casts::is_cast(
                r@,
                crate::utilis::adt::Primitive::int_spec(
                    layout.tag_spec()->0->Int_0,
                    layout.tag_spec()->0->Int_1,
                ),
                target,
                read,
                final(store)@,
            ),
        final(store).initializers() == old(store).initializers(),
{
    let ghost s0 = store@;
    let class = match owner {
        Type::ClassRef(class) => Some(class),
        _ => None,
    };
    let tagged = match &layout.variants {
        Variants::Multiple { .. } => true,
        _ => false,
    };
    match class {
        Some(class) if tagged => {
            let tag_tpe = match &layout.variants {
                Variants::Multiple { tag, .. } => crate::utilis::adt::primitive_to_type(*tag, store),
                _ => Type::Int(Int::I32),
            };
            let ghost s1 = store@;
            let read = crate::utilis::discr::get_discr(layout, addr, class, store);
            let ghost s2 = store@;
            let ghost read_v = read@;
            let r = crate::casts::int_to_int(tag_tpe, target, read, store);
            proof {
                s2.lemma_extends_transitive(s1, s0);
                store@.lemma_extends_transitive(s2, s0);
                read_v.lemma_reads_discr_extends(s2, store@, *layout, addr@, class);
            }
            r
        },
        _ => {
            let zero = V1Node::constant(Const::I32(0), store);
            let ghost s1 = store@;
            let ghost zero_v = zero@;
            let r = crate::casts::int_to_int(Type::Int(Int::I32), target, zero, store);
            proof {
                store@.lemma_extends_transitive(s1, s0);
                assert(zero_v.is_const(store@, Const::I32(0)));
            }
            r
        },
    }
}

} // verus!
