use crate::assembly::{decimal, decimal_spec, Assembly};
use crate::cil_node::{TreeView, V1Node};
use crate::cil_root::{RootView, V1Root};
use crate::class_ref::ClassRef;
use crate::expr::AssemblyView;
use crate::field_desc::FieldDesc;
use crate::interned::Interned;
use crate::rvalue::set_items_to;
use crate::tpe::{Int, Type};
use crate::utilis::adt::{Layout, Variants};
use crate::utilis::discr::set_discr;
use vstd::prelude::*;
use vstd::string::StringExecFns;

verus! {

impl AssemblyView {
    /// Whether `desc` refers to the field of the class `owner` that has the
    /// given name and type.
    pub open spec fn is_field(
        self,
        desc: Interned<FieldDesc>,
        owner: Interned<ClassRef>,
        name: Seq<char>,
        tpe: Type,
    ) -> bool {
        &&& desc.index() < self.fields.len()
        &&& self.fields[desc.index()].owner == owner
        &&& self.fields[desc.index()].tpe == tpe
        &&& self.has_string(self.fields[desc.index()].name, name)
    }
}

impl RootView {
    /// Whether the statement stores `value` into the field of the object
    /// at `addr` that belongs to the class `owner` and has the given name
    /// and type.
    #[verifier::opaque]
    pub open spec fn sets_field(
        self,
        s: AssemblyView,
        addr: TreeView,
        value: TreeView,
        owner: Interned<ClassRef>,
        name: Seq<char>,
        tpe: Type,
    ) -> bool {
        &&& self matches RootView::SetField { addr: target, value: stored, desc }
        &&& target == addr
        &&& stored == value
        &&& s.is_field(desc, owner, name, tpe)
    }

    /// A statement that stores into a field in a store stores into it in
    /// every store that extends it.
    pub proof fn lemma_sets_field_extends(
        self,
        s1: AssemblyView,
        s2: AssemblyView,
        addr: TreeView,
        value: TreeView,
        owner: Interned<ClassRef>,
        name: Seq<char>,
        tpe: Type,
    )
        requires
            s2.extends(s1),
            self.sets_field(s1, addr, value, owner, name, tpe),
        ensures
            self.sets_field(s2, addr, value, owner, name, tpe),
    {
        reveal(RootView::sets_field);
    }
}

/// The statement that stores `value` into the field of the object at
/// `addr` that belongs to the class `owner` and has the given name and
/// type.
pub fn set_field(
    addr: V1Node,
    value: V1Node,
    owner: Interned<ClassRef>,
    name: &str,
    tpe: Type,
    store: &mut Assembly,
) -> (r: V1Root)
    requires
        old(store).wf(),
    ensures
        final(store).wf(),
        final(store)@.extends(old(store)@),
        r@.sets_field(final(store)@, addr@, value@, owner, name@, tpe),
        final(store).initializers() == old(store).initializers(),
{
    let ghost s0 = store@;
    let name = store.alloc_string(name);
    let ghost s1 = store@;
    let desc = store.alloc_field(FieldDesc::new(owner, name, tpe));
    proof {
        store@.lemma_extends_transitive(s1, s0);
        reveal(RootView::sets_field);
    }
    V1Root::SetField { addr: Box::new(addr), value: Box::new(value), desc }
}

/// How the fields of an aggregate are named by their position.
#[derive(Debug, Clone, Copy, PartialEq, Eq, Structural)]
pub enum FieldNaming {
    /// The fields of a tuple: `Item1`, `Item2` and so on.
    Tuple,
    /// The captures of a closure or of a coroutine: `f_0`, `f_1` and so
    /// on.
    Closure,
}

impl FieldNaming {
    /// The name of the field at position `i`.
    pub open spec fn name_spec(self, i: nat) -> Seq<char> {
        match self {
            FieldNaming::Tuple => "Item"@ + decimal_spec(i + 1),
            FieldNaming::Closure => "f_"@ + decimal_spec(i),
        }
    }

    pub fn name(&self, i: u32) -> (r: String)
        ensures
            r@ == self.name_spec(i as nat),
    {
        match self {
            FieldNaming::Tuple => String::from_str("Item").concat(
                decimal(i as u64 + 1).as_str(),
            ),
            FieldNaming::Closure => String::from_str("f_").concat(decimal(i as u64).as_str()),
        }
    }
}

/// The positions among the first `n` of `types` whose type is not the
/// empty type, in order. A field of the empty type holds nothing, and is
/// not stored into.
pub open spec fn kept(types: Seq<Type>, n: nat) -> Seq<int>
    decreases n,
{
    if n == 0 {
        Seq::empty()
    } else if types[n - 1] == Type::Void {
        kept(types, (n - 1) as nat)
    } else {
        kept(types, (n - 1) as nat).push(n - 1)
    }
}

/// The kept positions are positions of fields that are not of the empty
/// type, and come in rising order.
pub proof fn lemma_kept(types: Seq<Type>, n: nat)
    requires
        n <= types.len(),
    ensures
        kept(types, n).len() <= n,
        forall|j: int|
            0 <= j < kept(types, n).len() ==> 0 <= (#[trigger] kept(types, n)[j]) < n
                && types[kept(types, n)[j]] != Type::Void,
        forall|j: int, k: int|
            0 <= j < k < kept(types, n).len() ==> (#[trigger] kept(types, n)[j]) < (#[trigger] kept(
                types,
                n,
            )[k]),
        forall|i: int|
            0 <= i < n && types[i] != Type::Void ==> kept(types, n).contains(i),
    decreases n,
{
    if n > 0 {
        lemma_kept(types, (n - 1) as nat);
        let before = kept(types, (n - 1) as nat);
        let all = kept(types, n);
        assert forall|i: int| 0 <= i < n && types[i] != Type::Void implies all.contains(i) by {
            if i < n - 1 {
                let j = choose|j: int| 0 <= j < before.len() && before[j] == i;
                assert(all[j] == i);
            } else {
                assert(all[all.len() - 1] == i);
            }
        }
    }
}

impl FieldNaming {
    /// The names of the first `n` fields.
    pub fn names(&self, n: u32) -> (r: Vec<String>)
        ensures
            r@.len() == n,
            forall|i: int| 0 <= i < n ==> (#[trigger] r@[i])@ == self.name_spec(i as nat),
    {
        let mut out: Vec<String> = Vec::new();
        let mut i: u32 = 0;
        while i < n
            invariant
                i <= n,
                out@.len() == i,
                forall|j: int| 0 <= j < i ==> (#[trigger] out@[j])@ == self.name_spec(j as nat),
            decreases n - i,
        {
            out.push(self.name(i));
            i += 1;
        }
        out
    }
}

/// The statements that store the values of the fields of an aggregate of
/// the class `owner` at `addr`: one for each field that is not of the
/// empty type, in order. The field at position `i` has the name
/// `names[i]` and the type `types[i]`, and takes the value `values[i]`.
pub fn aggregate_fields(
    names: &Vec<String>,
    owner: Interned<ClassRef>,
    addr: &V1Node,
    types: &Vec<Type>,
    values: &Vec<V1Node>,
    store: &mut Assembly,
) -> (r: Vec<V1Root>)
    requires
        old(store).wf(),
        types@.len() == values@.len(),
        types@.len() == names@.len(),
    ensures
        final(store).wf(),
        final(store)@.extends(old(store)@),
        r@.len() == kept(types@, types@.len()).len(),
        forall|j: int|
            0 <= j < r@.len() ==> (#[trigger] r@[j])@.sets_field(
                final(store)@,
                addr@,
                values@[kept(types@, types@.len())[j]]@,
                owner,
                names@[kept(types@, types@.len())[j]]@,
                types@[kept(types@, types@.len())[j]],
            ),
        final(store).initializers() == old(store).initializers(),
{
    let ghost s0 = store@;
    proof {
        s0.lemma_extends_reflexive();
    }
    let mut out: Vec<V1Root> = Vec::new();
    let mut i: usize = 0;
    while i < types.len()
        invariant
            i <= types@.len(),
            types@.len() == values@.len(),
            types@.len() == names@.len(),
            store.wf(),
            store@.extends(s0),
            out@.len() == kept(types@, i as nat).len(),
            forall|j: int|
                0 <= j < out@.len() ==> (#[trigger] out@[j])@.sets_field(
                    store@,
                    addr@,
                    values@[kept(types@, i as nat)[j]]@,
                    owner,
                    names@[kept(types@, i as nat)[j]]@,
                    types@[kept(types@, i as nat)[j]],
                ),
            store.initializers() == old(store).initializers(),
        decreases types@.len() - i,
    {
        let ghost before = store@;
        let ghost sofar = out@;
        let ghost positions = kept(types@, i as nat);
        proof {
            lemma_kept(types@, i as nat);
        }
        if !types[i].is(&Type::Void) {
            let root = set_field(
                addr.duplicate(),
                values[i].duplicate(),
                owner,
                names[i].as_str(),
                types[i],
                store,
            );
            proof {
                store@.lemma_extends_transitive(before, s0);
                assert forall|j: int| 0 <= j < sofar.len() implies (#[trigger] sofar[j])@.sets_field(
                    store@,
                    addr@,
                    values@[positions[j]]@,
                    owner,
                    names@[positions[j]]@,
                    types@[positions[j]],
                ) by {
                    sofar[j]@.lemma_sets_field_extends(
                        before,
                        store@,
                        addr@,
                        values@[positions[j]]@,
                        owner,
                        names@[positions[j]]@,
                        types@[positions[j]],
                    );
                }
            }
            out.push(root);
        }
        i += 1;
    }
    out
}

/// The statement that writes the discriminant of the variant
/// `variant_index` of the enum at `addr`, of the class `owner`, if the
/// enum has a tag.
pub fn aggregate_discriminant(
    layout: &Layout,
    variant_index: u32,
    addr: V1Node,
    owner: Interned<ClassRef>,
    store: &mut Assembly,
) -> (r: Option<V1Root>)
    requires
        old(store).wf(),
        layout.tag_spec() is Some ==> layout.can_set(variant_index),
    ensures
        final(store).wf(),
        final(store)@.extends(old(store)@),
        r is Some <==> layout.tag_spec() is Some,
        r is None ==> final(store)@ == old(store)@,
        r matches Some(root) ==> root@.writes_discr(
            final(store)@,
            *layout,
            layout.write_plan(variant_index),
            addr@,
            owner,
        ),
        final(store).initializers() == old(store).initializers(),
{
    proof {
        store@.lemma_extends_reflexive();
    }
    match &layout.variants {
        Variants::Multiple { .. } => Some(set_discr(layout, variant_index, addr, owner, store)),
        _ => None,
    }
}

/// The statements that set the elements of the array at `addr`, of the
/// class `array`, to the given values, in order. The elements have the
/// type `element`.
pub fn aggregate_array(
    array: Interned<ClassRef>,
    element: Type,
    addr: &V1Node,
    values: &Vec<V1Node>,
    store: &mut Assembly,
) -> (r: Vec<V1Root>)
    requires
        old(store).wf(),
    ensures
        final(store).wf(),
        final(store)@.extends(old(store)@),
        r@.len() == values@.len(),
        exists|site: Interned<crate::method_ref::MethodRef>|
            {
                &&& #[trigger] final(store)@.is_set_item(site, array, Type::ClassRef(array), element)
                &&& forall|i: int|
                    0 <= i < r@.len() ==> (#[trigger] r@[i])@.sets_item(
                        final(store)@,
                        site,
                        addr@,
                        i as u64,
                        values@[i]@,
                    )
            },
        final(store).initializers() == old(store).initializers(),
{
    let ghost s0 = store@;
    let site = crate::rvalue::set_item_site(array, Type::ClassRef(array), element, store);
    let ghost s1 = store@;
    let r = set_items_to(site, addr, values, store);
    proof {
        store@.lemma_extends_transitive(s1, s0);
        store@.lemma_is_set_item_extends(s1, site, array, Type::ClassRef(array), element);
    }
    r
}

/// The two statements that make the fat pointer at `addr`, of the class
/// `fat_ptr`: the first stores the address `data`, cast to a pointer to the
/// empty type; the second stores the metadata `meta`, of the type
/// `meta_type`, read as a pointer-sized unsigned integer.
pub fn aggregate_fat_ptr(
    fat_ptr: Interned<ClassRef>,
    addr: V1Node,
    data: V1Node,
    meta: V1Node,
    meta_type: Type,
    store: &mut Assembly,
) -> (r: [V1Root; 2])
    requires
        old(store).wf(),
    ensures
        final(store).wf(),
        final(store)@.extends(old(store)@),
        exists|void: Interned<Type>, stored: TreeView|
            {
                &&& void.index() < final(store)@.types.len()
                &&& final(store)@.types[void.index()] == Type::Void
                &&& #[trigger] r@[0]@.sets_field(
                    final(store)@,
                    addr@,
                    TreeView::CastPtr { val: Box::new(data@), new_ptr: Type::Ptr(void) },
                    fat_ptr,
                    "data_pointer"@,
                    Type::Ptr(void),
                )
                &&& stored.transmutes(final(store)@, meta_type, Type::Int(Int::USize), meta@)
                &&& #[trigger] r@[1]@.sets_field(
                    final(store)@,
                    addr@,
                    stored,
                    fat_ptr,
                    "metadata"@,
                    Type::Int(Int::USize),
                )
            },
        final(store).initializers() == old(store).initializers(),
{
    let ghost s0 = store@;
    let ghost addr_v = addr@;
    let ghost data_v = data@;
    proof {
        store.lemma_wf();
    }
    let void_ptr = store.nptr(Type::Void);
    let ghost s1 = store@;
    let ghost void = void_ptr->Ptr_0;
    let first = set_field(addr.duplicate(), data.cast_ptr(void_ptr), fat_ptr, "data_pointer", void_ptr, store);
    let ghost s2 = store@;
    let stored = meta.transmute_on_stack(meta_type, Type::Int(Int::USize), store);
    let ghost s3 = store@;
    let ghost stored_v = stored@;
    let second = set_field(addr, stored, fat_ptr, "metadata", Type::Int(Int::USize), store);
    proof {
        s2.lemma_extends_transitive(s1, s0);
        s3.lemma_extends_transitive(s2, s0);
        s3.lemma_extends_transitive(s2, s1);
        store@.lemma_extends_transitive(s3, s0);
        store@.lemma_extends_transitive(s3, s1);
        store@.lemma_extends_transitive(s3, s2);
        first@.lemma_sets_field_extends(
            s2,
            store@,
            addr_v,
            TreeView::CastPtr { val: Box::new(data_v), new_ptr: Type::Ptr(void) },
            fat_ptr,
            "data_pointer"@,
            Type::Ptr(void),
        );
        stored_v.lemma_calls_helper_extends_any(s3, store@);
        assert(stored_v.transmutes(store@, meta_type, Type::Int(Int::USize), meta@));
    }
    [first, second]
}

} // verus!
