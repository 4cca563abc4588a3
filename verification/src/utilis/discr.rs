use crate::assembly::Assembly;
use crate::casts::{cast_is_call, cast_view, int_to_int, is_cast};
use crate::cil_node::{lemma_view_all, lowerable_all, view_all, TreeView, V1Node};
use crate::cil_root::{RootView, V1Root};
use crate::cilnode::BinOp;
use crate::class_ref::ClassRef;
use crate::cst::Const;
use crate::expr::AssemblyView;
use crate::field_desc::FieldDesc;
use crate::interned::Interned;
use crate::method_ref::MethodRef;
use crate::tpe::{Int, Type};
use crate::utilis::adt::{primitive_to_type, Layout, Primitive, TagEncoding, Variants};
use vstd::prelude::*;

verus! {

/// A number below twice the modulus is reduced by taking the modulus off
/// once, if at all.
pub proof fn lemma_wrap(x: int, m: int)
    requires
        0 <= x < 2 * m,
    ensures
        x % m == if x < m {
            x
        } else {
            x - m
        },
{
    if x < m {
        vstd::arithmetic::div_mod::lemma_small_mod(x as nat, m as nat);
    } else {
        vstd::arithmetic::div_mod::lemma_small_mod((x - m) as nat, m as nat);
        vstd::arithmetic::div_mod::lemma_mod_multiples_vanish(1, x - m, m);
    }
}

/// What writing a discriminant does to the tag.
#[derive(Debug, Clone, Copy, PartialEq, Eq, Structural)]
pub enum DiscrWrite {
    /// The variant has no value: the write traps.
    Trap,
    /// The tag tells the variant already: nothing is written.
    Nop,
    /// The value is stored into the tag, cast to the type of the tag.
    Store(u64),
}

impl Primitive {
    /// Whether a tag held by the scalar can be computed with: an integer
    /// or a pointer.
    pub open spec fn integral(self) -> bool {
        !(self is Float)
    }

    /// Whether the scalar is a 128-bit integer.
    pub open spec fn wide_spec(&self) -> bool {
        *self matches Primitive::Int(crate::utilis::adt::Integer::I128, _)
    }

    #[verifier::when_used_as_spec(wide_spec)]
    pub fn wide(&self) -> (r: bool)
        ensures
            r == self.wide_spec(),
    {
        match self {
            Primitive::Int(crate::utilis::adt::Integer::I128, _) => true,
            _ => false,
        }
    }
}

impl Layout {
    /// Whether the given variant has no value.
    pub open spec fn variant_uninhabited(self, variant: u32) -> bool {
        match self.variants {
            Variants::Multiple { variants, .. } => variants@[variant as int].uninhabited,
            _ => self.uninhabited,
        }
    }

    /// The value that the tag of a niche-encoded enum holds for a tagged
    /// variant: the first value of the niche for the first tagged variant,
    /// and so on, wrapping around at 128 bits.
    pub open spec fn niche_tag_spec(niche_start: u128, first: u32, variant: u32) -> int {
        (niche_start + (variant - first)) % 0x1_0000_0000_0000_0000_0000_0000_0000_0000int
    }

    /// The value that the tag of a niche-encoded enum holds for a tagged
    /// variant.
    pub fn niche_tag(niche_start: u128, first: u32, variant: u32) -> (r: u128)
        requires
            first <= variant,
        ensures
            r == Self::niche_tag_spec(niche_start, first, variant),
    {
        let d: u128 = (variant - first) as u128;
        proof {
            lemma_wrap(niche_start + d, 0x1_0000_0000_0000_0000_0000_0000_0000_0000int);
        }
        match niche_start.checked_add(d) {
            Some(sum) => sum,
            None => d - (u128::MAX - niche_start) - 1,
        }
    }

    /// Whether the discriminant of the variant can be written: the layout
    /// has the variant, and unless the variant has no value, the value to
    /// store fits in 64 bits and the tag is an integer or a pointer.
    pub open spec fn can_set(self, variant: u32) -> bool {
        match self.variants {
            Variants::Empty => false,
            Variants::Single { index } => self.uninhabited || index == variant,
            Variants::Multiple { tag, tag_encoding, variants, .. } => variant < variants@.len() && (
            variants@[variant as int].uninhabited || match tag_encoding {
                TagEncoding::Direct => tag.integral() && (self.discriminant_spec(
                    variant,
                ) matches Some(d) && d <= u64::MAX),
                TagEncoding::Niche { untagged_variant, niche_variants_start, niche_start, .. } => variant
                    == untagged_variant || (tag.integral() && variant >= niche_variants_start
                    && Self::niche_tag_spec(niche_start, niche_variants_start, variant)
                    <= u64::MAX),
            }),
        }
    }

    /// What writing the discriminant of the variant does: it traps for a
    /// variant without value; it does nothing where the type has one
    /// variant or the variant is the untagged one; else it stores the
    /// discriminant, or for a niche-encoded enum the value of the niche
    /// that tells the variant.
    pub open spec fn write_plan(self, variant: u32) -> DiscrWrite {
        if self.variant_uninhabited(variant) {
            DiscrWrite::Trap
        } else {
            match self.variants {
                Variants::Multiple { tag_encoding: TagEncoding::Direct, .. } => DiscrWrite::Store(
                    self.discriminant_spec(variant)->0 as u64,
                ),
                Variants::Multiple {
                    tag_encoding: TagEncoding::Niche {
                        untagged_variant,
                        niche_variants_start,
                        niche_start,
                        ..
                    },
                    ..
                } => if variant == untagged_variant {
                    DiscrWrite::Nop
                } else {
                    DiscrWrite::Store(
                        Self::niche_tag_spec(niche_start, niche_variants_start, variant) as u64,
                    )
                },
                _ => DiscrWrite::Nop,
            }
        }
    }

    /// Whether the discriminant of the variant can be written.
    pub fn check_can_set(&self, variant: u32) -> (r: bool)
        ensures
            r == self.can_set(variant),
    {
        match &self.variants {
            Variants::Empty => false,
            Variants::Single { index } => self.uninhabited || *index == variant,
            Variants::Multiple { tag, tag_encoding, variants, .. } => {
                if variant as usize >= variants.len() {
                    return false;
                }
                if variants[variant as usize].uninhabited {
                    return true;
                }
                let integral = match tag {
                    Primitive::Float(_) => false,
                    _ => true,
                };
                match tag_encoding {
                    TagEncoding::Direct => integral && match self.discriminant_for(variant) {
                        Some(d) => d <= 0xffff_ffff_ffff_ffff,
                        None => false,
                    },
                    TagEncoding::Niche { untagged_variant, niche_variants_start, niche_start, .. } => {
                        variant == *untagged_variant || (integral && variant
                            >= *niche_variants_start && Self::niche_tag(
                            *niche_start,
                            *niche_variants_start,
                            variant,
                        ) <= 0xffff_ffff_ffff_ffff)
                    },
                }
            },
        }
    }

    /// What writing the discriminant of the variant does.
    pub fn discr_write(&self, variant: u32) -> (r: DiscrWrite)
        requires
            self.can_set(variant),
        ensures
            r == self.write_plan(variant),
    {
        match &self.variants {
            Variants::Empty => DiscrWrite::Nop,
            Variants::Single { .. } => {
                if self.uninhabited {
                    DiscrWrite::Trap
                } else {
                    DiscrWrite::Nop
                }
            },
            Variants::Multiple { tag_encoding, variants, .. } => {
                if variants[variant as usize].uninhabited {
                    return DiscrWrite::Trap;
                }
                match tag_encoding {
                    TagEncoding::Direct => match self.discriminant_for(variant) {
                        Some(d) => DiscrWrite::Store(d as u64),
                        None => DiscrWrite::Nop,
                    },
                    TagEncoding::Niche { untagged_variant, niche_variants_start, niche_start, .. } => {
                        if variant == *untagged_variant {
                            DiscrWrite::Nop
                        } else {
                            DiscrWrite::Store(
                                Self::niche_tag(*niche_start, *niche_variants_start, variant) as u64,
                            )
                        }
                    },
                }
            },
        }
    }
}

impl AssemblyView {
    /// Whether `desc` refers to the field of the class `owner` that holds
    /// the tag of an enum, with the type `tpe`.
    pub open spec fn is_tag_field(
        self,
        desc: Interned<FieldDesc>,
        owner: Interned<ClassRef>,
        tpe: Type,
    ) -> bool {
        &&& desc.index() < self.fields.len()
        &&& self.fields[desc.index()].owner == owner
        &&& self.fields[desc.index()].tpe == tpe
        &&& self.has_string(self.fields[desc.index()].name, "value__"@)
    }
}

/// Whether the tree `r` is the 64-bit unsigned constant `value`, cast to
/// the type `target`, in the store `s`.
pub open spec fn is_const_cast(r: TreeView, value: u64, target: Type, s: AssemblyView) -> bool {
    exists|c: TreeView| #[trigger]
        c.is_const(s, Const::U64(value)) && is_cast(r, Int::U64, target, c, s)
}

/// What holds of a cast in a store holds of it in every store that
/// extends it.
pub proof fn lemma_is_cast_extends(
    r: TreeView,
    src: Int,
    target: Type,
    operand: TreeView,
    s1: AssemblyView,
    s2: AssemblyView,
)
    requires
        s2.extends(s1),
        is_cast(r, src, target, operand, s1),
    ensures
        is_cast(r, src, target, operand, s2),
{
    let site = choose|site: Interned<MethodRef>|
        {
            &&& #[trigger] cast_view(src, target, operand, site) == r
            &&& (target is Int && cast_is_call(src, target->Int_0)) ==> s1.is_conversion(
                site,
                src,
                target->Int_0,
            )
        };
    assert(cast_view(src, target, operand, site) == r);
}

/// A constant cast in a store is the same constant cast in every store
/// that extends it.
pub proof fn lemma_is_const_cast_extends(
    r: TreeView,
    value: u64,
    target: Type,
    s1: AssemblyView,
    s2: AssemblyView,
)
    requires
        s2.extends(s1),
        is_const_cast(r, value, target, s1),
    ensures
        is_const_cast(r, value, target, s2),
{
    let c = choose|c: TreeView| #[trigger]
        c.is_const(s1, Const::U64(value)) && is_cast(r, Int::U64, target, c, s1);
    lemma_is_cast_extends(r, Int::U64, target, c, s1, s2);
    assert(c.is_const(s2, Const::U64(value)));
}

/// The 64-bit unsigned constant `value`, cast to the type `target`.
pub fn const_cast(value: u64, target: Type, store: &mut Assembly) -> (r: V1Node)
    requires
        old(store).wf(),
        target is Int || target is Ptr,
    ensures
        final(store).wf(),
        final(store)@.extends(old(store)@),
        is_const_cast(r@, value, target, final(store)@),
        r@.lowerable(final(store)@),
        final(store).initializers() == old(store).initializers(),
{
    let ghost s0 = store@;
    let c = V1Node::constant(Const::U64(value), store);
    let ghost s1 = store@;
    let ghost cv = c@;
    let r = int_to_int(Type::Int(Int::U64), target, c, store);
    proof {
        store@.lemma_extends_transitive(s1, s0);
        assert(cv.is_const(store@, Const::U64(value)));
    }
    r
}

/// The field of the class `owner` that holds the tag of an enum, with the
/// type `tpe`.
pub fn tag_field(owner: Interned<ClassRef>, tpe: Type, store: &mut Assembly) -> (r: Interned<
    FieldDesc,
>)
    requires
        old(store).wf(),
    ensures
        final(store).wf(),
        final(store)@.extends(old(store)@),
        final(store)@.is_tag_field(r, owner, tpe),
        final(store).initializers() == old(store).initializers(),
{
    let ghost s0 = store@;
    let name = store.alloc_string("value__");
    let ghost s1 = store@;
    let r = store.alloc_field(FieldDesc::new(owner, name, tpe));
    proof {
        store@.lemma_extends_transitive(s1, s0);
    }
    r
}

impl RootView {
    /// Whether the statement writes a discriminant into the enum at `addr`,
    /// of the class `class`, as `plan` says: it throws for a variant that
    /// has no value, it is the statement without effect where nothing is
    /// to be written, and else it stores the value, cast from a 64-bit
    /// unsigned constant to the type of the tag, into the tag field.
    pub open spec fn writes_discr(
        self,
        s: AssemblyView,
        layout: Layout,
        plan: DiscrWrite,
        addr: TreeView,
        class: Interned<ClassRef>,
    ) -> bool {
        match plan {
            DiscrWrite::Trap => self.throws(
                "UB: SetDiscirminant used, but the specified enum variant is not inhabited."@,
                s,
            ),
            DiscrWrite::Nop => self == RootView::Nop,
            DiscrWrite::Store(tag) => {
                &&& self matches RootView::SetField { addr: target, value, desc }
                &&& target == addr
                &&& desc.index() < s.fields.len()
                &&& layout.has_tag_type(s.fields[desc.index()].tpe, s)
                &&& s.is_tag_field(desc, class, s.fields[desc.index()].tpe)
                &&& is_const_cast(value, tag, s.fields[desc.index()].tpe, s)
            },
        }
    }
}

/// The statement that makes the enum at `enum_addr`, of the class
/// `enum_tpe`, hold the given variant.
pub fn set_discr(
    layout: &Layout,
    variant_index: u32,
    enum_addr: V1Node,
    enum_tpe: Interned<ClassRef>,
    store: &mut Assembly,
) -> (r: V1Root)
    requires
        old(store).wf(),
        layout.can_set(variant_index),
    ensures
        final(store).wf(),
        final(store)@.extends(old(store)@),
        r@.writes_discr(
            final(store)@,
            *layout,
            layout.write_plan(variant_index),
            enum_addr@,
            enum_tpe,
        ),
        layout.write_plan(variant_index) is Nop ==> final(store)@ == old(store)@,
        final(store).initializers() == old(store).initializers(),
{
    proof {
        store@.lemma_extends_reflexive();
    }
    match layout.discr_write(variant_index) {
        DiscrWrite::Trap => V1Root::throw(
            "UB: SetDiscirminant used, but the specified enum variant is not inhabited.",
            store,
        ),
        DiscrWrite::Nop => V1Root::Nop,
        DiscrWrite::Store(tag) => {
            let ghost s0 = store@;
            let primitive = match &layout.variants {
                Variants::Multiple { tag, .. } => *tag,
                _ => Primitive::Pointer,
            };
            let tag_tpe = primitive_to_type(primitive, store);
            let ghost s1 = store@;
            let value = const_cast(tag, tag_tpe, store);
            let ghost s2 = store@;
            let desc = tag_field(enum_tpe, tag_tpe, store);
            proof {
                s2.lemma_extends_transitive(s1, s0);
                store@.lemma_extends_transitive(s2, s0);
                store@.lemma_extends_transitive(s2, s1);
                lemma_is_const_cast_extends(value@, tag, tag_tpe, s2, store@);
            }
            V1Root::SetField { addr: Box::new(enum_addr), value: Box::new(value), desc }
        },
    }
}

/// How the discriminant is read.
#[derive(Debug, Clone, Copy, PartialEq, Eq, Structural)]
pub enum DiscrRead {
    /// The type has at most one variant: the discriminant is a constant.
    Constant(u64),
    /// The tag holds the discriminant.
    Tag,
    /// The tag is decoded: the tagged variants from `first` on are told by
    /// the values from `niche_start` on, up to `relative_max` values
    /// further; every other value tells the untagged variant.
    Niche { niche_start: u128, first: u32, relative_max: u32, untagged: u32 },
}

impl Layout {
    /// Whether the discriminant can be read: the tag has a type of the
    /// target; a constant discriminant fits in 64 bits; a niche-encoded tag
    /// is an integer or a pointer, its tagged variants are a range, the
    /// first value of the niche fits in 64 bits unless the tag is 128 bits
    /// wide, and a 128-bit tag tells one tagged variant only.
    pub open spec fn can_get(self) -> bool {
        match self.variants {
            Variants::Empty => true,
            Variants::Single { index } => match self.discriminant_spec(index) {
                Some(d) => d <= u64::MAX,
                None => true,
            },
            Variants::Multiple { tag, tag_encoding, .. } => tag.supported() && match tag_encoding {
                TagEncoding::Direct => true,
                TagEncoding::Niche { niche_variants_start, niche_variants_end, niche_start, .. } => {
                    &&& tag.integral()
                    &&& niche_variants_start <= niche_variants_end
                    &&& !tag.wide() ==> niche_start <= u64::MAX
                    &&& tag.wide() ==> niche_variants_start == niche_variants_end
                },
            },
        }
    }

    /// How the discriminant is read.
    pub open spec fn read_plan(self) -> DiscrRead {
        match self.variants {
            Variants::Empty => DiscrRead::Constant(0),
            Variants::Single { index } => DiscrRead::Constant(
                match self.discriminant_spec(index) {
                    Some(d) => d as u64,
                    None => index as u64,
                },
            ),
            Variants::Multiple { tag_encoding: TagEncoding::Direct, .. } => DiscrRead::Tag,
            Variants::Multiple {
                tag_encoding: TagEncoding::Niche {
                    untagged_variant,
                    niche_variants_start,
                    niche_variants_end,
                    niche_start,
                },
                ..
            } => DiscrRead::Niche {
                niche_start,
                first: niche_variants_start,
                relative_max: (niche_variants_end - niche_variants_start) as u32,
                untagged: untagged_variant,
            },
        }
    }

    /// Whether the discriminant can be read.
    pub fn check_can_get(&self) -> (r: bool)
        ensures
            r == self.can_get(),
    {
        match &self.variants {
            Variants::Empty => true,
            Variants::Single { index } => match self.discriminant_for(*index) {
                Some(d) => d <= 0xffff_ffff_ffff_ffff,
                None => true,
            },
            Variants::Multiple { tag, tag_encoding, .. } => {
                let supported = match tag {
                    Primitive::Float(crate::tpe::Float::F128) => false,
                    _ => true,
                };
                let integral = match tag {
                    Primitive::Float(_) => false,
                    _ => true,
                };
                supported && match tag_encoding {
                    TagEncoding::Direct => true,
                    TagEncoding::Niche {
                        niche_variants_start,
                        niche_variants_end,
                        niche_start,
                        ..
                    } => {
                        integral && *niche_variants_start <= *niche_variants_end && (tag.wide()
                            || *niche_start <= 0xffff_ffff_ffff_ffff) && (!tag.wide()
                            || *niche_variants_start == *niche_variants_end)
                    },
                }
            },
        }
    }

    /// How the discriminant is read.
    pub fn discr_read(&self) -> (r: DiscrRead)
        requires
            self.can_get(),
        ensures
            r == self.read_plan(),
    {
        match &self.variants {
            Variants::Empty => DiscrRead::Constant(0),
            Variants::Single { index } => DiscrRead::Constant(
                match self.discriminant_for(*index) {
                    Some(d) => d as u64,
                    None => *index as u64,
                },
            ),
            Variants::Multiple { tag_encoding, .. } => match tag_encoding {
                TagEncoding::Direct => DiscrRead::Tag,
                TagEncoding::Niche {
                    untagged_variant,
                    niche_variants_start,
                    niche_variants_end,
                    niche_start,
                } => DiscrRead::Niche {
                    niche_start: *niche_start,
                    first: *niche_variants_start,
                    relative_max: *niche_variants_end - *niche_variants_start,
                    untagged: *untagged_variant,
                },
            },
        }
    }
}

/// Whether the tree `test` tells whether the tag `tag` of type `tag_tpe`
/// equals the first value of the niche. For a 128-bit tag the test is a
/// call of the comparison helper of the type.
pub open spec fn is_niche_start_test(
    test: TreeView,
    tag: TreeView,
    tag_tpe: Type,
    niche_start: u128,
    s: AssemblyView,
) -> bool {
    match tag_tpe {
        Type::Int(Int::U128) => exists|c: TreeView| #[trigger]
            c.is_const(s, Const::U128(niche_start)) && test.calls_helper(
                s,
                "eq_u128"@,
                seq![tag_tpe, tag_tpe],
                Type::Bool,
                seq![tag, c],
                false,
            ),
        Type::Int(Int::I128) => exists|c: TreeView| #[trigger]
            c.is_const(s, Const::I128(niche_start as i128)) && test.calls_helper(
                s,
                "eq_i128"@,
                seq![tag_tpe, tag_tpe],
                Type::Bool,
                seq![tag, c],
                false,
            ),
        _ => exists|c: TreeView| #[trigger]
            is_const_cast(c, niche_start as u64, tag_tpe, s) && test == TreeView::BinOp(
                Box::new(tag),
                Box::new(c),
                BinOp::Eq,
            ),
    }
}

/// Whether the tree `r` decodes the tag `tag` of type `tag_tpe` of a
/// niche-encoded enum, as a choice between the discriminant of a tagged
/// variant and that of the untagged one. The tag tells a tagged variant if
/// the tag less the first value of the niche is, read as unsigned, not
/// greater than `relative_max`; the discriminant is then that difference
/// more the first tagged variant. Where there is one tagged variant the
/// tag is compared with the first value of the niche instead.
pub open spec fn is_niche_read(
    r: TreeView,
    tag: TreeView,
    tag_tpe: Type,
    niche_start: u128,
    first: u32,
    relative_max: u32,
    untagged: u32,
    s: AssemblyView,
) -> bool {
    exists|tagged: TreeView, fallback: TreeView, test: TreeView|
        {
            &&& #[trigger] r.selects(s, tag_tpe, tagged, fallback, test)
            &&& is_const_cast(fallback, untagged as u64, tag_tpe, s)
            &&& if relative_max == 0 {
                &&& is_const_cast(tagged, first as u64, tag_tpe, s)
                &&& is_niche_start_test(test, tag, tag_tpe, niche_start, s)
            } else {
                exists|base: TreeView, bound: TreeView, no: TreeView|
                    #![trigger is_const_cast(base, niche_start as u64, tag_tpe, s), is_const_cast(bound, relative_max as u64, tag_tpe, s), no.is_const(s, Const::Bool(false))]
                    {
                        let relative = TreeView::BinOp(Box::new(tag), Box::new(base), BinOp::Sub);
                        &&& is_const_cast(base, niche_start as u64, tag_tpe, s)
                        &&& is_const_cast(bound, relative_max as u64, tag_tpe, s)
                        &&& no.is_const(s, Const::Bool(false))
                        &&& test == TreeView::BinOp(
                            Box::new(
                                TreeView::BinOp(Box::new(relative), Box::new(bound), BinOp::GtUn),
                            ),
                            Box::new(no),
                            BinOp::Eq,
                        )
                        &&& if first == 0 {
                            tagged == relative
                        } else {
                            exists|delta: TreeView| #[trigger]
                                is_const_cast(delta, first as u64, tag_tpe, s) && tagged
                                    == TreeView::BinOp(
                                    Box::new(relative),
                                    Box::new(delta),
                                    BinOp::Add,
                                )
                        }
                    }
            }
        }
}

/// What tells the first value of the niche in a store tells it in every
/// store that extends it.
pub proof fn lemma_is_niche_start_test_extends(
    test: TreeView,
    tag: TreeView,
    tag_tpe: Type,
    niche_start: u128,
    s1: AssemblyView,
    s2: AssemblyView,
)
    requires
        s2.extends(s1),
        is_niche_start_test(test, tag, tag_tpe, niche_start, s1),
    ensures
        is_niche_start_test(test, tag, tag_tpe, niche_start, s2),
{
    match tag_tpe {
        Type::Int(Int::U128) => {
            let c = choose|c: TreeView| #[trigger]
                c.is_const(s1, Const::U128(niche_start)) && test.calls_helper(
                    s1,
                    "eq_u128"@,
                    seq![tag_tpe, tag_tpe],
                    Type::Bool,
                    seq![tag, c],
                    false,
                );
            assert(c.is_const(s2, Const::U128(niche_start)));
        },
        Type::Int(Int::I128) => {
            let c = choose|c: TreeView| #[trigger]
                c.is_const(s1, Const::I128(niche_start as i128)) && test.calls_helper(
                    s1,
                    "eq_i128"@,
                    seq![tag_tpe, tag_tpe],
                    Type::Bool,
                    seq![tag, c],
                    false,
                );
            assert(c.is_const(s2, Const::I128(niche_start as i128)));
        },
        _ => {
            let c = choose|c: TreeView| #[trigger]
                is_const_cast(c, niche_start as u64, tag_tpe, s1) && test == TreeView::BinOp(
                    Box::new(tag),
                    Box::new(c),
                    BinOp::Eq,
                );
            lemma_is_const_cast_extends(c, niche_start as u64, tag_tpe, s1, s2);
        },
    }
}

/// The test whether the tag equals the first value of the niche.
fn niche_start_test(tag: V1Node, tag_tpe: Type, niche_start: u128, store: &mut Assembly) -> (r:
    V1Node)
    requires
        old(store).wf(),
        tag_tpe is Int || tag_tpe is Ptr,
        !(tag_tpe matches Type::Int(kind) && kind.is_wide()) ==> niche_start <= u64::MAX,
    ensures
        final(store).wf(),
        final(store)@.extends(old(store)@),
        is_niche_start_test(r@, tag@, tag_tpe, niche_start, final(store)@),
        tag@.lowerable(old(store)@) ==> r@.lowerable(final(store)@),
        final(store).initializers() == old(store).initializers(),
{
    let ghost s0 = store@;
    let ghost tv = tag@;
    proof {
        store.lemma_wf();
    }
    match tag_tpe {
        Type::Int(Int::U128) => {
            let c = V1Node::const_u128(niche_start, store);
            let ghost s1 = store@;
            let ghost cv = c@;
            let mut args: Vec<V1Node> = Vec::new();
            args.push(tag);
            args.push(c);
            let mut inputs: Vec<Type> = Vec::new();
            inputs.push(tag_tpe);
            inputs.push(tag_tpe);
            proof {
                lemma_view_all(args@);
                assert(view_all(args@) =~= seq![tv, cv]);
                assert(inputs@ =~= seq![tag_tpe, tag_tpe]);
                if tv.lowerable(s0) {
                    tv.lemma_stable(s0, s1);
                    assert(lowerable_all(view_all(args@), s1));
                }
            }
            let r = V1Node::call_helper("eq_u128", inputs, Type::Bool, args, false, store);
            proof {
                store@.lemma_extends_transitive(s1, s0);
                assert(cv.is_const(store@, Const::U128(niche_start)));
            }
            r
        },
        Type::Int(Int::I128) => {
            let c = V1Node::const_i128(niche_start, store);
            let ghost s1 = store@;
            let ghost cv = c@;
            let mut args: Vec<V1Node> = Vec::new();
            args.push(tag);
            args.push(c);
            let mut inputs: Vec<Type> = Vec::new();
            inputs.push(tag_tpe);
            inputs.push(tag_tpe);
            proof {
                lemma_view_all(args@);
                assert(view_all(args@) =~= seq![tv, cv]);
                assert(inputs@ =~= seq![tag_tpe, tag_tpe]);
                if tv.lowerable(s0) {
                    tv.lemma_stable(s0, s1);
                    assert(lowerable_all(view_all(args@), s1));
                }
            }
            let r = V1Node::call_helper("eq_i128", inputs, Type::Bool, args, false, store);
            proof {
                store@.lemma_extends_transitive(s1, s0);
                assert(cv.is_const(store@, Const::I128(niche_start as i128)));
            }
            r
        },
        _ => {
            let c = const_cast(niche_start as u64, tag_tpe, store);
            let ghost cv = c@;
            proof {
                if tv.lowerable(s0) {
                    tv.lemma_stable(s0, store@);
                }
            }
            let r = V1Node::binary(BinOp::Eq, tag, c);
            proof {
                assert(is_const_cast(cv, niche_start as u64, tag_tpe, store@));
            }
            r
        },
    }
}

/// The load of the tag of the enum at `enum_addr`.
fn load_tag(
    layout: &Layout,
    enum_addr: V1Node,
    enum_tpe: Interned<ClassRef>,
    store: &mut Assembly,
) -> (r: (V1Node, Type))
    requires
        old(store).wf(),
        layout.variants is Multiple,
        layout.tag_spec()->0.supported(),
    ensures
        final(store).wf(),
        final(store)@.extends(old(store)@),
        layout.has_tag_type(r.1, final(store)@),
        r.0@ matches TreeView::Field { addr, field } && *addr == enum_addr@ && final(store)@.is_tag_field(field, enum_tpe, r.1),
        enum_addr@.lowerable(old(store)@) ==> r.0@.lowerable(final(store)@),
        final(store).initializers() == old(store).initializers(),
{
    let ghost s0 = store@;
    proof {
        store.lemma_wf();
    }
    let primitive = match &layout.variants {
        Variants::Multiple { tag, .. } => *tag,
        _ => Primitive::Pointer,
    };
    let tag_tpe = primitive_to_type(primitive, store);
    let ghost s1 = store@;
    let desc = tag_field(enum_tpe, tag_tpe, store);
    proof {
        store@.lemma_extends_transitive(s1, s0);
        if enum_addr@.lowerable(s0) {
            enum_addr@.lemma_stable(s0, store@);
        }
    }
    (V1Node::load_field(enum_addr, desc), tag_tpe)
}

impl TreeView {
    /// Whether the tree reads the discriminant of the enum at `addr`, of
    /// the class `class`, as the layout has it read: it is a 64-bit
    /// unsigned constant where the discriminant is constant, the load of
    /// the tag field where the tag holds the discriminant, and else the
    /// decoding of the load of the tag field.
    pub open spec fn reads_discr(
        self,
        s: AssemblyView,
        layout: Layout,
        addr: TreeView,
        class: Interned<ClassRef>,
    ) -> bool {
        match layout.read_plan() {
            DiscrRead::Constant(value) => self.is_const(s, Const::U64(value)),
            DiscrRead::Tag => {
                &&& self matches TreeView::Field { addr: target, field }
                &&& *target == addr
                &&& field.index() < s.fields.len()
                &&& layout.has_tag_type(s.fields[field.index()].tpe, s)
                &&& s.is_tag_field(field, class, s.fields[field.index()].tpe)
            },
            DiscrRead::Niche { niche_start, first, relative_max, untagged } => exists|
                field: Interned<FieldDesc>,
            |
                {
                    &&& #[trigger] s.is_tag_field(field, class, s.fields[field.index()].tpe)
                    &&& layout.has_tag_type(s.fields[field.index()].tpe, s)
                    &&& is_niche_read(
                        self,
                        TreeView::Field { addr: Box::new(addr), field },
                        s.fields[field.index()].tpe,
                        niche_start,
                        first,
                        relative_max,
                        untagged,
                        s,
                    )
                },
        }
    }

    /// What reads a discriminant in a store reads it in every store that
    /// extends it.
    pub proof fn lemma_reads_discr_extends(
        self,
        s1: AssemblyView,
        s2: AssemblyView,
        layout: Layout,
        addr: TreeView,
        class: Interned<ClassRef>,
    )
        requires
            s2.extends(s1),
            self.reads_discr(s1, layout, addr, class),
        ensures
            self.reads_discr(s2, layout, addr, class),
    {
        match layout.read_plan() {
            DiscrRead::Niche { niche_start, first, relative_max, untagged } => {
                let field = choose|field: Interned<FieldDesc>|
                    {
                        &&& #[trigger] s1.is_tag_field(field, class, s1.fields[field.index()].tpe)
                        &&& layout.has_tag_type(s1.fields[field.index()].tpe, s1)
                        &&& is_niche_read(
                            self,
                            TreeView::Field { addr: Box::new(addr), field },
                            s1.fields[field.index()].tpe,
                            niche_start,
                            first,
                            relative_max,
                            untagged,
                            s1,
                        )
                    };
                lemma_is_niche_read_extends(
                    self,
                    TreeView::Field { addr: Box::new(addr), field },
                    s1.fields[field.index()].tpe,
                    niche_start,
                    first,
                    relative_max,
                    untagged,
                    s1,
                    s2,
                );
                assert(s2.is_tag_field(field, class, s2.fields[field.index()].tpe));
            },
            _ => {},
        }
    }
}

/// What decodes a niche in a store decodes it in every store that extends
/// it.
pub proof fn lemma_is_niche_read_extends(
    r: TreeView,
    tag: TreeView,
    tag_tpe: Type,
    niche_start: u128,
    first: u32,
    relative_max: u32,
    untagged: u32,
    s1: AssemblyView,
    s2: AssemblyView,
)
    requires
        s2.extends(s1),
        is_niche_read(r, tag, tag_tpe, niche_start, first, relative_max, untagged, s1),
    ensures
        is_niche_read(r, tag, tag_tpe, niche_start, first, relative_max, untagged, s2),
{
    let (tagged, fallback, test) = choose|tagged: TreeView, fallback: TreeView, test: TreeView|
        {
            &&& #[trigger] r.selects(s1, tag_tpe, tagged, fallback, test)
            &&& is_const_cast(fallback, untagged as u64, tag_tpe, s1)
            &&& if relative_max == 0 {
                &&& is_const_cast(tagged, first as u64, tag_tpe, s1)
                &&& is_niche_start_test(test, tag, tag_tpe, niche_start, s1)
            } else {
                exists|base: TreeView, bound: TreeView, no: TreeView|
                    #![trigger is_const_cast(base, niche_start as u64, tag_tpe, s1), is_const_cast(bound, relative_max as u64, tag_tpe, s1), no.is_const(s1, Const::Bool(false))]
                    {
                        let relative = TreeView::BinOp(Box::new(tag), Box::new(base), BinOp::Sub);
                        &&& is_const_cast(base, niche_start as u64, tag_tpe, s1)
                        &&& is_const_cast(bound, relative_max as u64, tag_tpe, s1)
                        &&& no.is_const(s1, Const::Bool(false))
                        &&& test == TreeView::BinOp(
                            Box::new(
                                TreeView::BinOp(Box::new(relative), Box::new(bound), BinOp::GtUn),
                            ),
                            Box::new(no),
                            BinOp::Eq,
                        )
                        &&& if first == 0 {
                            tagged == relative
                        } else {
                            exists|delta: TreeView| #[trigger]
                                is_const_cast(delta, first as u64, tag_tpe, s1) && tagged
                                    == TreeView::BinOp(
                                    Box::new(relative),
                                    Box::new(delta),
                                    BinOp::Add,
                                )
                        }
                    }
            }
        };
    r.lemma_calls_helper_extends_any(s1, s2);
    if r is CastPtr {
        (*r->CastPtr_val).lemma_calls_helper_extends_any(s1, s2);
    }
    assert(r.selects(s2, tag_tpe, tagged, fallback, test));
    lemma_is_const_cast_extends(fallback, untagged as u64, tag_tpe, s1, s2);
    if relative_max == 0 {
        lemma_is_const_cast_extends(tagged, first as u64, tag_tpe, s1, s2);
        lemma_is_niche_start_test_extends(test, tag, tag_tpe, niche_start, s1, s2);
    } else {
        let (base, bound, no) = choose|base: TreeView, bound: TreeView, no: TreeView|
            #![trigger is_const_cast(base, niche_start as u64, tag_tpe, s1), is_const_cast(bound, relative_max as u64, tag_tpe, s1), no.is_const(s1, Const::Bool(false))]
            {
                let relative = TreeView::BinOp(Box::new(tag), Box::new(base), BinOp::Sub);
                &&& is_const_cast(base, niche_start as u64, tag_tpe, s1)
                &&& is_const_cast(bound, relative_max as u64, tag_tpe, s1)
                &&& no.is_const(s1, Const::Bool(false))
                &&& test == TreeView::BinOp(
                    Box::new(TreeView::BinOp(Box::new(relative), Box::new(bound), BinOp::GtUn)),
                    Box::new(no),
                    BinOp::Eq,
                )
                &&& if first == 0 {
                    tagged == relative
                } else {
                    exists|delta: TreeView| #[trigger]
                        is_const_cast(delta, first as u64, tag_tpe, s1) && tagged
                            == TreeView::BinOp(Box::new(relative), Box::new(delta), BinOp::Add)
                }
            };
        lemma_is_const_cast_extends(base, niche_start as u64, tag_tpe, s1, s2);
        lemma_is_const_cast_extends(bound, relative_max as u64, tag_tpe, s1, s2);
        assert(no.is_const(s2, Const::Bool(false)));
        if first != 0 {
            let relative = TreeView::BinOp(Box::new(tag), Box::new(base), BinOp::Sub);
            let delta = choose|delta: TreeView| #[trigger]
                is_const_cast(delta, first as u64, tag_tpe, s1) && tagged == TreeView::BinOp(
                    Box::new(relative),
                    Box::new(delta),
                    BinOp::Add,
                );
            lemma_is_const_cast_extends(delta, first as u64, tag_tpe, s1, s2);
        }
    }
}

/// The discriminant of the enum at `enum_addr`, of the class `enum_tpe`,
/// as a value of the type of the tag.
pub fn get_discr(
    layout: &Layout,
    enum_addr: V1Node,
    enum_tpe: Interned<ClassRef>,
    store: &mut Assembly,
) -> (r: V1Node)
    requires
        old(store).wf(),
        !layout.uninhabited,
        layout.can_get(),
    ensures
        final(store).wf(),
        final(store)@.extends(old(store)@),
        r@.reads_discr(final(store)@, *layout, enum_addr@, enum_tpe),
        enum_addr@.lowerable(old(store)@) ==> r@.lowerable(final(store)@),
        final(store).initializers() == old(store).initializers(),
{
    let ghost s0 = store@;
    let ghost addr = enum_addr@;
    proof {
        s0.lemma_extends_reflexive();
        store.lemma_wf();
    }
    match layout.discr_read() {
        DiscrRead::Constant(value) => V1Node::constant(Const::U64(value), store),
        DiscrRead::Tag => {
            let (tag, _) = load_tag(layout, enum_addr, enum_tpe, store);
            tag
        },
        DiscrRead::Niche { niche_start, first, relative_max, untagged } => {
            let (tag, tag_tpe) = load_tag(layout, enum_addr, enum_tpe, store);
            let ghost s1 = store@;
            let ghost tv = tag@;
            let ghost field = tv->Field_field;
            proof {
                store.lemma_wf();
            }
            if relative_max == 0 {
                let test = niche_start_test(tag, tag_tpe, niche_start, store);
                let ghost s2 = store@;
                let ghost test_v = test@;
                let tagged = const_cast(first as u64, tag_tpe, store);
                let ghost s3 = store@;
                let ghost tagged_v = tagged@;
                let fallback = const_cast(untagged as u64, tag_tpe, store);
                let ghost s4 = store@;
                let ghost fallback_v = fallback@;
                proof {
                    s3.lemma_extends_transitive(s2, s1);
                    s4.lemma_extends_transitive(s3, s1);
                    s4.lemma_extends_transitive(s3, s2);
                    store.lemma_wf();
                    if addr.lowerable(s0) {
                        test_v.lemma_stable(s2, s4);
                        tagged_v.lemma_stable(s3, s4);
                    }
                }
                let r = V1Node::select(tag_tpe, tagged, fallback, test, store);
                proof {
                    let s5 = store@;
                    s5.lemma_extends_transitive(s4, s1);
                    s5.lemma_extends_transitive(s4, s2);
                    s5.lemma_extends_transitive(s4, s3);
                    s5.lemma_extends_transitive(s1, s0);
                    lemma_is_const_cast_extends(fallback_v, untagged as u64, tag_tpe, s4, s5);
                    lemma_is_const_cast_extends(tagged_v, first as u64, tag_tpe, s3, s5);
                    lemma_is_niche_start_test_extends(test_v, tv, tag_tpe, niche_start, s2, s5);
                    assert(r@.selects(s5, tag_tpe, tagged_v, fallback_v, test_v));
                    assert(is_niche_read(
                        r@,
                        tv,
                        tag_tpe,
                        niche_start,
                        first,
                        relative_max,
                        untagged,
                        s5,
                    ));
                    assert(s5.is_tag_field(field, enum_tpe, tag_tpe));
                    assert(tv == (TreeView::Field { addr: Box::new(addr), field }));
                }
                r
            } else {
                let base = const_cast(niche_start as u64, tag_tpe, store);
                let ghost s2 = store@;
                let ghost base_v = base@;
                let relative = V1Node::binary(BinOp::Sub, tag, base);
                let ghost relative_v = relative@;
                let bound = const_cast(relative_max as u64, tag_tpe, store);
                let ghost s3 = store@;
                let ghost bound_v = bound@;
                let gt = V1Node::binary(BinOp::GtUn, relative.duplicate(), bound);
                let ghost gt_v = gt@;
                let no = V1Node::constant(Const::Bool(false), store);
                let ghost s4 = store@;
                let ghost no_v = no@;
                let test = V1Node::binary(BinOp::Eq, gt, no);
                let ghost test_v = test@;
                proof {
                    s3.lemma_extends_transitive(s2, s1);
                    s4.lemma_extends_transitive(s3, s1);
                    s4.lemma_extends_transitive(s3, s2);
                    store.lemma_wf();
                }
                let ghost delta_v: TreeView;
                let tagged = if first == 0 {
                    proof {
                        delta_v = no_v;
                        s4.lemma_extends_reflexive();
                    }
                    relative
                } else {
                    let delta = const_cast(first as u64, tag_tpe, store);
                    proof {
                        delta_v = delta@;
                    }
                    V1Node::binary(BinOp::Add, relative, delta)
                };
                let ghost s5 = store@;
                let ghost tagged_v = tagged@;
                let fallback = const_cast(untagged as u64, tag_tpe, store);
                let ghost s6 = store@;
                let ghost fallback_v = fallback@;
                proof {
                    s5.lemma_extends_transitive(s4, s1);
                    s5.lemma_extends_transitive(s4, s2);
                    s5.lemma_extends_transitive(s4, s3);
                    s6.lemma_extends_transitive(s5, s1);
                    s6.lemma_extends_transitive(s5, s2);
                    s6.lemma_extends_transitive(s5, s3);
                    s6.lemma_extends_transitive(s5, s4);
                    store.lemma_wf();
                    if addr.lowerable(s0) {
                        tv.lemma_stable(s1, s6);
                        base_v.lemma_stable(s2, s6);
                        bound_v.lemma_stable(s3, s6);
                        no_v.lemma_stable(s4, s6);
                        if first != 0 {
                            delta_v.lemma_stable(s5, s6);
                        }
                        assert(relative_v.lowerable(s6));
                        assert(gt_v.lowerable(s6));
                        assert(test_v.lowerable(s6));
                        assert(tagged_v.lowerable(s6));
                    }
                }
                let r = V1Node::select(tag_tpe, tagged, fallback, test, store);
                proof {
                    let s7 = store@;
                    s7.lemma_extends_transitive(s6, s1);
                    s7.lemma_extends_transitive(s6, s2);
                    s7.lemma_extends_transitive(s6, s3);
                    s7.lemma_extends_transitive(s6, s4);
                    s7.lemma_extends_transitive(s6, s5);
                    s7.lemma_extends_transitive(s1, s0);
                    lemma_is_const_cast_extends(fallback_v, untagged as u64, tag_tpe, s6, s7);
                    lemma_is_const_cast_extends(base_v, niche_start as u64, tag_tpe, s2, s7);
                    lemma_is_const_cast_extends(bound_v, relative_max as u64, tag_tpe, s3, s7);
                    assert(no_v.is_const(s7, Const::Bool(false)));
                    if first != 0 {
                        lemma_is_const_cast_extends(delta_v, first as u64, tag_tpe, s5, s7);
                    }
                    assert(r@.selects(s7, tag_tpe, tagged_v, fallback_v, test_v));
                    assert(is_niche_read(
                        r@,
                        tv,
                        tag_tpe,
                        niche_start,
                        first,
                        relative_max,
                        untagged,
                        s7,
                    ));
                    assert(s7.is_tag_field(field, enum_tpe, tag_tpe));
                    assert(tv == (TreeView::Field { addr: Box::new(addr), field }));
                }
                r
            }
        },
    }
}

/// The number of values of a tag that is `bits` bits wide.
pub open spec fn modulus_spec(bits: nat) -> int {
    if bits == 8 {
        0x100
    } else if bits == 16 {
        0x1_0000
    } else if bits == 32 {
        0x1_0000_0000
    } else if bits == 64 {
        0x1_0000_0000_0000_0000
    } else {
        0x1_0000_0000_0000_0000_0000_0000_0000_0000int
    }
}

impl DiscrWrite {
    /// The value of a tag of the given width after the write, where the
    /// tag held `before`. A stored value is cut to the width of the tag.
    pub open spec fn tag_after(self, before: int, bits: nat) -> int {
        match self {
            DiscrWrite::Store(value) => (value as int) % modulus_spec(bits),
            _ => before,
        }
    }

    /// The value of a tag of the given width after the write, for a tag of
    /// at most 64 bits.
    pub fn apply(&self, before: u64, bits: u32) -> (r: u64)
        requires
            bits == 8 || bits == 16 || bits == 32 || bits == 64,
        ensures
            r == self.tag_after(before as int, bits as nat),
    {
        match self {
            DiscrWrite::Store(value) => {
                if bits == 8 {
                    *value % 0x100
                } else if bits == 16 {
                    *value % 0x1_0000
                } else if bits == 32 {
                    *value % 0x1_0000_0000
                } else {
                    proof {
                        vstd::arithmetic::div_mod::lemma_small_mod(
                            *value as nat,
                            0x1_0000_0000_0000_0000,
                        );
                    }
                    *value
                }
            },
            _ => before,
        }
    }
}

impl DiscrRead {
    /// The discriminant that the read yields for a tag of the given width
    /// that holds `tag`. For a niche-encoded enum the tag less the first
    /// value of the niche, taken at the width of the tag, tells a tagged
    /// variant if it is at most `relative_max`.
    pub open spec fn decoded(self, tag: int, bits: nat) -> int {
        let m = modulus_spec(bits);
        match self {
            DiscrRead::Constant(value) => value as int,
            DiscrRead::Tag => tag,
            DiscrRead::Niche { niche_start, first, relative_max, untagged } => {
                let relative = (tag - niche_start) % m;
                if relative <= relative_max {
                    (relative + first) % m
                } else {
                    (untagged as int) % m
                }
            },
        }
    }

    /// The discriminant that the read yields for a tag of at most 64 bits
    /// that holds `tag`.
    pub fn decode(&self, tag: u64, bits: u32) -> (r: u64)
        requires
            bits == 8 || bits == 16 || bits == 32 || bits == 64,
            tag < modulus_spec(bits as nat),
        ensures
            r == self.decoded(tag as int, bits as nat),
    {
        match self {
            DiscrRead::Constant(value) => *value,
            DiscrRead::Tag => tag,
            DiscrRead::Niche { niche_start, first, relative_max, untagged } => {
                let m: u128 = if bits == 8 {
                    0x100
                } else if bits == 16 {
                    0x1_0000
                } else if bits == 32 {
                    0x1_0000_0000
                } else {
                    0x1_0000_0000_0000_0000
                };
                let start = *niche_start % m;
                let relative = (tag as u128 + m - start) % m;
                proof {
                    vstd::arithmetic::div_mod::lemma_sub_mod_noop_right(
                        tag as int,
                        *niche_start as int,
                        m as int,
                    );
                    vstd::arithmetic::div_mod::lemma_mod_multiples_vanish(
                        1,
                        tag as int - start as int,
                        m as int,
                    );
                    assert(relative == (tag - *niche_start) % (m as int));
                }
                if relative <= *relative_max as u128 {
                    ((relative + *first as u128) % m) as u64
                } else {
                    (*untagged as u128 % m) as u64
                }
            },
        }
    }
}

impl Layout {
    /// Writing the discriminant of a tagged variant of a niche-encoded
    /// enum and reading the discriminant back yields the variant. The tag
    /// has to be wide enough for the numbers of the tagged variants.
    pub proof fn lemma_niche_round_trip(self, variant: u32, before: int)
        requires
            self.variants matches Variants::Multiple {
                tag,
                tag_encoding: TagEncoding::Niche {
                    untagged_variant,
                    niche_variants_start,
                    niche_variants_end,
                    ..
                },
                ..
            } && niche_variants_start <= variant <= niche_variants_end && variant
                != untagged_variant && niche_variants_end < modulus_spec(tag.bits_spec()),
            self.can_set(variant),
            !self.variant_uninhabited(variant),
        ensures
            self.write_plan(variant) is Store,
            self.read_plan().decoded(
                self.write_plan(variant).tag_after(before, self.tag_spec()->0.bits_spec()),
                self.tag_spec()->0.bits_spec(),
            ) == variant,
    {
        let bits = self.tag_spec()->0.bits_spec();
        let m = modulus_spec(bits);
        let w = 0x1_0000_0000_0000_0000_0000_0000_0000_0000int;
        let niche_start = self.variants->tag_encoding->niche_start;
        let first = self.variants->tag_encoding->niche_variants_start;
        let d = variant - first;
        let stored = Self::niche_tag_spec(niche_start, first, variant);
        lemma_wrap(niche_start + d, w);
        let k: int = if niche_start + d < w {
            0
        } else {
            1
        };
        assert(stored == niche_start + d - k * w);
        let tag = stored % m;
        let factor: int = if bits == 8 {
            0x100_0000_0000_0000_0000_0000_0000_0000int
        } else if bits == 16 {
            0x1_0000_0000_0000_0000_0000_0000_0000int
        } else if bits == 32 {
            0x1_0000_0000_0000_0000_0000_0000int
        } else if bits == 64 {
            0x1_0000_0000_0000_0000int
        } else {
            1
        };
        assert(w == m * factor);
        vstd::arithmetic::div_mod::lemma_sub_mod_noop(stored, niche_start as int, m);
        vstd::arithmetic::div_mod::lemma_sub_mod_noop_right(tag, niche_start as int, m);
        assert((tag - niche_start) % m == (stored - niche_start) % m);
        assert(stored - niche_start == m * (-(k * factor)) + d) by (nonlinear_arith)
            requires
                stored == niche_start + d - k * w,
                w == m * factor,
        ;
        vstd::arithmetic::div_mod::lemma_mod_multiples_vanish(-(k * factor), d, m);
        vstd::arithmetic::div_mod::lemma_small_mod(d as nat, m as nat);
        vstd::arithmetic::div_mod::lemma_small_mod(variant as nat, m as nat);
    }

    /// A tag outside the niche tells the untagged variant, and writing the
    /// discriminant of the untagged variant leaves the tag as it is.
    pub proof fn lemma_niche_untagged(self, tag: int)
        requires
            self.variants matches Variants::Multiple {
                variants,
                tag_encoding: TagEncoding::Niche { untagged_variant, .. },
                ..
            } && untagged_variant < variants@.len() && !variants@[untagged_variant as int].uninhabited,
            self.read_plan() matches DiscrRead::Niche { niche_start, relative_max, .. } && (tag
                - niche_start) % modulus_spec(self.tag_spec()->0.bits_spec()) > relative_max,
        ensures
            self.read_plan() matches DiscrRead::Niche { untagged, .. } && {
                &&& self.write_plan(untagged) == DiscrWrite::Nop
                &&& self.write_plan(untagged).tag_after(tag, self.tag_spec()->0.bits_spec()) == tag
                &&& self.read_plan().decoded(tag, self.tag_spec()->0.bits_spec()) == (untagged as int)
                    % modulus_spec(self.tag_spec()->0.bits_spec())
            },
    {
    }

    /// Writing the discriminant of a type with one variant writes nothing
    /// if the type has a value, and traps if it has none.
    pub proof fn lemma_single_variant(self, variant: u32)
        requires
            self.variants is Single,
        ensures
            !self.uninhabited ==> self.write_plan(variant) == DiscrWrite::Nop,
            self.uninhabited ==> self.write_plan(variant) == DiscrWrite::Trap,
    {
    }
}

} // verus!
