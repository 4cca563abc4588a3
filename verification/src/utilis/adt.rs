use crate::assembly::Assembly;
use crate::expr::AssemblyView;
use crate::tpe::{Float, Int, Type};
use vstd::prelude::*;

verus! {

/// How the fields of a type lie in memory.
#[derive(Debug, PartialEq, Eq)]
pub enum FieldsShape {
    /// A scalar: no fields.
    Primitive,
    /// A union of the given number of fields, all at offset 0.
    Union(u64),
    /// An array of `count` elements, `stride` bytes apart.
    Array { stride: u64, count: u64 },
    /// Fields at the given offsets in bytes. `memory_index` has one entry
    /// for each field.
    Arbitrary { offsets: Vec<u64>, memory_index: Vec<u32> },
}

impl FieldsShape {
    /// The offset that is reported for a field at `offset` bytes: the
    /// offset itself, or 0 if it is greater than 65535.
    pub open spec fn reported(offset: u64) -> u32 {
        if offset > 0xffff {
            0
        } else {
            offset as u32
        }
    }

    /// The offsets of the fields, in the order of the fields.
    pub open spec fn offsets_spec(self) -> Seq<u32> {
        match self {
            FieldsShape::Primitive => Seq::empty(),
            FieldsShape::Union(count) => Seq::new(count as nat, |i: int| 0u32),
            FieldsShape::Array { stride, count } => Seq::new(
                count as nat,
                |i: int| (i * stride) as u32,
            ),
            FieldsShape::Arbitrary { offsets, memory_index } => Seq::new(
                memory_index@.len(),
                |i: int| Self::reported(offsets@[i]),
            ),
        }
    }

    /// Whether the offsets of the fields can be listed: every offset fits
    /// in 32 bits, and every field has an offset.
    pub open spec fn readable(self) -> bool {
        match self {
            FieldsShape::Array { stride, count } => count * stride <= u32::MAX && stride
                <= u32::MAX,
            FieldsShape::Arbitrary { offsets, memory_index } => {
                &&& memory_index@.len() <= offsets@.len()
                &&& forall|i: int| 0 <= i < memory_index@.len() ==> #[trigger] offsets@[i] <= u32::MAX
            },
            _ => true,
        }
    }

    /// Whether the offsets of the fields can be listed.
    #[verifier::loop_isolation(false)]
    pub fn is_readable(&self) -> (r: bool)
        ensures
            r == self.readable(),
    {
        match self {
            FieldsShape::Array { stride, count } => {
                if *stride > 0xffff_ffff {
                    return false;
                }
                assert(*count * *stride <= 0xffff_ffff_ffff_ffff * 0xffff_ffff) by (nonlinear_arith)
                    requires
                        *count <= 0xffff_ffff_ffff_ffff,
                        *stride <= 0xffff_ffff,
                ;
                let total: u128 = (*count as u128) * (*stride as u128);
                total <= 0xffff_ffff
            },
            FieldsShape::Arbitrary { offsets, memory_index } => {
                if memory_index.len() > offsets.len() {
                    return false;
                }
                let mut i: usize = 0;
                while i < memory_index.len()
                    invariant
                        i <= memory_index@.len(),
                        memory_index@.len() <= offsets@.len(),
                        forall|j: int| 0 <= j < i ==> #[trigger] offsets@[j] <= u32::MAX,
                    decreases memory_index@.len() - i,
                {
                    if offsets[i] > 0xffff_ffff {
                        assert(!(offsets@[i as int] <= u32::MAX));
                        return false;
                    }
                    i += 1;
                }
                true
            },
            _ => true,
        }
    }
}

/// Walks over the offsets of the fields of a type.
#[derive(Debug)]
pub enum FieldOffsetIterator {
    Explicit { offsets: Vec<u32>, index: usize },
    NoOffset { count: u64 },
    Empty,
}

impl FieldOffsetIterator {
    /// The offsets that the iterator has yet to yield.
    pub open spec fn remaining(self) -> Seq<u32> {
        match self {
            FieldOffsetIterator::Explicit { offsets, index } => if index <= offsets@.len() {
                offsets@.skip(index as int)
            } else {
                Seq::empty()
            },
            FieldOffsetIterator::NoOffset { count } => Seq::new(count as nat, |i: int| 0u32),
            FieldOffsetIterator::Empty => Seq::empty(),
        }
    }

    /// The next offset, if there is one.
    pub fn next(&mut self) -> (r: Option<u32>)
        ensures
            old(self).remaining().len() > 0 ==> r == Some(old(self).remaining()[0]) && final(self).remaining() == old(self).remaining().skip(1),
            old(self).remaining().len() == 0 ==> r is None && final(self).remaining() == Seq::<u32>::empty(),
    {
        match self {
            FieldOffsetIterator::Explicit { offsets, index } => {
                if *index < offsets.len() {
                    let r = offsets[*index];
                    let ghost before = offsets@.skip(*index as int);
                    *index = *index + 1;
                    proof {
                        assert(offsets@.skip(*index as int) =~= before.skip(1));
                    }
                    Some(r)
                } else {
                    proof {
                        if *index == offsets@.len() {
                            assert(offsets@.skip(*index as int) =~= Seq::<u32>::empty());
                        }
                    }
                    None
                }
            },
            FieldOffsetIterator::NoOffset { count } => {
                if *count > 0 {
                    let ghost before = Seq::new(*count as nat, |i: int| 0u32);
                    *count = *count - 1;
                    proof {
                        assert(Seq::new(*count as nat, |i: int| 0u32) =~= before.skip(1));
                    }
                    Some(0)
                } else {
                    proof {
                        assert(Seq::new(0nat, |i: int| 0u32) =~= Seq::<u32>::empty());
                    }
                    None
                }
            },
            FieldOffsetIterator::Empty => None,
        }
    }

    /// The offset that comes after `n` further offsets, if there is one.
    /// The iterator moves past it.
    pub fn nth(&mut self, n: usize) -> (r: Option<u32>)
        ensures
            n < old(self).remaining().len() ==> r == Some(old(self).remaining()[n as int])
                && final(self).remaining() == old(self).remaining().skip(n + 1),
            n >= old(self).remaining().len() ==> r is None && final(self).remaining() == Seq::<u32>::empty(),
    {
        let ghost start = self.remaining();
        let mut i: usize = 0;
        while i < n
            invariant
                i <= n,
                i <= start.len() ==> self.remaining() == start.skip(i as int),
                i > start.len() ==> self.remaining() == Seq::<u32>::empty(),
            decreases n - i,
        {
            let ghost before = self.remaining();
            let skipped = self.next();
            proof {
                if i < start.len() {
                    assert(start.skip(i as int).skip(1) =~= start.skip(i + 1));
                } else if i == start.len() {
                    assert(before.len() == 0);
                }
            }
            i += 1;
        }
        let ghost before = self.remaining();
        let r = self.next();
        proof {
            if n < start.len() {
                assert(start.skip(n as int).skip(1) =~= start.skip(n + 1));
            }
        }
        r
    }

    /// The iterator over the offsets of the fields of a type.
    pub fn from_fields_shape(fields: &FieldsShape) -> (r: Self)
        requires
            fields.readable(),
        ensures
            r.remaining() == fields.offsets_spec(),
    {
        match fields {
            FieldsShape::Arbitrary { offsets, memory_index } => {
                let mut out: Vec<u32> = Vec::new();
                let mut i: usize = 0;
                while i < memory_index.len()
                    invariant
                        i <= memory_index@.len(),
                        memory_index@.len() <= offsets@.len(),
                        forall|j: int|
                            0 <= j < memory_index@.len() ==> #[trigger] offsets@[j] <= u32::MAX,
                        out@.len() == i,
                        forall|j: int| 0 <= j < i ==> out@[j] == FieldsShape::reported(offsets@[j]),
                    decreases memory_index@.len() - i,
                {
                    let offset = offsets[i] as u32;
                    out.push(
                        if offset > 0xffff {
                            0
                        } else {
                            offset
                        },
                    );
                    i += 1;
                }
                let r = FieldOffsetIterator::Explicit { offsets: out, index: 0 };
                proof {
                    assert(r.remaining() =~= fields.offsets_spec());
                }
                r
            },
            FieldsShape::Union(count) => FieldOffsetIterator::NoOffset { count: *count },
            FieldsShape::Primitive => {
                proof {
                    assert(FieldOffsetIterator::Empty.remaining() =~= fields.offsets_spec());
                }
                FieldOffsetIterator::Empty
            },
            FieldsShape::Array { stride, count } => {
                let mut curr: u32 = 0;
                let mut out: Vec<u32> = Vec::new();
                let mut i: u64 = 0;
                while i < *count
                    invariant
                        i <= *count,
                        *count * *stride <= u32::MAX,
                        *stride <= u32::MAX,
                        curr == i * *stride,
                        out@.len() == i,
                        forall|j: int| 0 <= j < i ==> out@[j] == (j * *stride) as u32,
                    decreases *count - i,
                {
                    out.push(curr);
                    proof {
                        assert((i + 1) * *stride == i * *stride + *stride) by (nonlinear_arith);
                        assert((i + 1) * *stride <= *count * *stride) by (nonlinear_arith)
                            requires
                                i + 1 <= *count,
                                0 <= *stride,
                        ;
                    }
                    curr = curr + *stride as u32;
                    i += 1;
                }
                let r = FieldOffsetIterator::Explicit { offsets: out, index: 0 };
                proof {
                    assert(r.remaining() =~= fields.offsets_spec());
                }
                r
            },
        }
    }
}

/// The width of an integer.
#[derive(Debug, Clone, Copy, PartialEq, Eq, Hash, Structural)]
pub enum Integer {
    I8,
    I16,
    I32,
    I64,
    I128,
}

/// A scalar as a layout describes it: an integer of a width with or
/// without a sign, a floating-point number, or a pointer.
#[derive(Debug, Clone, Copy, PartialEq, Eq, Hash, Structural)]
pub enum Primitive {
    Int(Integer, bool),
    Float(Float),
    Pointer,
}

impl Primitive {
    /// The integer type of the target that stands for an integer of a
    /// width and a signedness.
    pub open spec fn int_spec(width: Integer, signed: bool) -> Int {
        match (width, signed) {
            (Integer::I8, true) => Int::I8,
            (Integer::I16, true) => Int::I16,
            (Integer::I32, true) => Int::I32,
            (Integer::I64, true) => Int::I64,
            (Integer::I128, true) => Int::I128,
            (Integer::I8, false) => Int::U8,
            (Integer::I16, false) => Int::U16,
            (Integer::I32, false) => Int::U32,
            (Integer::I64, false) => Int::U64,
            (Integer::I128, false) => Int::U128,
        }
    }

    /// Whether the scalar has a type of the target: every scalar but the
    /// 128-bit floating-point number has.
    pub open spec fn supported(self) -> bool {
        self != Primitive::Float(Float::F128)
    }

    /// Whether `tpe` is the type of the target that stands for the scalar
    /// in the store `s`: the integer or floating-point type of its width,
    /// or the pointer to the empty type.
    pub open spec fn has_type(self, tpe: Type, s: AssemblyView) -> bool {
        match self {
            Primitive::Int(width, signed) => tpe == Type::Int(Self::int_spec(width, signed)),
            Primitive::Float(f) => tpe == Type::Float(f),
            Primitive::Pointer => tpe matches Type::Ptr(inner) && inner.index() < s.types.len()
                && s.types[inner.index()] == Type::Void,
        }
    }

    /// The number of bits of the scalar, a pointer counting as 64 bits
    /// wide.
    pub open spec fn bits_spec(self) -> nat {
        match self {
            Primitive::Int(Integer::I8, _) => 8,
            Primitive::Int(Integer::I16, _) => 16,
            Primitive::Int(Integer::I32, _) => 32,
            Primitive::Int(Integer::I64, _) => 64,
            Primitive::Int(Integer::I128, _) => 128,
            Primitive::Float(Float::F16) => 16,
            Primitive::Float(Float::F32) => 32,
            Primitive::Float(Float::F64) => 64,
            Primitive::Float(Float::F128) => 128,
            Primitive::Pointer => 64,
        }
    }

    pub fn bits(&self) -> (r: u32)
        ensures
            r == self.bits_spec(),
    {
        match self {
            Primitive::Int(Integer::I8, _) => 8,
            Primitive::Int(Integer::I16, _) => 16,
            Primitive::Int(Integer::I32, _) => 32,
            Primitive::Int(Integer::I64, _) => 64,
            Primitive::Int(Integer::I128, _) => 128,
            Primitive::Float(Float::F16) => 16,
            Primitive::Float(Float::F32) => 32,
            Primitive::Float(Float::F64) => 64,
            Primitive::Float(Float::F128) => 128,
            Primitive::Pointer => 64,
        }
    }
}

/// The type of the target that stands for a scalar.
pub fn primitive_to_type(primitive: Primitive, store: &mut Assembly) -> (r: Type)
    requires
        old(store).wf(),
        primitive.supported(),
    ensures
        final(store).wf(),
        final(store)@.extends(old(store)@),
        primitive.has_type(r, final(store)@),
        !(primitive is Pointer) ==> final(store)@ == old(store)@,
        final(store).initializers() == old(store).initializers(),
{
    proof {
        store@.lemma_extends_reflexive();
    }
    match primitive {
        Primitive::Int(width, signed) => match (width, signed) {
            (Integer::I8, true) => Type::Int(Int::I8),
            (Integer::I16, true) => Type::Int(Int::I16),
            (Integer::I32, true) => Type::Int(Int::I32),
            (Integer::I64, true) => Type::Int(Int::I64),
            (Integer::I128, true) => Type::Int(Int::I128),
            (Integer::I8, false) => Type::Int(Int::U8),
            (Integer::I16, false) => Type::Int(Int::U16),
            (Integer::I32, false) => Type::Int(Int::U32),
            (Integer::I64, false) => Type::Int(Int::U64),
            (Integer::I128, false) => Type::Int(Int::U128),
        },
        Primitive::Float(f) => Type::Float(f),
        Primitive::Pointer => store.nptr(Type::Void),
    }
}

/// How the tag of an enum tells the variants apart.
#[derive(Debug, Clone, Copy, PartialEq, Eq, Hash, Structural)]
pub enum TagEncoding {
    /// The tag holds the discriminant of the variant.
    Direct,
    /// One variant, the untagged one, is told by the tag lying outside a
    /// range of values. The variants `niche_variants_start` to
    /// `niche_variants_end` are told by the values from `niche_start` on,
    /// one for each, in order.
    Niche {
        untagged_variant: u32,
        niche_variants_start: u32,
        niche_variants_end: u32,
        niche_start: u128,
    },
}

/// The variants of a type.
#[derive(Debug, PartialEq, Eq)]
pub enum Variants {
    /// A type without variants.
    Empty,
    /// A type with one variant, which needs no tag.
    Single { index: u32 },
    /// An enum whose tag, the field `tag_field`, tells the variants apart.
    Multiple { tag: Primitive, tag_encoding: TagEncoding, tag_field: usize, variants: Vec<Layout> },
}

/// What the layout of a type says of its fields and variants, with the
/// discriminants of the variants where the type is an enum.
#[derive(Debug, PartialEq, Eq)]
pub struct Layout {
    pub fields: FieldsShape,
    pub variants: Variants,
    /// Whether the type has no value.
    pub uninhabited: bool,
    /// The discriminant of each variant, by the number of the variant.
    pub discriminants: Vec<u128>,
}

impl Layout {
    /// The discriminant of a variant, if the layout gives one.
    pub open spec fn discriminant_spec(self, variant: u32) -> Option<u128> {
        if variant < self.discriminants@.len() {
            Some(self.discriminants@[variant as int])
        } else {
            None
        }
    }

    pub fn discriminant_for(&self, variant: u32) -> (r: Option<u128>)
        ensures
            r == self.discriminant_spec(variant),
    {
        if (variant as usize) < self.discriminants.len() {
            Some(self.discriminants[variant as usize])
        } else {
            None
        }
    }

    /// The scalar that holds the tag, if the layout has a tag.
    pub open spec fn tag_spec(self) -> Option<Primitive> {
        match self.variants {
            Variants::Multiple { tag, .. } => Some(tag),
            _ => None,
        }
    }

    /// The offset of the tag: of the tag field of an enum, of the first
    /// field of a type with one variant; 0 where there is no such field.
    pub open spec fn tag_offset_spec(self) -> u32 {
        let offsets = self.fields.offsets_spec();
        match self.variants {
            Variants::Single { .. } => if offsets.len() > 0 {
                offsets[0]
            } else {
                0
            },
            Variants::Multiple { tag_field, .. } => if tag_field < offsets.len() {
                offsets[tag_field as int]
            } else {
                0
            },
            Variants::Empty => 0,
        }
    }

    /// Whether `tpe` is the type of the tag in the store `s`: the type of
    /// the scalar that holds the tag, or the empty type where there is no
    /// tag.
    pub open spec fn has_tag_type(self, tpe: Type, s: AssemblyView) -> bool {
        match self.tag_spec() {
            Some(tag) => tag.has_type(tpe, s),
            None => tpe == Type::Void,
        }
    }
}

/// The type of the tag of an enum and the offset of the tag.
pub fn enum_tag_info(layout: &Layout, store: &mut Assembly) -> (r: (Type, u32))
    requires
        old(store).wf(),
        layout.fields.readable(),
        layout.tag_spec() matches Some(tag) ==> tag.supported(),
    ensures
        final(store).wf(),
        final(store)@.extends(old(store)@),
        layout.has_tag_type(r.0, final(store)@),
        r.1 == layout.tag_offset_spec(),
        final(store).initializers() == old(store).initializers(),
{
    proof {
        store@.lemma_extends_reflexive();
    }
    match &layout.variants {
        Variants::Single { .. } => {
            let mut offsets = FieldOffsetIterator::from_fields_shape(&layout.fields);
            let offset = match offsets.next() {
                Some(offset) => offset,
                None => 0,
            };
            (Type::Void, offset)
        },
        Variants::Multiple { tag, tag_field, .. } => {
            let tpe = primitive_to_type(*tag, store);
            let mut offsets = FieldOffsetIterator::from_fields_shape(&layout.fields);
            let offset = match offsets.nth(*tag_field) {
                Some(offset) => offset,
                None => 0,
            };
            (tpe, offset)
        },
        Variants::Empty => (Type::Void, 0),
    }
}

/// The layout of a variant: of the type itself where it has one variant.
pub fn get_variant_at_index(variant_index: u32, layout: &Layout) -> (r: &Layout)
    requires
        !(layout.variants is Empty),
        layout.variants matches Variants::Multiple { variants, .. } ==> variant_index < variants@.len(),
    ensures
        layout.variants is Single ==> r == layout,
        layout.variants matches Variants::Multiple { variants, .. } ==> *r == variants@[variant_index as int],
{
    match &layout.variants {
        Variants::Multiple { variants, .. } => &variants[variant_index as usize],
        _ => layout,
    }
}

} // verus!
