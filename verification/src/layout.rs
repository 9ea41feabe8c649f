//! Vertex layout descriptor.
//!
//! A vertex record is a run of fields, each made of one to four 32-bit
//! components and packed without padding. The descriptor says, for every field
//! in declaration order, which attribute slot it feeds, which component format
//! it has and at which byte offset it starts, plus the stride of the whole
//! record. It is derived from the table of component counts alone, so the
//! record's memory layout and the offsets handed to the pipeline cannot drift
//! apart.

use vstd::prelude::*;

verus! {

/// Bytes taken by one component.
pub const COMPONENT_BYTES: u32 = 4;

/// Component format of one attribute: one to four 32-bit floats.
#[derive(Clone, Copy, Debug, PartialEq, Eq, Structural)]
pub enum VertexFormat {
    Float,
    Float2,
    Float3,
    Float4,
}

impl VertexFormat {
    /// Number of components of the format.
    pub open spec fn component_count(self) -> nat {
        match self {
            VertexFormat::Float => 1,
            VertexFormat::Float2 => 2,
            VertexFormat::Float3 => 3,
            VertexFormat::Float4 => 4,
        }
    }

    /// Bytes one attribute of the format takes.
    pub open spec fn byte_size(self) -> nat {
        4 * self.component_count()
    }

    /// The format with `n` components, if there is one.
    pub open spec fn of_components(n: nat) -> Option<VertexFormat> {
        if n == 1 {
            Some(VertexFormat::Float)
        } else if n == 2 {
            Some(VertexFormat::Float2)
        } else if n == 3 {
            Some(VertexFormat::Float3)
        } else if n == 4 {
            Some(VertexFormat::Float4)
        } else {
            None
        }
    }

    pub fn components(self) -> (n: u32)
        ensures
            n == self.component_count(),
    {
        match self {
            VertexFormat::Float => 1,
            VertexFormat::Float2 => 2,
            VertexFormat::Float3 => 3,
            VertexFormat::Float4 => 4,
        }
    }

    pub fn size(self) -> (n: u32)
        ensures
            n == self.byte_size(),
    {
        COMPONENT_BYTES * self.components()
    }

    pub fn with_components(n: u32) -> (r: Option<VertexFormat>)
        ensures
            r == Self::of_components(n as nat),
    {
        if n == 1 {
            Some(VertexFormat::Float)
        } else if n == 2 {
            Some(VertexFormat::Float2)
        } else if n == 3 {
            Some(VertexFormat::Float3)
        } else if n == 4 {
            Some(VertexFormat::Float4)
        } else {
            None
        }
    }
}

/// One attribute of a vertex record as the pipeline consumes it.
#[derive(Clone, Copy, Debug, PartialEq, Eq, Structural)]
pub struct VertexAttribute {
    /// Attribute slot the shader reads the field from.
    pub slot: u32,
    /// Component format of the field.
    pub format: VertexFormat,
    /// Byte offset of the field inside the record.
    pub offset: u32,
}

/// Mathematical content of a [`VertexLayout`].
pub struct LayoutView {
    pub stride: u32,
    pub attributes: Seq<VertexAttribute>,
}

/// Bytes taken by the first `k` fields of a table of component counts.
pub open spec fn bytes_before(counts: Seq<u32>, k: int) -> int
    decreases k,
{
    if k <= 0 {
        0
    } else {
        bytes_before(counts, k - 1) + 4 * counts[k - 1]
    }
}

/// A table of component counts has a layout when every field has one to four
/// components and the whole record can be addressed with 32-bit offsets.
pub open spec fn derivable(counts: Seq<u32>) -> bool {
    &&& forall|i: int| 0 <= i < counts.len() ==> 1 <= #[trigger] counts[i] <= 4
    &&& bytes_before(counts, counts.len() as int) <= u32::MAX
}

/// The attribute of field `k`: slot `k`, the format with that many components,
/// at the cumulative size of the fields before it.
pub open spec fn attribute_of(counts: Seq<u32>, k: int) -> VertexAttribute {
    VertexAttribute {
        slot: k as u32,
        format: VertexFormat::of_components(counts[k] as nat).unwrap(),
        offset: bytes_before(counts, k) as u32,
    }
}

/// The layout of a table of component counts.
pub open spec fn layout_of(counts: Seq<u32>) -> LayoutView {
    LayoutView {
        stride: bytes_before(counts, counts.len() as int) as u32,
        attributes: Seq::new(counts.len(), |k: int| attribute_of(counts, k)),
    }
}

impl LayoutView {
    /// Slots count up from 0, every attribute starts where the one before it
    /// ends, and the stride is where the last one ends.
    pub open spec fn packed(self) -> bool {
        &&& forall|k: int|
            0 <= k < self.attributes.len() ==> (#[trigger] self.attributes[k]).slot == k
        &&& forall|k: int|
            0 <= k < self.attributes.len() ==> (#[trigger] self.attributes[k]).offset
                == self.end_of(k - 1)
        &&& self.stride == self.end_of(self.attributes.len() - 1)
    }

    /// First byte after attribute `k`; 0 before the first attribute.
    pub open spec fn end_of(self, k: int) -> int {
        if 0 <= k < self.attributes.len() {
            self.attributes[k].offset + self.attributes[k].format.byte_size()
        } else {
            0
        }
    }
}

/// Adding fields never shrinks the record.
pub proof fn lemma_bytes_before_monotone(counts: Seq<u32>, j: int, k: int)
    requires
        j <= k,
    ensures
        bytes_before(counts, j) <= bytes_before(counts, k),
        0 <= bytes_before(counts, j),
    decreases k - j,
{
    lemma_bytes_before_nonnegative(counts, j);
    if j < k {
        lemma_bytes_before_monotone(counts, j, k - 1);
        if k > 0 {
            assert(bytes_before(counts, k) == bytes_before(counts, k - 1) + 4 * counts[k - 1]);
        }
    }
}

proof fn lemma_bytes_before_nonnegative(counts: Seq<u32>, k: int)
    ensures
        0 <= bytes_before(counts, k),
    decreases k,
{
    if k > 0 {
        lemma_bytes_before_nonnegative(counts, k - 1);
    }
}

/// With at least one component in each field, `k` fields take at least `4 * k`
/// bytes.
proof fn lemma_bytes_before_lower_bound(counts: Seq<u32>, k: int)
    requires
        0 <= k <= counts.len(),
        forall|i: int| 0 <= i < k ==> 1 <= #[trigger] counts[i],
    ensures
        4 * k <= bytes_before(counts, k),
    decreases k,
{
    if k > 0 {
        lemma_bytes_before_lower_bound(counts, k - 1);
    }
}

/// Every derived layout is packed, its attributes lie inside the stride, and
/// no two of them overlap.
pub proof fn lemma_layout_packed(counts: Seq<u32>)
    requires
        derivable(counts),
    ensures
        layout_of(counts).packed(),
        forall|k: int|
            0 <= k < counts.len() ==> layout_of(counts).end_of(k) == bytes_before(counts, k + 1),
        forall|k: int|
            0 <= k < counts.len() ==> #[trigger] layout_of(counts).end_of(k) <= layout_of(
                counts,
            ).stride,
        forall|j: int, k: int|
            0 <= j < k < counts.len() ==> #[trigger] layout_of(counts).end_of(j) <= (
            #[trigger] layout_of(counts).attributes[k]).offset,
{
    let l = layout_of(counts);
    let n = counts.len() as int;
    assert forall|k: int| 0 <= k <= n implies 0 <= #[trigger] bytes_before(counts, k)
        <= u32::MAX by {
        lemma_bytes_before_monotone(counts, k, n);
    }
    assert forall|k: int| 0 <= k < n implies l.end_of(k) == bytes_before(counts, k + 1) by {
        assert(1 <= counts[k] <= 4);
        assert(bytes_before(counts, k + 1) == bytes_before(counts, k) + 4 * counts[k]);
    }
    assert forall|k: int| 0 <= k < n implies (#[trigger] l.attributes[k]).offset == l.end_of(
        k - 1,
    ) by {
        if k > 0 {
            assert(l.end_of(k - 1) == bytes_before(counts, k));
        }
    }
    assert forall|k: int| 0 <= k < n implies (#[trigger] l.attributes[k]).slot == k by {
        lemma_bytes_before_lower_bound(counts, n);
    }
    assert forall|j: int, k: int| 0 <= j < k < n implies #[trigger] l.end_of(j) <= (
    #[trigger] l.attributes[k]).offset by {
        lemma_bytes_before_monotone(counts, j + 1, k);
    }
    assert forall|k: int| 0 <= k < n implies #[trigger] l.end_of(k) <= l.stride by {
        lemma_bytes_before_monotone(counts, k + 1, n);
    }
}

/// Stride and attributes of one vertex record.
#[derive(Debug)]
pub struct VertexLayout {
    stride: u32,
    attributes: Vec<VertexAttribute>,
}

impl View for VertexLayout {
    type V = LayoutView;

    closed spec fn view(&self) -> LayoutView {
        LayoutView { stride: self.stride, attributes: self.attributes@ }
    }
}

impl VertexLayout {
    #[verifier::type_invariant]
    closed spec fn well_formed(&self) -> bool {
        self@.packed()
    }

    /// Derives the layout of a record from the component count of each of its
    /// fields, in declaration order. There is none when a field has no
    /// component format or the record is too large for 32-bit offsets.
    pub fn derive(counts: &[u32]) -> (r: Option<VertexLayout>)
        ensures
            r is Some <==> derivable(counts@),
            r matches Some(l) ==> l@ == layout_of(counts@) && l@.packed(),
    {
        let mut attributes: Vec<VertexAttribute> = Vec::new();
        let mut offset: u32 = 0;
        let mut k: usize = 0;
        while k < counts.len()
            invariant
                k <= counts.len(),
                attributes.len() == k,
                offset == bytes_before(counts@, k as int),
                forall|i: int| 0 <= i < k ==> 1 <= #[trigger] counts@[i] <= 4,
                forall|i: int| 0 <= i < k ==> #[trigger] attributes@[i] == attribute_of(counts@, i),
            decreases counts.len() - k,
        {
            let n: u32 = counts[k];
            let format = match VertexFormat::with_components(n) {
                Some(f) => f,
                None => {
                    return None;
                },
            };
            let size: u32 = format.size();
            proof {
                lemma_bytes_before_lower_bound(counts@, k as int);
                assert(bytes_before(counts@, k + 1) == bytes_before(counts@, k as int) + 4
                    * counts@[k as int]);
            }
            if size > u32::MAX - offset {
                proof {
                    lemma_bytes_before_monotone(counts@, k + 1, counts@.len() as int);
                }
                return None;
            }
            attributes.push(VertexAttribute { slot: k as u32, format, offset });
            offset = offset + size;
            k = k + 1;
        }
        proof {
            assert(attributes@ =~= layout_of(counts@).attributes);
            lemma_layout_packed(counts@);
        }
        Some(VertexLayout { stride: offset, attributes })
    }

    /// Bytes from one record to the next.
    pub fn stride(&self) -> (s: u32)
        ensures
            s == self@.stride,
            self@.packed(),
    {
        proof {
            use_type_invariant(self);
        }
        self.stride
    }

    /// The attributes in slot order.
    pub fn attributes(&self) -> (a: &[VertexAttribute])
        ensures
            a@ == self@.attributes,
            self@.packed(),
    {
        proof {
            use_type_invariant(self);
        }
        self.attributes.as_slice()
    }
}

} // verus!
