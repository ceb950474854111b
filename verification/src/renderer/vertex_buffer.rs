use core::marker::PhantomData;

use vstd::prelude::*;

use crate::{PhantomUnsend, PhantomUnsync};

verus! {

/// An opaque handle to a vertex buffer owned by a renderer.
#[derive(Debug, Clone, Copy, PartialEq, Eq, Hash)]
pub struct VertexBufferID(pub(crate) u64, pub(crate) PhantomUnsend, pub(crate) PhantomUnsync);

impl View for VertexBufferID {
    type V = int;

    closed spec fn view(&self) -> int {
        self.0 as int
    }
}

impl VertexBufferID {
    pub(crate) fn make(value: u64) -> (r: VertexBufferID)
        ensures
            r@ == value as int,
    {
        VertexBufferID(value, PhantomData, PhantomData)
    }

    /// The numeric value of the handle.
    pub fn value(&self) -> (r: u64)
        ensures
            r as int == self@,
    {
        self.0
    }
}

/// One field of a vertex: one to four 4-byte float components.
#[derive(Clone, Copy, PartialEq, Eq, Structural)]
pub enum VertexBufferElement {
    Float,
    Float2,
    Float3,
    Float4,
}

/// How many components an element has.
pub open spec fn component_count_m(e: VertexBufferElement) -> int {
    match e {
        VertexBufferElement::Float => 1,
        VertexBufferElement::Float2 => 2,
        VertexBufferElement::Float3 => 3,
        VertexBufferElement::Float4 => 4,
    }
}

/// The byte size of an element: four bytes per component.
pub open spec fn element_size_m(e: VertexBufferElement) -> int {
    4 * component_count_m(e)
}

/// The total component count of a layout.
pub open spec fn components_m(layout: Seq<VertexBufferElement>) -> int
    decreases layout.len(),
{
    if layout.len() == 0 {
        0
    } else {
        components_m(layout.drop_last()) + component_count_m(layout.last())
    }
}

/// The byte stride of a layout: the sum of its element sizes.
pub open spec fn stride_m(layout: Seq<VertexBufferElement>) -> int
    decreases layout.len(),
{
    if layout.len() == 0 {
        0
    } else {
        stride_m(layout.drop_last()) + element_size_m(layout.last())
    }
}

/// The stride of a layout with component counts `c1 .. ck` is
/// `4 * (c1 + ... + ck)`.
pub proof fn lemma_stride_components(layout: Seq<VertexBufferElement>)
    ensures
        stride_m(layout) == 4 * components_m(layout),
    decreases layout.len(),
{
    if layout.len() > 0 {
        lemma_stride_components(layout.drop_last());
    }
}

/// The stride is non-negative and at most sixteen bytes per element.
pub proof fn lemma_stride_bounds(layout: Seq<VertexBufferElement>)
    ensures
        0 <= stride_m(layout) <= 16 * layout.len(),
    decreases layout.len(),
{
    if layout.len() > 0 {
        lemma_stride_bounds(layout.drop_last());
    }
}

/// The number of vertices in `len` bytes of data at the given stride
/// (a stride of zero means no vertices).
pub open spec fn vertex_count_m(len: int, stride: int) -> int {
    if stride == 0 {
        0
    } else {
        len / stride
    }
}

impl VertexBufferElement {
    /// How many components this element has.
    pub fn component_count(&self) -> (r: usize)
        ensures
            r as int == component_count_m(*self),
    {
        match self {
            VertexBufferElement::Float => 1,
            VertexBufferElement::Float2 => 2,
            VertexBufferElement::Float3 => 3,
            VertexBufferElement::Float4 => 4,
        }
    }

    /// The byte size of this element.
    pub fn size(&self) -> (r: usize)
        ensures
            r as int == element_size_m(*self),
    {
        4 * self.component_count()
    }
}

/// The byte stride of a layout.
pub fn stride_of(layout: &[VertexBufferElement]) -> (r: usize)
    requires
        16 * layout@.len() <= usize::MAX,
    ensures
        r as int == stride_m(layout@),
{
    proof {
        lemma_stride_bounds(layout@);
    }
    let n = layout.len();
    let mut total: usize = 0;
    let mut i: usize = 0;
    while i < n
        invariant
            n == layout@.len(),
            16 * layout@.len() <= usize::MAX,
            i <= n,
            total as int == stride_m(layout@.take(i as int)),
            total <= 16 * i,
        decreases n - i,
    {
        proof {
            assert(layout@.take(i as int + 1).drop_last() =~= layout@.take(i as int));
            assert(layout@.take(i as int + 1).last() == layout@[i as int]);
        }
        total = total + slice_element(layout, i).size();
        i += 1;
    }
    proof {
        assert(layout@.take(n as int) =~= layout@);
    }
    total
}

/// The byte offset of attribute slot `i`: the running sum of the sizes
/// of the elements before it.
pub open spec fn offset_m(layout: Seq<VertexBufferElement>, i: int) -> int {
    stride_m(layout.take(i))
}

/// The byte offset of every attribute slot of a layout, in order.
pub fn offsets_of(layout: &[VertexBufferElement]) -> (r: Vec<usize>)
    requires
        16 * layout@.len() <= usize::MAX,
    ensures
        r@.len() == layout@.len(),
        forall|i: int| 0 <= i < layout@.len() ==> (#[trigger] r@[i]) as int == offset_m(layout@, i),
{
    let n = layout.len();
    let mut out: Vec<usize> = Vec::new();
    let mut total: usize = 0;
    let mut i: usize = 0;
    while i < n
        invariant
            n == layout@.len(),
            16 * layout@.len() <= usize::MAX,
            i <= n,
            out@.len() == i,
            total as int == stride_m(layout@.take(i as int)),
            total <= 16 * i,
            forall|k: int|
                0 <= k < i ==> (#[trigger] out@[k]) as int == stride_m(layout@.take(k)),
        decreases n - i,
    {
        out.push(total);
        proof {
            assert(layout@.take(i as int + 1).drop_last() =~= layout@.take(i as int));
            assert(layout@.take(i as int + 1).last() == layout@[i as int]);
        }
        total = total + slice_element(layout, i).size();
        i += 1;
    }
    out
}

/// Reads one element of a layout slice.
fn slice_element(layout: &[VertexBufferElement], i: usize) -> (r: VertexBufferElement)
    requires
        i < layout@.len(),
    ensures
        r == layout@[i as int],
{
    layout[i]
}

/// A vertex buffer registered with a renderer: its byte stride and the
/// number of vertices last uploaded.
pub struct VertexBufferResource {
    pub(crate) id: VertexBufferID,
    pub(crate) stride: usize,
    pub(crate) count: usize,
}

impl VertexBufferResource {
    pub(crate) fn make(id: VertexBufferID, stride: usize, count: usize) -> (r:
        VertexBufferResource)
        ensures
            r.spec_id() == id@,
            r.spec_stride() == stride as int,
            r.spec_count() == count as int,
    {
        VertexBufferResource { id, stride, count }
    }

    /// The handle value this resource is registered under.
    pub closed spec fn spec_id(&self) -> int {
        self.id@
    }

    /// The byte stride of the current layout.
    pub closed spec fn spec_stride(&self) -> int {
        self.stride as int
    }

    /// The number of vertices last uploaded.
    pub closed spec fn spec_count(&self) -> int {
        self.count as int
    }

    pub fn get_id(&self) -> (r: VertexBufferID)
        ensures
            r@ == self.spec_id(),
    {
        self.id
    }

    /// The number of vertices last uploaded.
    pub fn get_count(&self) -> (r: usize)
        ensures
            r as int == self.spec_count(),
    {
        self.count
    }

    /// The byte stride of the current layout.
    pub fn get_stride(&self) -> (r: usize)
        ensures
            r as int == self.spec_stride(),
    {
        self.stride
    }
}

} // verus!
