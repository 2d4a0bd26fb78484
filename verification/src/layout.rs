//! Layout planning: where each attribute's bytes live inside a vertex.
//!
//! A [`VertexLayout`] describes one attribute of a buffer: its component
//! metadata plus the byte `offset` of the attribute within a vertex and the
//! shared `stride` between consecutive vertices. For a single-attribute
//! buffer the offset is zero and the stride is the element size. For an
//! interleaved buffer the planner walks the attributes in order, aligning
//! each offset up to the attribute's component byte width, and finally aligns
//! the accumulated end offset up to the largest component width seen to get
//! the stride every entry shares.
//!
//! The two public lemmas state the planner's guarantees: every offset and the
//! stride are multiples of the owning attribute's component width, and the
//! attributes' byte ranges are mutually disjoint and fit inside one stride.
use vstd::prelude::*;

use crate::attributes::{VertexComponentType, VertexData};
use vstd::arithmetic::div_mod::{lemma_fundamental_div_mod, lemma_mod_multiples_basic};

verus! {

/// How the bytes of one attribute are found inside a vertex buffer.
pub struct VertexLayout {
    pub name: String,
    pub component_count: u8,
    pub component_type: VertexComponentType,
    pub normalize: bool,
    pub stride: usize,
    pub offset: usize,
    pub divisor: u32,
    pub number_of_columns: u8,
}

/// Component byte width of an attribute: the alignment its offset must honor.
pub open spec fn attr_size(a: VertexData) -> int {
    a.data.spec_component_type().spec_size_in_bytes()
}

/// Serialized byte length of one vertex's element of an attribute.
pub open spec fn attr_len(a: VertexData) -> int {
    a.data.spec_size_in_bytes()
}

/// `value` rounded up to the next multiple of `alignment` (zero alignment
/// leaves the value untouched).
pub open spec fn spec_align(value: int, alignment: int) -> int {
    if alignment == 0 || value % alignment == 0 {
        value
    } else {
        value + alignment - value % alignment
    }
}

/// The packing cursor after the first `i` attributes: each attribute aligns
/// the cursor up to its component width, then advances it by its length.
pub open spec fn spec_end_offset(attrs: Seq<VertexData>, i: int) -> int
    decreases i,
{
    if i <= 0 {
        0
    } else {
        spec_align(spec_end_offset(attrs, i - 1), attr_size(attrs[i - 1])) + attr_len(
            attrs[i - 1],
        )
    }
}

/// The planned byte offset of attribute `i`.
pub open spec fn spec_offset(attrs: Seq<VertexData>, i: int) -> int {
    spec_align(spec_end_offset(attrs, i), attr_size(attrs[i]))
}

/// The largest component width among the first `i` attributes.
pub open spec fn spec_max_alignment(attrs: Seq<VertexData>, i: int) -> int
    decreases i,
{
    if i <= 0 {
        0
    } else {
        let prev = spec_max_alignment(attrs, i - 1);
        let cur = attr_size(attrs[i - 1]);
        if cur > prev {
            cur
        } else {
            prev
        }
    }
}

/// The shared stride of an interleaved layout: the end cursor aligned up to
/// the largest component width.
pub open spec fn spec_stride(attrs: Seq<VertexData>) -> int {
    spec_align(spec_end_offset(attrs, attrs.len() as int), spec_max_alignment(attrs, attrs.len() as int))
}

/// Aligning never moves a value backwards, and moves it by less than one
/// whole alignment; a positive alignment's result is a multiple of it.
pub proof fn lemma_align_properties(value: int, alignment: int)
    requires
        value >= 0,
        alignment >= 0,
    ensures
        value <= spec_align(value, alignment),
        spec_align(value, alignment) <= value + alignment,
        alignment > 0 ==> spec_align(value, alignment) % alignment == 0,
{
    if alignment > 0 {
        lemma_fundamental_div_mod(value, alignment);
        if value % alignment != 0 {
            let q = value / alignment;
            assert(alignment * (q + 1) == alignment * q + alignment) by (nonlinear_arith);
            assert(spec_align(value, alignment) == alignment * (q + 1));
            lemma_mod_multiples_basic(q + 1, alignment);
        } else {
            lemma_mod_multiples_basic(value / alignment, alignment);
        }
    }
}

/// The packing cursor never goes negative.
pub proof fn lemma_end_offset_nonneg(attrs: Seq<VertexData>, i: int)
    ensures
        0 <= spec_end_offset(attrs, i),
    decreases i,
{
    if i > 0 {
        lemma_end_offset_nonneg(attrs, i - 1);
        lemma_size_values(attrs, i - 1);
        lemma_align_properties(spec_end_offset(attrs, i - 1), attr_size(attrs[i - 1]));
    }
}

/// The packing cursor only moves forward.
pub proof fn lemma_end_offset_monotone(attrs: Seq<VertexData>, i: int, j: int)
    requires
        0 <= i <= j,
    ensures
        0 <= spec_end_offset(attrs, i) <= spec_end_offset(attrs, j),
    decreases j - i,
{
    lemma_end_offset_nonneg(attrs, i);
    if i < j {
        lemma_end_offset_monotone(attrs, i, j - 1);
        lemma_size_values(attrs, j - 1);
        lemma_align_properties(spec_end_offset(attrs, j - 1), attr_size(attrs[j - 1]));
    }
}

/// Component widths are always 1, 2 or 4 bytes, and element lengths positive.
pub proof fn lemma_size_values(attrs: Seq<VertexData>, i: int)
    ensures
        attr_size(attrs[i]) == 1 || attr_size(attrs[i]) == 2 || attr_size(attrs[i]) == 4,
        attr_len(attrs[i]) >= attr_size(attrs[i]),
{
}

/// The running maximum alignment never shrinks and stays within {0,1,2,4}.
pub proof fn lemma_max_alignment_bounds(attrs: Seq<VertexData>, i: int, j: int)
    requires
        0 <= i <= j,
    ensures
        spec_max_alignment(attrs, i) <= spec_max_alignment(attrs, j),
        spec_max_alignment(attrs, j) == 0 || spec_max_alignment(attrs, j) == 1
            || spec_max_alignment(attrs, j) == 2 || spec_max_alignment(attrs, j) == 4,
        j > 0 ==> spec_max_alignment(attrs, j) >= 1,
    decreases j - i,
{
    if i < j {
        lemma_max_alignment_bounds(attrs, i, j - 1);
        lemma_size_values(attrs, j - 1);
    } else {
        lemma_max_alignment_upto(attrs, j);
    }
}

proof fn lemma_max_alignment_upto(attrs: Seq<VertexData>, j: int)
    ensures
        spec_max_alignment(attrs, j) == 0 || spec_max_alignment(attrs, j) == 1
            || spec_max_alignment(attrs, j) == 2 || spec_max_alignment(attrs, j) == 4,
        j > 0 ==> spec_max_alignment(attrs, j) >= 1,
    decreases j,
{
    if j > 0 {
        lemma_max_alignment_upto(attrs, j - 1);
        lemma_size_values(attrs, j - 1);
    }
}

/// Every attribute's width is reached by the running maximum once the
/// attribute has been scanned.
pub proof fn lemma_max_alignment_covers(attrs: Seq<VertexData>, i: int, j: int)
    requires
        0 <= i < j,
    ensures
        attr_size(attrs[i]) <= spec_max_alignment(attrs, j),
    decreases j,
{
    if i < j - 1 {
        lemma_max_alignment_covers(attrs, i, j - 1);
        lemma_max_alignment_bounds(attrs, j - 1, j);
    }
}

/// Alignment invariant: each attribute's offset, and the shared stride, are
/// multiples of the attribute's component byte width, so a device can read
/// component `k` of vertex `v` at `v * stride + offset + k * size` with every
/// access naturally aligned.
pub proof fn lemma_layout_alignment(attrs: Seq<VertexData>, i: int)
    requires
        0 <= i < attrs.len(),
    ensures
        spec_offset(attrs, i) % attr_size(attrs[i]) == 0,
        spec_stride(attrs) % attr_size(attrs[i]) == 0,
{
    let n = attrs.len() as int;
    let size = attr_size(attrs[i]);
    let m = spec_max_alignment(attrs, n);
    lemma_size_values(attrs, i);
    lemma_end_offset_monotone(attrs, 0, i);
    lemma_align_properties(spec_end_offset(attrs, i), size);
    lemma_end_offset_monotone(attrs, 0, n);
    lemma_max_alignment_covers(attrs, i, n);
    lemma_max_alignment_bounds(attrs, 0, n);
    lemma_align_properties(spec_end_offset(attrs, n), m);
    let stride = spec_stride(attrs);
    assert(stride % m == 0);
    lemma_fundamental_div_mod(stride, m);
    let q = stride / m;
    if size == m {
    } else {
        let t = m / size;
        assert(m == size * t);
        assert(stride == size * (t * q)) by (nonlinear_arith)
            requires
                stride == m * q + 0,
                m == size * t,
        ;
        lemma_mod_multiples_basic(t * q, size);
    }
}

/// Coverage invariant: the attributes' byte ranges inside one vertex are
/// pairwise disjoint (in planning order) and all fit within `[0, stride)`.
pub proof fn lemma_layout_coverage(attrs: Seq<VertexData>, i: int)
    requires
        0 <= i < attrs.len(),
    ensures
        0 <= spec_offset(attrs, i),
        spec_offset(attrs, i) + attr_len(attrs[i]) <= spec_stride(attrs),
        i + 1 < attrs.len() ==> spec_offset(attrs, i) + attr_len(attrs[i]) <= spec_offset(
            attrs,
            i + 1,
        ),
{
    let n = attrs.len() as int;
    lemma_end_offset_monotone(attrs, 0, i);
    lemma_size_values(attrs, i);
    lemma_align_properties(spec_end_offset(attrs, i), attr_size(attrs[i]));
    assert(spec_end_offset(attrs, i + 1) == spec_offset(attrs, i) + attr_len(attrs[i]));
    lemma_end_offset_monotone(attrs, i + 1, n);
    lemma_max_alignment_bounds(attrs, 0, n);
    lemma_align_properties(spec_end_offset(attrs, n), spec_max_alignment(attrs, n));
    if i + 1 < n {
        lemma_end_offset_monotone(attrs, 0, i + 1);
        lemma_size_values(attrs, i + 1);
        lemma_align_properties(spec_end_offset(attrs, i + 1), attr_size(attrs[i + 1]));
    }
}

/// Index of the first layout entry named `name` at or after `i`, or `-1`.
pub open spec fn spec_find_from(layouts: Seq<VertexLayout>, name: Seq<char>, i: int) -> int
    decreases layouts.len() - i,
{
    if i < 0 || i >= layouts.len() {
        -1
    } else if layouts[i].name@ == name {
        i
    } else {
        spec_find_from(layouts, name, i + 1)
    }
}

/// Index of the first layout entry named `name`, or `-1` if no entry
/// carries that name. Named lookups are probes: a miss is an expected,
/// recoverable outcome, never an error.
pub open spec fn spec_find(layouts: Seq<VertexLayout>, name: Seq<char>) -> int {
    spec_find_from(layouts, name, 0)
}

/// A found index is in bounds, carries the name, and is the first to do so.
pub proof fn lemma_find_props(layouts: Seq<VertexLayout>, name: Seq<char>, i: int)
    requires
        0 <= i <= layouts.len(),
    ensures
        spec_find_from(layouts, name, i) == -1 ==> forall|k: int|
            i <= k < layouts.len() ==> (#[trigger] layouts[k]).name@ != name,
        spec_find_from(layouts, name, i) != -1 ==> {
            let f = spec_find_from(layouts, name, i);
            &&& i <= f < layouts.len()
            &&& layouts[f].name@ == name
            &&& forall|k: int| i <= k < f ==> (#[trigger] layouts[k]).name@ != name
        },
    decreases layouts.len() - i,
{
    if i < layouts.len() && layouts[i].name@ != name {
        lemma_find_props(layouts, name, i + 1);
    }
}

/// Scans the layout entries for the first one named `name`.
pub fn find_layout(layouts: &Vec<VertexLayout>, name: &str) -> (found: Option<usize>)
    ensures
        spec_find(layouts@, name@) >= -1,
        spec_find(layouts@, name@) >= 0 ==> found == Some(spec_find(layouts@, name@) as usize),
        spec_find(layouts@, name@) == -1 ==> found is None,
{
    let owned: String = name.to_owned();
    let mut idx: usize = 0;
    while idx < layouts.len()
        invariant
            idx <= layouts.len(),
            owned@ == name@,
            spec_find_from(layouts@, name@, 0) == spec_find_from(layouts@, name@, idx as int),
        decreases layouts.len() - idx,
    {
        if layouts[idx].name == owned {
            return Some(idx);
        }
        idx = idx + 1;
    }
    None
}

/// Disjointness across any pair: an earlier attribute's byte range ends at or
/// before a later attribute's begins.
pub proof fn lemma_layout_pair_disjoint(attrs: Seq<VertexData>, i: int, j: int)
    requires
        0 <= i < j < attrs.len(),
    ensures
        spec_offset(attrs, i) + attr_len(attrs[i]) <= spec_offset(attrs, j),
{
    lemma_end_offset_monotone(attrs, 0, i);
    lemma_size_values(attrs, i);
    lemma_align_properties(spec_end_offset(attrs, i), attr_size(attrs[i]));
    assert(spec_end_offset(attrs, i + 1) == spec_offset(attrs, i) + attr_len(attrs[i]));
    lemma_end_offset_monotone(attrs, i + 1, j);
    lemma_size_values(attrs, j);
    lemma_end_offset_monotone(attrs, 0, j);
    lemma_align_properties(spec_end_offset(attrs, j), attr_size(attrs[j]));
}

impl VertexLayout {
    /// Rounds `value` up to the next multiple of `alignment`.
    ///
    /// Attribute data must start at addresses that are multiples of the
    /// component width for strided device reads to be well-formed.
    pub fn align_to(value: usize, alignment: usize) -> (aligned: usize)
        requires
            spec_align(value as int, alignment as int) <= usize::MAX,
        ensures
            aligned == spec_align(value as int, alignment as int),
    {
        if alignment == 0 {
            return value;
        }
        let remainder = value % alignment;
        if remainder == 0 {
            return value;
        }
        value + (alignment - remainder)
    }

    /// The layout of a buffer holding `vertex` alone: tightly packed from
    /// offset zero, with the element size as stride.
    pub fn from_vertex(vertex: &VertexData) -> (layout: VertexLayout)
        ensures
            layout.name@ == vertex.name@,
            layout.component_count == vertex.data.spec_component_count(),
            layout.component_type == vertex.data.spec_component_type(),
            layout.normalize == vertex.normalize,
            layout.stride == attr_len(*vertex),
            layout.offset == 0,
            layout.divisor == vertex.divisor,
            layout.number_of_columns == vertex.data.spec_number_of_columns(),
    {
        VertexLayout {
            name: vertex.name.clone(),
            component_count: vertex.data.component_count(),
            component_type: vertex.data.component_type(),
            normalize: vertex.normalize,
            stride: vertex.data.size_in_bytes(),
            offset: 0,
            divisor: vertex.divisor,
            number_of_columns: vertex.data.number_of_columns(),
        }
    }

    /// Plans an interleaved layout for the attributes, in order: one entry
    /// per attribute, each at its aligned offset, all sharing the stride.
    pub fn from_vertex_array(vertex_array: &Vec<VertexData>) -> (layouts: Vec<VertexLayout>)
        requires
            vertex_array.len() > 0,
            spec_stride(vertex_array@) <= usize::MAX,
        ensures
            layouts.len() == vertex_array.len(),
            forall|i: int|
                0 <= i < vertex_array.len() ==> {
                    let layout = #[trigger] layouts[i];
                    let vertex = vertex_array[i];
                    &&& layout.name@ == vertex.name@
                    &&& layout.component_count == vertex.data.spec_component_count()
                    &&& layout.component_type == vertex.data.spec_component_type()
                    &&& layout.normalize == vertex.normalize
                    &&& layout.divisor == vertex.divisor
                    &&& layout.number_of_columns == vertex.data.spec_number_of_columns()
                    &&& layout.offset == spec_offset(vertex_array@, i)
                    &&& layout.stride == spec_stride(vertex_array@)
                },
    {
        let ghost attrs = vertex_array@;
        let ghost n = vertex_array@.len() as int;
        let mut vertex_layouts: Vec<VertexLayout> = Vec::new();
        let mut max_alignment: usize = 0;
        let mut current_offset: usize = 0;
        let mut i: usize = 0;
        while i < vertex_array.len()
            invariant
                attrs == vertex_array@,
                n == vertex_array@.len() as int,
                spec_stride(attrs) <= usize::MAX,
                i <= n,
                current_offset == spec_end_offset(attrs, i as int),
                max_alignment == spec_max_alignment(attrs, i as int),
                vertex_layouts.len() == i,
                forall|k: int|
                    0 <= k < i ==> {
                        let layout = #[trigger] vertex_layouts[k];
                        let vertex = attrs[k];
                        &&& layout.name@ == vertex.name@
                        &&& layout.component_count == vertex.data.spec_component_count()
                        &&& layout.component_type == vertex.data.spec_component_type()
                        &&& layout.normalize == vertex.normalize
                        &&& layout.divisor == vertex.divisor
                        &&& layout.number_of_columns == vertex.data.spec_number_of_columns()
                        &&& layout.offset == spec_offset(attrs, k)
                        &&& layout.stride == 0
                    },
            decreases n - i,
        {
            let vertex = &vertex_array[i];
            let alignment = vertex.data.component_type().size_in_bytes() as usize;
            proof {
                lemma_end_offset_monotone(attrs, 0, i as int);
                lemma_end_offset_monotone(attrs, i as int + 1, n);
                lemma_max_alignment_bounds(attrs, 0, n);
                lemma_align_properties(spec_end_offset(attrs, n), spec_max_alignment(attrs, n));
                lemma_align_properties(spec_end_offset(attrs, i as int), alignment as int);
            }
            if alignment > max_alignment {
                max_alignment = alignment;
            }
            current_offset = VertexLayout::align_to(current_offset, alignment);
            let layout = VertexLayout {
                name: vertex.name.clone(),
                component_count: vertex.data.component_count(),
                component_type: vertex.data.component_type(),
                normalize: vertex.normalize,
                offset: current_offset,
                stride: 0,
                divisor: vertex.divisor,
                number_of_columns: vertex.data.number_of_columns(),
            };
            current_offset = current_offset + vertex.data.size_in_bytes();
            vertex_layouts.push(layout);
            i = i + 1;
        }
        proof {
            lemma_max_alignment_bounds(attrs, 0, n);
            lemma_end_offset_monotone(attrs, 0, n);
            lemma_align_properties(spec_end_offset(attrs, n), spec_max_alignment(attrs, n));
        }
        let stride = VertexLayout::align_to(current_offset, max_alignment);
        let mut j: usize = 0;
        while j < vertex_layouts.len()
            invariant
                vertex_layouts.len() == n,
                attrs == vertex_array@,
                n == vertex_array@.len() as int,
                j <= n,
                stride == spec_stride(attrs),
                forall|k: int|
                    0 <= k < n ==> {
                        let layout = #[trigger] vertex_layouts[k];
                        let vertex = attrs[k];
                        &&& layout.name@ == vertex.name@
                        &&& layout.component_count == vertex.data.spec_component_count()
                        &&& layout.component_type == vertex.data.spec_component_type()
                        &&& layout.normalize == vertex.normalize
                        &&& layout.divisor == vertex.divisor
                        &&& layout.number_of_columns == vertex.data.spec_number_of_columns()
                        &&& layout.offset == spec_offset(attrs, k)
                        &&& layout.stride == (if k < j {
                            spec_stride(attrs)
                        } else {
                            0
                        })
                    },
            decreases n - j,
        {
            let offset = vertex_layouts[j].offset;
            let name = vertex_layouts[j].name.clone();
            let component_count = vertex_layouts[j].component_count;
            let component_type = vertex_layouts[j].component_type;
            let normalize = vertex_layouts[j].normalize;
            let divisor = vertex_layouts[j].divisor;
            let number_of_columns = vertex_layouts[j].number_of_columns;
            vertex_layouts.set(
                j,
                VertexLayout {
                    name,
                    component_count,
                    component_type,
                    normalize,
                    offset,
                    stride,
                    divisor,
                    number_of_columns,
                },
            );
            j = j + 1;
        }
        vertex_layouts
    }
}

} // verus!
