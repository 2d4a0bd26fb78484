//! Vertex buffers: packed attribute bytes plus their layout descriptors.
//!
//! [`VertexBuffer`] owns a single tightly packed attribute;
//! [`InterleavedVertexBuffer`] owns several attributes woven into one byte
//! buffer at the offsets a [`VertexLayout`] plan assigns. Both keep their
//! bytes inside a [`BufferGPU`], so every mutation marks the device mirror
//! dirty and the next synchronization uploads the patched bytes.
//!
//! The serialized form is pinned down exactly: byte `p` of an interleaved
//! buffer belongs to vertex `p / stride`, and holds the matching byte of the
//! one attribute whose planned range covers `p % stride`, or zero padding if
//! no attribute does.
use vstd::prelude::*;

use crate::attributes::{Data, VertexData};
use crate::buffer_gpu::{BufferGPU, BufferKind, BufferUsage, SyncState};
use crate::layout::{attr_len, attr_size, VertexLayout};
use vstd::arithmetic::div_mod::{
    lemma_fundamental_div_mod, lemma_fundamental_div_mod_converse, lemma_multiply_divide_lt,
};
use vstd::arithmetic::mul::lemma_mul_inequality;

verus! {

/// Serialized byte length of one vertex's element under a layout entry.
pub open spec fn layout_len(layout: VertexLayout) -> int {
    layout.component_count * layout.component_type.spec_size_in_bytes()
}

/// The layout entries describe the attributes and carve one stride into
/// non-overlapping ranges: every entry shares `stride`, mirrors its
/// attribute's component metadata, fits inside the stride, and earlier
/// entries end before later entries begin.
pub open spec fn layouts_fit(
    attrs: Seq<VertexData>,
    layouts: Seq<VertexLayout>,
    stride: int,
) -> bool {
    &&& layouts.len() == attrs.len()
    &&& stride >= 1
    &&& forall|i: int|
        0 <= i < attrs.len() ==> {
            let layout = #[trigger] layouts[i];
            &&& layout.stride == stride
            &&& layout.component_count == attrs[i].data.spec_component_count()
            &&& layout.component_type == attrs[i].data.spec_component_type()
            &&& layout.offset + attr_len(attrs[i]) <= stride
        }
    &&& forall|i: int, j: int|
        0 <= i < j < attrs.len() ==> (#[trigger] layouts[i]).offset + attr_len(attrs[i]) <= (
        #[trigger] layouts[j]).offset
}

/// All attribute arrays carry the same number of vertices.
pub open spec fn counts_equal(attrs: Seq<VertexData>) -> bool {
    forall|i: int|
        0 <= i < attrs.len() ==> (#[trigger] attrs[i]).data.spec_count()
            == attrs[0].data.spec_count()
}

/// Byte `p` of the interleaved buffer, considering only the first `i`
/// attributes: the matching byte of the attribute whose range covers
/// `p % stride`, or zero if none does.
pub open spec fn interleaved_byte_upto(
    attrs: Seq<VertexData>,
    layouts: Seq<VertexLayout>,
    stride: int,
    p: int,
    i: int,
) -> u8
    decreases i,
{
    if i <= 0 {
        0
    } else {
        let off = layouts[i - 1].offset as int;
        let len = attr_len(attrs[i - 1]);
        if off <= p % stride < off + len {
            attrs[i - 1].data.spec_elem_byte(p / stride, p % stride - off)
        } else {
            interleaved_byte_upto(attrs, layouts, stride, p, i - 1)
        }
    }
}

/// The full interleaved serialization: `stride * count` bytes, each given by
/// `interleaved_byte_upto` over all attributes.
pub open spec fn spec_interleaved_bytes(
    attrs: Seq<VertexData>,
    layouts: Seq<VertexLayout>,
    stride: int,
    count: int,
) -> Seq<u8> {
    Seq::new(
        (stride * count) as nat,
        |p: int| interleaved_byte_upto(attrs, layouts, stride, p, attrs.len() as int),
    )
}

/// Weaves the attribute arrays into one byte buffer according to the layout
/// plan: vertex `v`'s element of attribute `i` sits at
/// `v * stride + layouts[i].offset`, and bytes no attribute claims are zero.
pub fn vertex_data_array_to_bytes(
    vertex_array: &Vec<VertexData>,
    layouts: &Vec<VertexLayout>,
) -> (bytes: Vec<u8>)
    requires
        vertex_array.len() > 0,
        layouts_fit(vertex_array@, layouts@, layouts@[0].stride as int),
        counts_equal(vertex_array@),
        (layouts@[0].stride as int) * vertex_array@[0].data.spec_count() <= usize::MAX,
    ensures
        bytes@ == spec_interleaved_bytes(
            vertex_array@,
            layouts@,
            layouts@[0].stride as int,
            vertex_array@[0].data.spec_count(),
        ),
{
    let ghost attrs = vertex_array@;
    let ghost glayouts = layouts@;
    let n = vertex_array.len();
    let stride = layouts[0].stride;
    let count = vertex_array[0].data.count();
    let ghost gstride = stride as int;
    let ghost total = gstride * count;
    proof {
        if count > 0 {
            lemma_mul_inequality(1, count as int, gstride);
            assert(1 * gstride == gstride);
            assert(count as int * gstride == gstride * count) by (nonlinear_arith);
        }
    }
    let total_size: usize = stride * count;
    let mut buf = crate::codec::zeroed(total_size);
    let mut i: usize = 0;
    while i < n
        invariant
            attrs == vertex_array@,
            glayouts == layouts@,
            n == attrs.len(),
            n > 0,
            stride == glayouts[0].stride,
            gstride == stride as int,
            count == attrs[0].data.spec_count(),
            layouts_fit(attrs, glayouts, gstride),
            counts_equal(attrs),
            total == gstride * count,
            total <= usize::MAX,
            total_size == total,
            i <= n,
            buf.len() == total_size,
            forall|p: int|
                0 <= p < total ==> #[trigger] buf[p] == interleaved_byte_upto(
                    attrs,
                    glayouts,
                    gstride,
                    p,
                    i as int,
                ),
        decreases n - i,
    {
        let offset = layouts[i].offset;
        let ghost goff = offset as int;
        let ghost alen = attr_len(attrs[i as int]);
        let mut v: usize = 0;
        while v < count
            invariant
                attrs == vertex_array@,
                glayouts == layouts@,
                n == attrs.len(),
                i < n,
                stride == glayouts[0].stride,
                gstride == stride as int,
                count == attrs[0].data.spec_count(),
                layouts_fit(attrs, glayouts, gstride),
                counts_equal(attrs),
                total == gstride * count,
                total <= usize::MAX,
                total_size == total,
                offset == glayouts[i as int].offset,
                goff == offset as int,
                alen == attr_len(attrs[i as int]),
                v <= count,
                buf.len() == total_size,
                forall|p: int|
                    0 <= p < total ==> #[trigger] buf[p] == (if goff <= p % gstride < goff + alen
                        && p / gstride < v {
                        attrs[i as int].data.spec_elem_byte(p / gstride, p % gstride - goff)
                    } else {
                        interleaved_byte_upto(attrs, glayouts, gstride, p, i as int)
                    }),
            decreases count - v,
        {
            proof {
                lemma_mul_inequality(v + 1, count as int, gstride);
                assert((v + 1) * gstride == v * gstride + gstride) by (nonlinear_arith);
                assert(count as int * gstride == gstride * count) by (nonlinear_arith);
            }
            let at = v * stride + offset;
            let vertex = &vertex_array[i];
            vertex.data.write_element(v, &mut buf, at);
            proof {
                let dat = attrs[i as int].data;
                assert forall|p: int| 0 <= p < total implies #[trigger] buf[p] == (if goff <= p
                    % gstride < goff + alen && p / gstride < v + 1 {
                    dat.spec_elem_byte(p / gstride, p % gstride - goff)
                } else {
                    interleaved_byte_upto(attrs, glayouts, gstride, p, i as int)
                }) by {
                    lemma_fundamental_div_mod(p, gstride);
                    assert(gstride * (p / gstride) == (p / gstride) * gstride) by (nonlinear_arith);
                    let q = p / gstride;
                    let r = p % gstride;
                    assert(gstride * q + gstride == gstride * (q + 1)) by (nonlinear_arith);
                    assert(gstride * (q + 1) == (q + 1) * gstride) by (nonlinear_arith);
                    assert(v as int * gstride == gstride * v) by (nonlinear_arith);
                    if at <= p < at + alen {
                        lemma_fundamental_div_mod_converse(p, gstride, v as int, p - v * gstride);
                    } else {
                        if q == v {
                            assert(!(goff <= r < goff + alen));
                        } else if q < v {
                            lemma_mul_inequality(q + 1, v as int, gstride);
                            assert(p < gstride * v);
                        } else {
                            lemma_mul_inequality(v + 1, q, gstride);
                            assert(q * gstride == gstride * q) by (nonlinear_arith);
                            assert(p >= (v + 1) * gstride);
                        }
                    }
                }
            }
            v = v + 1;
        }
        proof {
            assert forall|p: int| 0 <= p < total implies #[trigger] buf[p]
                == interleaved_byte_upto(attrs, glayouts, gstride, p, i as int + 1) by {
                lemma_multiply_divide_lt(p, gstride, count as int);
            }
        }
        i = i + 1;
    }
    proof {
        assert(buf@ =~= spec_interleaved_bytes(attrs, glayouts, gstride, count as int));
    }
    buf
}

/// Writes `cc` little-endian float words from `value` at `start`, marking
/// the buffer dirty; the workhorse behind both `set_matrix` flavours.
fn write_float_block(buffer: &mut BufferGPU, start: usize, value: &[u32; 16], cc: usize)
    requires
        old(buffer).state != SyncState::Released,
        1 <= cc <= 16,
        start + cc * 4 <= old(buffer).buffer_cpu.len(),
    ensures
        final(buffer).buffer_cpu.len() == old(buffer).buffer_cpu.len(),
        forall|i: int|
            start <= i < start + cc * 4 ==> #[trigger] final(buffer).buffer_cpu[i]
                == crate::codec::le_byte(value[(i - start) / 4] as int, ((i - start) % 4) as nat),
        forall|i: int|
            0 <= i < old(buffer).buffer_cpu.len() && !(start <= i < start + cc * 4)
                ==> final(buffer).buffer_cpu[i] == old(buffer).buffer_cpu[i],
        final(buffer).state == crate::buffer_gpu::spec_touch(old(buffer).state),
        final(buffer).id == old(buffer).id,
        final(buffer).kind == old(buffer).kind,
        final(buffer).usage == old(buffer).usage,
{
    proof {
        crate::codec::lemma_pow256_values();
    }
    let mut c: usize = 0;
    while c < cc
        invariant
            cc <= 16,
            start + cc * 4 <= buffer.buffer_cpu.len(),
            c <= cc,
            buffer.buffer_cpu.len() == old(buffer).buffer_cpu.len(),
            forall|i: int|
                start <= i < start + c * 4 ==> #[trigger] buffer.buffer_cpu[i]
                    == crate::codec::le_byte(
                    value[(i - start) / 4] as int,
                    ((i - start) % 4) as nat,
                ),
            forall|i: int|
                0 <= i < old(buffer).buffer_cpu.len() && !(start <= i < start + c * 4)
                    ==> buffer.buffer_cpu[i] == old(buffer).buffer_cpu[i],
            buffer.state == (if c > 0 {
                crate::buffer_gpu::spec_touch(old(buffer).state)
            } else {
                old(buffer).state
            }),
            c > 0 ==> buffer.state != SyncState::Released,
            old(buffer).state != SyncState::Released,
            buffer.id == old(buffer).id,
            buffer.kind == old(buffer).kind,
            buffer.usage == old(buffer).usage,
        decreases cc - c,
    {
        proof {
            crate::codec::lemma_pow256_values();
        }
        buffer.write_scalar_at(start + c * 4, value[c], 4);
        proof {
            assert forall|i: int| start <= i < start + (c + 1) * 4 implies #[trigger] buffer
                .buffer_cpu[i] == crate::codec::le_byte(
                value[(i - start) / 4] as int,
                ((i - start) % 4) as nat,
            ) by {
                let k = i - start;
                if k >= c * 4 {
                    lemma_fundamental_div_mod_converse(k, 4, c as int, k - c * 4);
                }
            }
        }
        c = c + 1;
    }
}

/// A buffer holding a single attribute, tightly packed: offset zero, stride
/// equal to the element size.
pub struct VertexBuffer {
    pub layout: VertexLayout,
    pub buffer: BufferGPU,
}

impl VertexBuffer {
    /// Well-formedness: a single-attribute layout starting at offset zero
    /// whose stride is exactly one element, dividing the byte buffer into
    /// whole vertices.
    pub open spec fn wf(self) -> bool {
        &&& self.layout.offset == 0
        &&& self.layout.component_count >= 1
        &&& self.layout.stride as int == layout_len(self.layout)
        &&& self.layout.stride >= 1
        &&& self.buffer.buffer_cpu.len() as int % self.layout.stride as int == 0
    }

    /// Number of vertices serialized in the buffer.
    pub open spec fn spec_vertex_count(self) -> int {
        self.buffer.buffer_cpu.len() as int / self.layout.stride as int
    }

    /// A per-vertex, non-normalized, static single-attribute buffer.
    pub fn new(name: &str, data: Data, counter: &mut u64) -> (buffer: VertexBuffer)
        requires
            data.spec_count() * data.spec_size_in_bytes() <= usize::MAX,
            *old(counter) < u64::MAX,
        ensures
            buffer.wf(),
            buffer.layout.name@ == name@,
            buffer.layout.component_count == data.spec_component_count(),
            buffer.layout.component_type == data.spec_component_type(),
            buffer.layout.normalize == false,
            buffer.layout.divisor == 0,
            buffer.layout.number_of_columns == data.spec_number_of_columns(),
            buffer.layout.offset == 0,
            buffer.layout.stride == data.spec_size_in_bytes(),
            buffer.buffer.buffer_cpu@ == data.spec_packed_bytes(),
            buffer.buffer.buffer_cpu.len() == data.spec_count() * data.spec_size_in_bytes(),
            buffer.spec_vertex_count() == data.spec_count(),
            buffer.buffer.id == *old(counter),
            *final(counter) == *old(counter) + 1,
            buffer.buffer.state == SyncState::Unallocated,
            buffer.buffer.kind == BufferKind::ArrayBuffer,
            buffer.buffer.usage == BufferUsage::StaticDraw,
    {
        let vertex_data = VertexData::new(name, data);
        VertexBuffer::with_config(BufferUsage::StaticDraw, vertex_data, counter)
    }

    /// A single-attribute buffer with an explicit usage hint and a fully
    /// specified attribute (divisor and normalization included).
    pub fn with_config(
        usage: BufferUsage,
        vertex_data: VertexData,
        counter: &mut u64,
    ) -> (buffer: VertexBuffer)
        requires
            vertex_data.data.spec_count() * vertex_data.data.spec_size_in_bytes() <= usize::MAX,
            *old(counter) < u64::MAX,
        ensures
            buffer.wf(),
            buffer.layout.name@ == vertex_data.name@,
            buffer.layout.component_count == vertex_data.data.spec_component_count(),
            buffer.layout.component_type == vertex_data.data.spec_component_type(),
            buffer.layout.normalize == vertex_data.normalize,
            buffer.layout.divisor == vertex_data.divisor,
            buffer.layout.number_of_columns == vertex_data.data.spec_number_of_columns(),
            buffer.layout.offset == 0,
            buffer.layout.stride == vertex_data.data.spec_size_in_bytes(),
            buffer.buffer.buffer_cpu@ == vertex_data.data.spec_packed_bytes(),
            buffer.buffer.buffer_cpu.len() == vertex_data.data.spec_count()
                * vertex_data.data.spec_size_in_bytes(),
            buffer.spec_vertex_count() == vertex_data.data.spec_count(),
            buffer.buffer.id == *old(counter),
            *final(counter) == *old(counter) + 1,
            buffer.buffer.state == SyncState::Unallocated,
            buffer.buffer.kind == BufferKind::ArrayBuffer,
            buffer.buffer.usage == usage,
    {
        let ghost dat = vertex_data.data;
        let layout = VertexLayout::from_vertex(&vertex_data);
        let bytes = vertex_data.data.to_bytes();
        proof {
            let count = dat.spec_count();
            let e = dat.spec_size_in_bytes();
            assert(dat.spec_component_count() >= 1);
            assert(e >= 1) by (nonlinear_arith)
                requires
                    e == dat.spec_component_count() * dat.spec_component_type(
                    ).spec_size_in_bytes(),
                    dat.spec_component_count() >= 1,
                    dat.spec_component_type().spec_size_in_bytes() >= 1,
            ;
            vstd::arithmetic::div_mod::lemma_mod_multiples_basic(count, e);
            assert(count * e == e * count) by (nonlinear_arith);
            vstd::arithmetic::div_mod::lemma_div_multiples_vanish(count, e);
        }
        VertexBuffer {
            buffer: BufferGPU::new(BufferKind::ArrayBuffer, usage, bytes, counter),
            layout,
        }
    }

    /// Number of vertices stored: the byte length divided by the stride.
    pub fn vertex_count(&self) -> (count: usize)
        requires
            self.wf(),
        ensures
            count == self.spec_vertex_count(),
    {
        self.buffer.size() / self.layout.stride
    }

    /// Overwrites the leading `value.len()` bytes of vertex `vertex_index`
    /// and marks the buffer dirty. Bytes of every other vertex, and the
    /// layout, are untouched.
    pub fn set_vertex(&mut self, vertex_index: usize, value: &[u8])
        requires
            old(self).wf(),
            old(self).buffer.state != SyncState::Released,
            vertex_index < old(self).spec_vertex_count(),
            value@.len() <= old(self).layout.stride,
        ensures
            final(self).wf(),
            final(self).layout == old(self).layout,
            final(self).buffer.buffer_cpu.len() == old(self).buffer.buffer_cpu.len(),
            final(self).spec_vertex_count() == old(self).spec_vertex_count(),
            forall|i: int|
                vertex_index * old(self).layout.stride <= i < vertex_index * old(self).layout.stride + value.len() ==> #[trigger] final(self).buffer.buffer_cpu[i]
                    == value[i - vertex_index * old(self).layout.stride],
            forall|i: int|
                0 <= i < old(self).buffer.buffer_cpu.len() && !(vertex_index * old(self).layout.stride <= i < vertex_index * old(self).layout.stride + value.len())
                    ==> final(self).buffer.buffer_cpu[i] == old(self).buffer.buffer_cpu[i],
            final(self).buffer.state == crate::buffer_gpu::spec_touch(old(self).buffer.state),
            final(self).buffer.id == old(self).buffer.id,
            final(self).buffer.kind == old(self).buffer.kind,
            final(self).buffer.usage == old(self).buffer.usage,
    {
        proof {
            self.lemma_vertex_window(vertex_index as int);
        }
        let start = vertex_index * self.layout.stride;
        self.buffer.set_bytes(start, value);
    }

    /// One whole vertex's byte window lies inside the buffer.
    proof fn lemma_vertex_window(self, vertex_index: int)
        requires
            self.wf(),
            0 <= vertex_index < self.spec_vertex_count(),
        ensures
            vertex_index * self.layout.stride as int >= 0,
            vertex_index * self.layout.stride as int + self.layout.stride as int
                <= self.buffer.buffer_cpu.len() as int,
    {
        let stride = self.layout.stride as int;
        let len = self.buffer.buffer_cpu.len() as int;
        let q = len / stride;
        lemma_fundamental_div_mod(len, stride);
        lemma_mul_inequality(vertex_index + 1, q, stride);
        assert(q * stride == stride * q) by (nonlinear_arith);
        assert((vertex_index + 1) * stride == vertex_index * stride + stride)
            by (nonlinear_arith);
        vstd::arithmetic::mul::lemma_mul_nonnegative(vertex_index, stride);
    }

    /// Patches the named attribute's scalar of vertex `vertex_index` with the
    /// four little-endian bytes of `bits`, and marks the buffer dirty.
    /// Returns `false`, changing nothing, when this buffer's attribute has a
    /// different name: callers probe several buffers for an attribute.
    pub fn set_scalar(&mut self, name: &str, vertex_index: usize, bits: u32) -> (found: bool)
        requires
            old(self).wf(),
            old(self).buffer.state != SyncState::Released,
            vertex_index < old(self).spec_vertex_count(),
            old(self).layout.name@ == name@ ==> old(self).layout.component_type
                == crate::attributes::VertexComponentType::Float,
        ensures
            found == (old(self).layout.name@ == name@),
            !found ==> *final(self) == *old(self),
            final(self).wf(),
            final(self).layout == old(self).layout,
            final(self).buffer.buffer_cpu.len() == old(self).buffer.buffer_cpu.len(),
            final(self).spec_vertex_count() == old(self).spec_vertex_count(),
            found ==> forall|i: int|
                vertex_index * old(self).layout.stride <= i < vertex_index * old(self).layout.stride + 4 ==> #[trigger] final(self).buffer.buffer_cpu[i]
                    == crate::codec::le_byte(
                    bits as int,
                    (i - vertex_index * old(self).layout.stride) as nat,
                ),
            found ==> forall|i: int|
                0 <= i < old(self).buffer.buffer_cpu.len() && !(vertex_index * old(self).layout.stride <= i < vertex_index * old(self).layout.stride + 4)
                    ==> final(self).buffer.buffer_cpu[i] == old(self).buffer.buffer_cpu[i],
            found ==> final(self).buffer.state == crate::buffer_gpu::spec_touch(
                old(self).buffer.state,
            ),
            final(self).buffer.id == old(self).buffer.id,
            final(self).buffer.kind == old(self).buffer.kind,
            final(self).buffer.usage == old(self).buffer.usage,
    {
        let owned: String = name.to_owned();
        if !(self.layout.name == owned) {
            return false;
        }
        proof {
            self.lemma_vertex_window(vertex_index as int);
            crate::codec::lemma_pow256_values();
            lemma_mul_inequality(
                1,
                self.layout.component_count as int,
                self.layout.component_type.spec_size_in_bytes(),
            );
        }
        let start = vertex_index * self.layout.stride;
        self.buffer.write_scalar_at(start, bits, 4);
        true
    }

    /// Patches the named matrix attribute of vertex `vertex_index` with the
    /// first `component_count` little-endian float words of `value`, marking
    /// the buffer dirty; `false` (and no change) when the name differs.
    pub fn set_matrix(&mut self, name: &str, vertex_index: usize, value: &[u32; 16]) -> (found:
        bool)
        requires
            old(self).wf(),
            old(self).buffer.state != SyncState::Released,
            vertex_index < old(self).spec_vertex_count(),
            old(self).layout.name@ == name@ ==> old(self).layout.component_type
                == crate::attributes::VertexComponentType::Float && old(self).layout.component_count <= 16,
        ensures
            found == (old(self).layout.name@ == name@),
            !found ==> *final(self) == *old(self),
            final(self).wf(),
            final(self).layout == old(self).layout,
            final(self).buffer.buffer_cpu.len() == old(self).buffer.buffer_cpu.len(),
            final(self).spec_vertex_count() == old(self).spec_vertex_count(),
            found ==> forall|i: int|
                vertex_index * old(self).layout.stride <= i < vertex_index * old(self).layout.stride + old(self).layout.component_count * 4 ==> #[trigger] final(self).buffer.buffer_cpu[i] == crate::codec::le_byte(
                    value[(i - vertex_index * old(self).layout.stride) / 4] as int,
                    ((i - vertex_index * old(self).layout.stride) % 4) as nat,
                ),
            found ==> forall|i: int|
                0 <= i < old(self).buffer.buffer_cpu.len() && !(vertex_index * old(self).layout.stride <= i < vertex_index * old(self).layout.stride + old(self).layout.component_count * 4) ==> final(self).buffer.buffer_cpu[i] == old(self).buffer.buffer_cpu[i],
            found ==> final(self).buffer.state == crate::buffer_gpu::spec_touch(
                old(self).buffer.state,
            ),
            final(self).buffer.id == old(self).buffer.id,
            final(self).buffer.kind == old(self).buffer.kind,
            final(self).buffer.usage == old(self).buffer.usage,
    {
        let owned: String = name.to_owned();
        if !(self.layout.name == owned) {
            return false;
        }
        proof {
            self.lemma_vertex_window(vertex_index as int);
        }
        let start = vertex_index * self.layout.stride;
        let cc = self.layout.component_count as usize;
        write_float_block(&mut self.buffer, start, value, cc);
        true
    }
}

/// Inside one stride, only the covering attribute decides a byte: attributes
/// after `i` (in plan order) start at or past the end of `i`'s range, so the
/// byte stays `i`'s.
proof fn lemma_upto_covered(
    attrs: Seq<VertexData>,
    layouts: Seq<VertexLayout>,
    stride: int,
    p: int,
    i: int,
    j: int,
)
    requires
        layouts_fit(attrs, layouts, stride),
        0 <= i < j <= attrs.len(),
        layouts[i].offset <= p % stride < layouts[i].offset + attr_len(attrs[i]),
    ensures
        interleaved_byte_upto(attrs, layouts, stride, p, j) == attrs[i].data.spec_elem_byte(
            p / stride,
            p % stride - layouts[i].offset,
        ),
    decreases j,
{
    if j == i + 1 {
    } else {
        assert(layouts[i].offset + attr_len(attrs[i]) <= layouts[j - 1].offset);
        lemma_upto_covered(attrs, layouts, stride, p, i, j - 1);
    }
}

/// What an interleaved buffer holds where an attribute's range covers it:
/// byte `k` of vertex `v`'s element of attribute `i` sits at
/// `v * stride + layouts[i].offset + k`.
pub proof fn lemma_interleaved_content(
    attrs: Seq<VertexData>,
    layouts: Seq<VertexLayout>,
    stride: int,
    count: int,
    i: int,
    v: int,
    k: int,
)
    requires
        layouts_fit(attrs, layouts, stride),
        0 <= i < attrs.len(),
        0 <= v < count,
        0 <= k < attr_len(attrs[i]),
    ensures
        spec_interleaved_bytes(attrs, layouts, stride, count)[v * stride + layouts[i].offset + k]
            == attrs[i].data.spec_elem_byte(v, k),
{
    let off = layouts[i].offset as int;
    let p = v * stride + off + k;
    assert(off + attr_len(attrs[i]) <= stride);
    vstd::arithmetic::mul::lemma_mul_nonnegative(v, stride);
    lemma_mul_inequality(v + 1, count, stride);
    assert((v + 1) * stride == v * stride + stride) by (nonlinear_arith);
    assert(count * stride == stride * count) by (nonlinear_arith);
    lemma_fundamental_div_mod_converse(p, stride, v, off + k);
    lemma_upto_covered(attrs, layouts, stride, p, i, attrs.len() as int);
}

/// Round trip through an interleaved buffer: decoding the bytes of
/// component `c` of vertex `v`'s element of attribute `i`, at the offset the
/// plan assigns, reproduces the component's bit pattern exactly.
pub proof fn lemma_interleaved_round_trip(
    attrs: Seq<VertexData>,
    layouts: Seq<VertexLayout>,
    stride: int,
    count: int,
    i: int,
    v: int,
    c: int,
)
    requires
        layouts_fit(attrs, layouts, stride),
        0 <= i < attrs.len(),
        0 <= v < count,
        v < attrs[i].data.spec_count(),
        0 <= c < attrs[i].data.spec_component_count(),
    ensures
        ({
            let s = attrs[i].data.spec_component_type().spec_size_in_bytes();
            let start = v * stride + layouts[i].offset + c * s;
            crate::codec::scalar_of_le(
                spec_interleaved_bytes(attrs, layouts, stride, count).subrange(start, start + s),
            ) == attrs[i].data.spec_component_bits(v, c)
        }),
{
    let dat = attrs[i].data;
    let s = dat.spec_component_type().spec_size_in_bytes();
    let e = attr_len(attrs[i]);
    let off = layouts[i].offset as int;
    let start = v * stride + off + c * s;
    lemma_mul_inequality(c + 1, dat.spec_component_count(), s);
    assert((c + 1) * s == c * s + s) by (nonlinear_arith);
    assert(dat.spec_component_count() * s == e);
    vstd::arithmetic::mul::lemma_mul_nonnegative(c, s);
    vstd::arithmetic::mul::lemma_mul_nonnegative(v, stride);
    lemma_mul_inequality(v + 1, count, stride);
    assert((v + 1) * stride == v * stride + stride) by (nonlinear_arith);
    assert(count * stride == stride * count) by (nonlinear_arith);
    let buffer_window = spec_interleaved_bytes(attrs, layouts, stride, count).subrange(
        start,
        start + s,
    );
    let elem_window = dat.spec_element_bytes(v).subrange(c * s, c * s + s);
    assert forall|j: int| 0 <= j < s implies buffer_window[j] == elem_window[j] by {
        lemma_interleaved_content(attrs, layouts, stride, count, i, v, c * s + j);
    }
    assert(buffer_window =~= elem_window);
    dat.lemma_element_round_trip(v, c);
}

/// A buffer interleaving several attributes: all of one vertex's attribute/// A buffer interleaving several attributes: all of one vertex's attribute
/// values are contiguous within one stride.
pub struct InterleavedVertexBuffer {
    pub buffer: BufferGPU,
    pub layouts: Vec<VertexLayout>,
}

impl InterleavedVertexBuffer {
    /// The stride every layout entry shares.
    pub open spec fn spec_stride(self) -> int {
        self.layouts[0].stride as int
    }

    /// Well-formedness: at least one attribute, a positive shared stride that
    /// every attribute's range fits into, and a byte buffer of whole
    /// vertices.
    pub open spec fn wf(self) -> bool {
        &&& self.layouts.len() >= 1
        &&& self.spec_stride() >= 1
        &&& forall|i: int|
            0 <= i < self.layouts.len() ==> {
                let layout = #[trigger] self.layouts[i];
                &&& layout.stride as int == self.spec_stride()
                &&& layout.component_count >= 1
                &&& layout.offset + layout_len(layout) <= self.spec_stride()
            }
        &&& self.buffer.buffer_cpu.len() as int % self.spec_stride() == 0
    }

    /// Number of vertices serialized in the buffer.
    pub open spec fn spec_vertex_count(self) -> int {
        self.buffer.buffer_cpu.len() as int / self.spec_stride()
    }

    /// Plans the layout for the attributes, serializes them interleaved, and
    /// wraps the bytes in a fresh buffer with a newly minted identity.
    pub fn new(usage: BufferUsage, data: Vec<VertexData>, counter: &mut u64) -> (buffer:
        InterleavedVertexBuffer)
        requires
            data.len() > 0,
            counts_equal(data@),
            crate::layout::spec_stride(data@) <= usize::MAX,
            crate::layout::spec_stride(data@) * data@[0].data.spec_count() <= usize::MAX,
            *old(counter) < u64::MAX,
        ensures
            buffer.wf(),
            buffer.layouts.len() == data.len(),
            forall|i: int|
                0 <= i < data.len() ==> {
                    let layout = #[trigger] buffer.layouts[i];
                    let vertex = data[i];
                    &&& layout.name@ == vertex.name@
                    &&& layout.component_count == vertex.data.spec_component_count()
                    &&& layout.component_type == vertex.data.spec_component_type()
                    &&& layout.normalize == vertex.normalize
                    &&& layout.divisor == vertex.divisor
                    &&& layout.number_of_columns == vertex.data.spec_number_of_columns()
                    &&& layout.offset == crate::layout::spec_offset(data@, i)
                    &&& layout.stride == crate::layout::spec_stride(data@)
                },
            buffer.buffer.buffer_cpu@ == spec_interleaved_bytes(
                data@,
                buffer.layouts@,
                crate::layout::spec_stride(data@),
                data@[0].data.spec_count(),
            ),
            buffer.buffer.buffer_cpu.len() == crate::layout::spec_stride(data@)
                * data@[0].data.spec_count(),
            buffer.spec_vertex_count() == data@[0].data.spec_count(),
            buffer.buffer.id == *old(counter),
            *final(counter) == *old(counter) + 1,
            buffer.buffer.state == SyncState::Unallocated,
            buffer.buffer.kind == BufferKind::ArrayBuffer,
            buffer.buffer.usage == usage,
    {
        let ghost attrs = data@;
        let ghost n = data@.len() as int;
        let layouts = VertexLayout::from_vertex_array(&data);
        proof {
            let stride = crate::layout::spec_stride(attrs);
            crate::layout::lemma_end_offset_monotone(attrs, 1, n);
            crate::layout::lemma_size_values(attrs, 0);
            assert(crate::layout::spec_end_offset(attrs, 0) == 0);
            assert(crate::layout::spec_align(0, attr_size(attrs[0])) == 0);
            assert(crate::layout::spec_end_offset(attrs, 1) == attr_len(attrs[0]));
            crate::layout::lemma_max_alignment_bounds(attrs, 0, n);
            crate::layout::lemma_align_properties(
                crate::layout::spec_end_offset(attrs, n),
                crate::layout::spec_max_alignment(attrs, n),
            );
            assert(stride >= 1);
            assert forall|i: int| 0 <= i < n implies {
                let layout = #[trigger] layouts[i];
                &&& layout.offset + attr_len(attrs[i]) <= stride
                &&& layout.component_count >= 1
            } by {
                crate::layout::lemma_layout_coverage(attrs, i);
            }
            assert forall|i: int, j: int| 0 <= i < j < n implies (#[trigger] layouts[i]).offset
                + attr_len(attrs[i]) <= (#[trigger] layouts[j]).offset by {
                crate::layout::lemma_layout_pair_disjoint(attrs, i, j);
            }
            assert(layouts_fit(attrs, layouts@, stride));
        }
        let bytes = vertex_data_array_to_bytes(&data, &layouts);
        let ghost stride = crate::layout::spec_stride(attrs);
        let ghost count = attrs[0].data.spec_count();
        proof {
            vstd::arithmetic::div_mod::lemma_mod_multiples_basic(count, stride);
            assert(count * stride == stride * count) by (nonlinear_arith);
            vstd::arithmetic::div_mod::lemma_div_multiples_vanish(count, stride);
        }
        InterleavedVertexBuffer {
            buffer: BufferGPU::new(BufferKind::ArrayBuffer, usage, bytes, counter),
            layouts,
        }
    }

    /// Number of vertices stored: the byte length divided by the stride.
    pub fn vertex_count(&self) -> (count: usize)
        requires
            self.wf(),
        ensures
            count == self.spec_vertex_count(),
    {
        self.buffer.size() / self.stride()
    }

    /// The shared stride of the interleaved layout.
    pub fn stride(&self) -> (stride: usize)
        requires
            self.wf(),
        ensures
            stride as int == self.spec_stride(),
    {
        self.layouts[0].stride
    }

    /// One whole vertex's byte window lies inside the buffer.
    proof fn lemma_vertex_window(self, vertex_index: int)
        requires
            self.wf(),
            0 <= vertex_index < self.spec_vertex_count(),
        ensures
            vertex_index * self.spec_stride() >= 0,
            vertex_index * self.spec_stride() + self.spec_stride()
                <= self.buffer.buffer_cpu.len() as int,
    {
        let stride = self.spec_stride();
        let len = self.buffer.buffer_cpu.len() as int;
        let q = len / stride;
        lemma_fundamental_div_mod(len, stride);
        lemma_mul_inequality(vertex_index + 1, q, stride);
        assert(q * stride == stride * q) by (nonlinear_arith);
        assert((vertex_index + 1) * stride == vertex_index * stride + stride)
            by (nonlinear_arith);
        vstd::arithmetic::mul::lemma_mul_nonnegative(vertex_index, stride);
    }

    /// Where vertex `vertex_index`'s bytes for the named attribute start, or
    /// `None` when no layout entry carries that name. A miss is an expected
    /// probe result, not an error.
    pub fn get_vertex_byte_offset(&self, attribute_name: &str, vertex_index: usize) -> (found:
        Option<usize>)
        requires
            self.wf(),
            vertex_index < self.spec_vertex_count(),
        ensures
            ({
                let f = crate::layout::spec_find(self.layouts@, attribute_name@);
                if f >= 0 {
                    found == Some(
                        (vertex_index * self.spec_stride() + self.layouts[f].offset) as usize,
                    )
                } else {
                    found is None
                }
            }),
    {
        match crate::layout::find_layout(&self.layouts, attribute_name) {
            Some(idx) => {
                proof {
                    crate::layout::lemma_find_props(self.layouts@, attribute_name@, 0);
                    self.lemma_vertex_window(vertex_index as int);
                    vstd::arithmetic::mul::lemma_mul_nonnegative(
                        self.layouts[idx as int].component_count as int,
                        self.layouts[idx as int].component_type.spec_size_in_bytes(),
                    );
                }
                Some(vertex_index * self.layouts[idx].stride + self.layouts[idx].offset)
            },
            None => None,
        }
    }

    /// Overwrites vertex `vertex_index`'s element of the named attribute with
    /// `value` and marks the buffer dirty; `false` (and no change at all)
    /// when no attribute carries the name. Only bytes inside that vertex's
    /// slice of that attribute change.
    pub fn update_vertex(&mut self, name: &str, vertex_index: usize, value: &[u8]) -> (found:
        bool)
        requires
            old(self).wf(),
            old(self).buffer.state != SyncState::Released,
            vertex_index < old(self).spec_vertex_count(),
            ({
                let f = crate::layout::spec_find(old(self).layouts@, name@);
                f >= 0 ==> value@.len() == layout_len(old(self).layouts[f])
            }),
        ensures
            found == (crate::layout::spec_find(old(self).layouts@, name@) >= 0),
            !found ==> *final(self) == *old(self),
            final(self).wf(),
            final(self).layouts == old(self).layouts,
            final(self).buffer.buffer_cpu.len() == old(self).buffer.buffer_cpu.len(),
            final(self).spec_vertex_count() == old(self).spec_vertex_count(),
            found ==> ({
                let f = crate::layout::spec_find(old(self).layouts@, name@);
                let start = vertex_index * old(self).spec_stride() + old(self).layouts[f].offset;
                &&& forall|i: int|
                    start <= i < start + value.len() ==> #[trigger] final(self).buffer.buffer_cpu[i]
                        == value[i - start]
                &&& forall|i: int|
                    0 <= i < old(self).buffer.buffer_cpu.len() && !(start <= i < start
                        + value.len()) ==> final(self).buffer.buffer_cpu[i] == old(
                        self,
                    ).buffer.buffer_cpu[i]
                &&& final(self).buffer.state == crate::buffer_gpu::spec_touch(
                    old(self).buffer.state,
                )
            }),
            final(self).buffer.id == old(self).buffer.id,
            final(self).buffer.kind == old(self).buffer.kind,
            final(self).buffer.usage == old(self).buffer.usage,
    {
        match self.get_vertex_byte_offset(name, vertex_index) {
            Some(byte_offset) => {
                proof {
                    crate::layout::lemma_find_props(self.layouts@, name@, 0);
                    self.lemma_vertex_window(vertex_index as int);
                }
                self.buffer.set_bytes(byte_offset, value);
                true
            },
            None => false,
        }
    }

    /// Patches the named attribute's scalar of vertex `vertex_index` with
    /// the four little-endian bytes of `bits`; `false` (and no change) when
    /// no attribute carries the name.
    pub fn set_scalar(&mut self, name: &str, vertex_index: usize, bits: u32) -> (found: bool)
        requires
            old(self).wf(),
            old(self).buffer.state != SyncState::Released,
            vertex_index < old(self).spec_vertex_count(),
            ({
                let f = crate::layout::spec_find(old(self).layouts@, name@);
                f >= 0 ==> old(self).layouts[f].component_type
                    == crate::attributes::VertexComponentType::Float
            }),
        ensures
            found == (crate::layout::spec_find(old(self).layouts@, name@) >= 0),
            !found ==> *final(self) == *old(self),
            final(self).wf(),
            final(self).layouts == old(self).layouts,
            final(self).buffer.buffer_cpu.len() == old(self).buffer.buffer_cpu.len(),
            final(self).spec_vertex_count() == old(self).spec_vertex_count(),
            found ==> ({
                let f = crate::layout::spec_find(old(self).layouts@, name@);
                let start = vertex_index * old(self).spec_stride() + old(self).layouts[f].offset;
                &&& forall|i: int|
                    start <= i < start + 4 ==> #[trigger] final(self).buffer.buffer_cpu[i]
                        == crate::codec::le_byte(bits as int, (i - start) as nat)
                &&& forall|i: int|
                    0 <= i < old(self).buffer.buffer_cpu.len() && !(start <= i < start + 4)
                        ==> final(self).buffer.buffer_cpu[i] == old(self).buffer.buffer_cpu[i]
                &&& final(self).buffer.state == crate::buffer_gpu::spec_touch(
                    old(self).buffer.state,
                )
            }),
            final(self).buffer.id == old(self).buffer.id,
            final(self).buffer.kind == old(self).buffer.kind,
            final(self).buffer.usage == old(self).buffer.usage,
    {
        match self.get_vertex_byte_offset(name, vertex_index) {
            Some(byte_offset) => {
                proof {
                    crate::layout::lemma_find_props(self.layouts@, name@, 0);
                    self.lemma_vertex_window(vertex_index as int);
                    let f = crate::layout::spec_find(self.layouts@, name@);
                    lemma_mul_inequality(
                        1,
                        self.layouts[f].component_count as int,
                        self.layouts[f].component_type.spec_size_in_bytes(),
                    );
                    crate::codec::lemma_pow256_values();
                }
                self.buffer.write_scalar_at(byte_offset, bits, 4);
                true
            },
            None => false,
        }
    }

    /// Patches the named matrix attribute of vertex `vertex_index` with the
    /// first `component_count` little-endian float words of `value`; `false`
    /// (and no change) when no attribute carries the name.
    pub fn set_matrix(&mut self, name: &str, vertex_index: usize, value: &[u32; 16]) -> (found:
        bool)
        requires
            old(self).wf(),
            old(self).buffer.state != SyncState::Released,
            vertex_index < old(self).spec_vertex_count(),
            ({
                let f = crate::layout::spec_find(old(self).layouts@, name@);
                f >= 0 ==> old(self).layouts[f].component_type
                    == crate::attributes::VertexComponentType::Float && old(
                    self,
                ).layouts[f].component_count <= 16
            }),
        ensures
            found == (crate::layout::spec_find(old(self).layouts@, name@) >= 0),
            !found ==> *final(self) == *old(self),
            final(self).wf(),
            final(self).layouts == old(self).layouts,
            final(self).buffer.buffer_cpu.len() == old(self).buffer.buffer_cpu.len(),
            final(self).spec_vertex_count() == old(self).spec_vertex_count(),
            found ==> ({
                let f = crate::layout::spec_find(old(self).layouts@, name@);
                let start = vertex_index * old(self).spec_stride() + old(self).layouts[f].offset;
                let width = old(self).layouts[f].component_count * 4;
                &&& forall|i: int|
                    start <= i < start + width ==> #[trigger] final(self).buffer.buffer_cpu[i]
                        == crate::codec::le_byte(
                        value[(i - start) / 4] as int,
                        ((i - start) % 4) as nat,
                    )
                &&& forall|i: int|
                    0 <= i < old(self).buffer.buffer_cpu.len() && !(start <= i < start + width)
                        ==> final(self).buffer.buffer_cpu[i] == old(self).buffer.buffer_cpu[i]
                &&& final(self).buffer.state == crate::buffer_gpu::spec_touch(
                    old(self).buffer.state,
                )
            }),
            final(self).buffer.id == old(self).buffer.id,
            final(self).buffer.kind == old(self).buffer.kind,
            final(self).buffer.usage == old(self).buffer.usage,
    {
        match self.get_vertex_byte_offset(name, vertex_index) {
            Some(byte_offset) => {
                proof {
                    crate::layout::lemma_find_props(self.layouts@, name@, 0);
                    self.lemma_vertex_window(vertex_index as int);
                }
                let idx = match crate::layout::find_layout(&self.layouts, name) {
                    Some(idx) => idx,
                    None => {
                        proof {
                            assert(false);
                        }
                        0
                    },
                };
                let cc = self.layouts[idx].component_count as usize;
                write_float_block(&mut self.buffer, byte_offset, value, cc);
                true
            },
            None => false,
        }
    }
}

} // verus!
