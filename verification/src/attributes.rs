//! Typed per-vertex attribute streams.
//!
//! [`Data`] is a closed union of homogeneous value arrays: scalars, 2/3/4
//! component vectors in byte, short, int and float flavours, and square float
//! matrices kept as flat column-major arrays. Floating-point components are
//! carried as their IEEE-754 bit patterns (`u32`), since the packing engine
//! only ever moves fixed-width words; producers and consumers convert with
//! `f32::to_bits` / `f32::from_bits` at the boundary.
//!
//! Each variant exposes a vertex count, a component count, a component scalar
//! type, and the number of attribute binding columns it occupies (matrices
//! span several). `component_bits` reads one component of one vertex as a
//! widened bit pattern; the serialized form of a vertex element is its
//! components' little-endian encodings in order, as `spec_element_bytes`
//! states.
use vstd::prelude::*;

use crate::codec::{le_byte, pow256, write_scalar_le, zeroed};
use vstd::arithmetic::div_mod::lemma_fundamental_div_mod_converse;
use vstd::arithmetic::mul::lemma_mul_inequality;

verus! {

/// The scalar type of an attribute's components, with its fixed byte width.
#[derive(Clone, Copy, Debug, PartialEq, Eq, Structural)]
pub enum VertexComponentType {
    Byte,
    UnsignedByte,
    Short,
    UnsignedShort,
    Int,
    UnsignedInt,
    Float,
}

impl VertexComponentType {
    /// Byte width of one component of this type.
    pub open spec fn spec_size_in_bytes(self) -> int {
        match self {
            VertexComponentType::Byte => 1,
            VertexComponentType::UnsignedByte => 1,
            VertexComponentType::Short => 2,
            VertexComponentType::UnsignedShort => 2,
            VertexComponentType::Int => 4,
            VertexComponentType::UnsignedInt => 4,
            VertexComponentType::Float => 4,
        }
    }

    pub fn size_in_bytes(&self) -> (size: u8)
        ensures
            size == self.spec_size_in_bytes(),
            size == 1 || size == 2 || size == 4,
    {
        match self {
            VertexComponentType::Byte => 1,
            VertexComponentType::UnsignedByte => 1,
            VertexComponentType::Short => 2,
            VertexComponentType::UnsignedShort => 2,
            VertexComponentType::Int => 4,
            VertexComponentType::UnsignedInt => 4,
            VertexComponentType::Float => 4,
        }
    }
}

/// One attribute's raw values for every vertex (or instance).
///
/// Vector components are grouped per vertex; matrices are flat column-major
/// arrays of 4, 9 or 16 floats. All float payloads hold IEEE-754 bit patterns.
pub enum Data {
    Byte(Vec<i8>),
    ByteVec2(Vec<[i8; 2]>),
    ByteVec3(Vec<[i8; 3]>),
    ByteVec4(Vec<[i8; 4]>),
    UnsignedByte(Vec<u8>),
    UnsignedByteVec2(Vec<[u8; 2]>),
    UnsignedByteVec3(Vec<[u8; 3]>),
    UnsignedByteVec4(Vec<[u8; 4]>),
    Float(Vec<u32>),
    Vec2(Vec<[u32; 2]>),
    Vec3(Vec<[u32; 3]>),
    Vec4(Vec<[u32; 4]>),
    Int(Vec<i32>),
    IntVec2(Vec<[i32; 2]>),
    IntVec3(Vec<[i32; 3]>),
    IntVec4(Vec<[i32; 4]>),
    UnsignedInt(Vec<u32>),
    UnsignedIntVec2(Vec<[u32; 2]>),
    UnsignedIntVec3(Vec<[u32; 3]>),
    UnsignedIntVec4(Vec<[u32; 4]>),
    Short(Vec<i16>),
    ShortVec2(Vec<[i16; 2]>),
    ShortVec3(Vec<[i16; 3]>),
    ShortVec4(Vec<[i16; 4]>),
    UnsignedShort(Vec<u16>),
    UnsignedShortVec2(Vec<[u16; 2]>),
    UnsignedShortVec3(Vec<[u16; 3]>),
    UnsignedShortVec4(Vec<[u16; 4]>),
    Mat2(Vec<[u32; 4]>),
    Mat3(Vec<[u32; 9]>),
    Mat4(Vec<[u32; 16]>),
}

impl Data {
    /// Number of vertices (or instances) stored.
    pub open spec fn spec_count(self) -> int {
        match self {
            Data::Byte(d) => d.len() as int,
            Data::ByteVec2(d) => d.len() as int,
            Data::ByteVec3(d) => d.len() as int,
            Data::ByteVec4(d) => d.len() as int,
            Data::UnsignedByte(d) => d.len() as int,
            Data::UnsignedByteVec2(d) => d.len() as int,
            Data::UnsignedByteVec3(d) => d.len() as int,
            Data::UnsignedByteVec4(d) => d.len() as int,
            Data::Float(d) => d.len() as int,
            Data::Vec2(d) => d.len() as int,
            Data::Vec3(d) => d.len() as int,
            Data::Vec4(d) => d.len() as int,
            Data::Int(d) => d.len() as int,
            Data::IntVec2(d) => d.len() as int,
            Data::IntVec3(d) => d.len() as int,
            Data::IntVec4(d) => d.len() as int,
            Data::UnsignedInt(d) => d.len() as int,
            Data::UnsignedIntVec2(d) => d.len() as int,
            Data::UnsignedIntVec3(d) => d.len() as int,
            Data::UnsignedIntVec4(d) => d.len() as int,
            Data::Short(d) => d.len() as int,
            Data::ShortVec2(d) => d.len() as int,
            Data::ShortVec3(d) => d.len() as int,
            Data::ShortVec4(d) => d.len() as int,
            Data::UnsignedShort(d) => d.len() as int,
            Data::UnsignedShortVec2(d) => d.len() as int,
            Data::UnsignedShortVec3(d) => d.len() as int,
            Data::UnsignedShortVec4(d) => d.len() as int,
            Data::Mat2(d) => d.len() as int,
            Data::Mat3(d) => d.len() as int,
            Data::Mat4(d) => d.len() as int,
        }
    }

    /// Number of scalar components per vertex (a matrix counts all its cells).
    pub open spec fn spec_component_count(self) -> int {
        match self {
            Data::Byte(_) => 1,
            Data::ByteVec2(_) => 2,
            Data::ByteVec3(_) => 3,
            Data::ByteVec4(_) => 4,
            Data::UnsignedByte(_) => 1,
            Data::UnsignedByteVec2(_) => 2,
            Data::UnsignedByteVec3(_) => 3,
            Data::UnsignedByteVec4(_) => 4,
            Data::Float(_) => 1,
            Data::Vec2(_) => 2,
            Data::Vec3(_) => 3,
            Data::Vec4(_) => 4,
            Data::Int(_) => 1,
            Data::IntVec2(_) => 2,
            Data::IntVec3(_) => 3,
            Data::IntVec4(_) => 4,
            Data::UnsignedInt(_) => 1,
            Data::UnsignedIntVec2(_) => 2,
            Data::UnsignedIntVec3(_) => 3,
            Data::UnsignedIntVec4(_) => 4,
            Data::Short(_) => 1,
            Data::ShortVec2(_) => 2,
            Data::ShortVec3(_) => 3,
            Data::ShortVec4(_) => 4,
            Data::UnsignedShort(_) => 1,
            Data::UnsignedShortVec2(_) => 2,
            Data::UnsignedShortVec3(_) => 3,
            Data::UnsignedShortVec4(_) => 4,
            Data::Mat2(_) => 4,
            Data::Mat3(_) => 9,
            Data::Mat4(_) => 16,
        }
    }

    /// Scalar type of this attribute's components.
    pub open spec fn spec_component_type(self) -> VertexComponentType {
        match self {
            Data::Byte(_) => VertexComponentType::Byte,
            Data::ByteVec2(_) => VertexComponentType::Byte,
            Data::ByteVec3(_) => VertexComponentType::Byte,
            Data::ByteVec4(_) => VertexComponentType::Byte,
            Data::UnsignedByte(_) => VertexComponentType::UnsignedByte,
            Data::UnsignedByteVec2(_) => VertexComponentType::UnsignedByte,
            Data::UnsignedByteVec3(_) => VertexComponentType::UnsignedByte,
            Data::UnsignedByteVec4(_) => VertexComponentType::UnsignedByte,
            Data::Float(_) => VertexComponentType::Float,
            Data::Vec2(_) => VertexComponentType::Float,
            Data::Vec3(_) => VertexComponentType::Float,
            Data::Vec4(_) => VertexComponentType::Float,
            Data::Int(_) => VertexComponentType::Int,
            Data::IntVec2(_) => VertexComponentType::Int,
            Data::IntVec3(_) => VertexComponentType::Int,
            Data::IntVec4(_) => VertexComponentType::Int,
            Data::UnsignedInt(_) => VertexComponentType::UnsignedInt,
            Data::UnsignedIntVec2(_) => VertexComponentType::UnsignedInt,
            Data::UnsignedIntVec3(_) => VertexComponentType::UnsignedInt,
            Data::UnsignedIntVec4(_) => VertexComponentType::UnsignedInt,
            Data::Short(_) => VertexComponentType::Short,
            Data::ShortVec2(_) => VertexComponentType::Short,
            Data::ShortVec3(_) => VertexComponentType::Short,
            Data::ShortVec4(_) => VertexComponentType::Short,
            Data::UnsignedShort(_) => VertexComponentType::UnsignedShort,
            Data::UnsignedShortVec2(_) => VertexComponentType::UnsignedShort,
            Data::UnsignedShortVec3(_) => VertexComponentType::UnsignedShort,
            Data::UnsignedShortVec4(_) => VertexComponentType::UnsignedShort,
            Data::Mat2(_) => VertexComponentType::Float,
            Data::Mat3(_) => VertexComponentType::Float,
            Data::Mat4(_) => VertexComponentType::Float,
        }
    }

    /// Attribute binding columns this attribute occupies: matrices take one
    /// per matrix column, everything else takes one.
    pub open spec fn spec_number_of_columns(self) -> int {
        match self {
            Data::Mat2(_) => 2,
            Data::Mat3(_) => 3,
            Data::Mat4(_) => 4,
            _ => 1,
        }
    }

    /// Serialized byte width of one vertex's element of this attribute.
    pub open spec fn spec_size_in_bytes(self) -> int {
        self.spec_component_count() * self.spec_component_type().spec_size_in_bytes()
    }

    pub fn count(&self) -> (n: usize)
        ensures
            n == self.spec_count(),
    {
        match self {
            Data::Byte(d) => d.len(),
            Data::ByteVec2(d) => d.len(),
            Data::ByteVec3(d) => d.len(),
            Data::ByteVec4(d) => d.len(),
            Data::UnsignedByte(d) => d.len(),
            Data::UnsignedByteVec2(d) => d.len(),
            Data::UnsignedByteVec3(d) => d.len(),
            Data::UnsignedByteVec4(d) => d.len(),
            Data::Float(d) => d.len(),
            Data::Vec2(d) => d.len(),
            Data::Vec3(d) => d.len(),
            Data::Vec4(d) => d.len(),
            Data::Int(d) => d.len(),
            Data::IntVec2(d) => d.len(),
            Data::IntVec3(d) => d.len(),
            Data::IntVec4(d) => d.len(),
            Data::UnsignedInt(d) => d.len(),
            Data::UnsignedIntVec2(d) => d.len(),
            Data::UnsignedIntVec3(d) => d.len(),
            Data::UnsignedIntVec4(d) => d.len(),
            Data::Short(d) => d.len(),
            Data::ShortVec2(d) => d.len(),
            Data::ShortVec3(d) => d.len(),
            Data::ShortVec4(d) => d.len(),
            Data::UnsignedShort(d) => d.len(),
            Data::UnsignedShortVec2(d) => d.len(),
            Data::UnsignedShortVec3(d) => d.len(),
            Data::UnsignedShortVec4(d) => d.len(),
            Data::Mat2(d) => d.len(),
            Data::Mat3(d) => d.len(),
            Data::Mat4(d) => d.len(),
        }
    }

    pub fn component_count(&self) -> (n: u8)
        ensures
            n == self.spec_component_count(),
    {
        match self {
            Data::Byte(_) => 1,
            Data::ByteVec2(_) => 2,
            Data::ByteVec3(_) => 3,
            Data::ByteVec4(_) => 4,
            Data::UnsignedByte(_) => 1,
            Data::UnsignedByteVec2(_) => 2,
            Data::UnsignedByteVec3(_) => 3,
            Data::UnsignedByteVec4(_) => 4,
            Data::Float(_) => 1,
            Data::Vec2(_) => 2,
            Data::Vec3(_) => 3,
            Data::Vec4(_) => 4,
            Data::Int(_) => 1,
            Data::IntVec2(_) => 2,
            Data::IntVec3(_) => 3,
            Data::IntVec4(_) => 4,
            Data::UnsignedInt(_) => 1,
            Data::UnsignedIntVec2(_) => 2,
            Data::UnsignedIntVec3(_) => 3,
            Data::UnsignedIntVec4(_) => 4,
            Data::Short(_) => 1,
            Data::ShortVec2(_) => 2,
            Data::ShortVec3(_) => 3,
            Data::ShortVec4(_) => 4,
            Data::UnsignedShort(_) => 1,
            Data::UnsignedShortVec2(_) => 2,
            Data::UnsignedShortVec3(_) => 3,
            Data::UnsignedShortVec4(_) => 4,
            Data::Mat2(_) => 4,
            Data::Mat3(_) => 9,
            Data::Mat4(_) => 16,
        }
    }

    pub fn component_type(&self) -> (t: VertexComponentType)
        ensures
            t == self.spec_component_type(),
    {
        match self {
            Data::Byte(_) => VertexComponentType::Byte,
            Data::ByteVec2(_) => VertexComponentType::Byte,
            Data::ByteVec3(_) => VertexComponentType::Byte,
            Data::ByteVec4(_) => VertexComponentType::Byte,
            Data::UnsignedByte(_) => VertexComponentType::UnsignedByte,
            Data::UnsignedByteVec2(_) => VertexComponentType::UnsignedByte,
            Data::UnsignedByteVec3(_) => VertexComponentType::UnsignedByte,
            Data::UnsignedByteVec4(_) => VertexComponentType::UnsignedByte,
            Data::Float(_) => VertexComponentType::Float,
            Data::Vec2(_) => VertexComponentType::Float,
            Data::Vec3(_) => VertexComponentType::Float,
            Data::Vec4(_) => VertexComponentType::Float,
            Data::Int(_) => VertexComponentType::Int,
            Data::IntVec2(_) => VertexComponentType::Int,
            Data::IntVec3(_) => VertexComponentType::Int,
            Data::IntVec4(_) => VertexComponentType::Int,
            Data::UnsignedInt(_) => VertexComponentType::UnsignedInt,
            Data::UnsignedIntVec2(_) => VertexComponentType::UnsignedInt,
            Data::UnsignedIntVec3(_) => VertexComponentType::UnsignedInt,
            Data::UnsignedIntVec4(_) => VertexComponentType::UnsignedInt,
            Data::Short(_) => VertexComponentType::Short,
            Data::ShortVec2(_) => VertexComponentType::Short,
            Data::ShortVec3(_) => VertexComponentType::Short,
            Data::ShortVec4(_) => VertexComponentType::Short,
            Data::UnsignedShort(_) => VertexComponentType::UnsignedShort,
            Data::UnsignedShortVec2(_) => VertexComponentType::UnsignedShort,
            Data::UnsignedShortVec3(_) => VertexComponentType::UnsignedShort,
            Data::UnsignedShortVec4(_) => VertexComponentType::UnsignedShort,
            Data::Mat2(_) => VertexComponentType::Float,
            Data::Mat3(_) => VertexComponentType::Float,
            Data::Mat4(_) => VertexComponentType::Float,
        }
    }

    pub fn number_of_columns(&self) -> (n: u8)
        ensures
            n == self.spec_number_of_columns(),
    {
        match self {
            Data::Mat2(_) => 2,
            Data::Mat3(_) => 3,
            Data::Mat4(_) => 4,
            _ => 1,
        }
    }

    pub fn size_in_bytes(&self) -> (size: usize)
        ensures
            size == self.spec_size_in_bytes(),
    {
        let cc = self.component_count() as usize;
        let s = self.component_type().size_in_bytes() as usize;
        proof {
            assert(cc * s <= 64) by (nonlinear_arith)
                requires
                    cc <= 16,
                    s <= 4,
                    cc >= 0,
                    s >= 0,
            ;
        }
        cc * s
    }
}

impl Data {
    /// Component `c` of vertex `v`, as its bit pattern widened to 32 bits.
    ///
    /// Little-endian serialization of the stored scalar equals little-endian
    /// serialization of this value truncated to the component's byte width, so
    /// the packing engine only ever deals in `u32` words.
    pub open spec fn spec_component_bits(self, v: int, c: int) -> u32 {
        match self {
            Data::Byte(d) => d[v] as u8 as u32,
            Data::ByteVec2(d) => d[v][c] as u8 as u32,
            Data::ByteVec3(d) => d[v][c] as u8 as u32,
            Data::ByteVec4(d) => d[v][c] as u8 as u32,
            Data::UnsignedByte(d) => d[v] as u32,
            Data::UnsignedByteVec2(d) => d[v][c] as u32,
            Data::UnsignedByteVec3(d) => d[v][c] as u32,
            Data::UnsignedByteVec4(d) => d[v][c] as u32,
            Data::Float(d) => d[v],
            Data::Vec2(d) => d[v][c],
            Data::Vec3(d) => d[v][c],
            Data::Vec4(d) => d[v][c],
            Data::Int(d) => d[v] as u32,
            Data::IntVec2(d) => d[v][c] as u32,
            Data::IntVec3(d) => d[v][c] as u32,
            Data::IntVec4(d) => d[v][c] as u32,
            Data::UnsignedInt(d) => d[v],
            Data::UnsignedIntVec2(d) => d[v][c],
            Data::UnsignedIntVec3(d) => d[v][c],
            Data::UnsignedIntVec4(d) => d[v][c],
            Data::Short(d) => d[v] as u16 as u32,
            Data::ShortVec2(d) => d[v][c] as u16 as u32,
            Data::ShortVec3(d) => d[v][c] as u16 as u32,
            Data::ShortVec4(d) => d[v][c] as u16 as u32,
            Data::UnsignedShort(d) => d[v] as u32,
            Data::UnsignedShortVec2(d) => d[v][c] as u32,
            Data::UnsignedShortVec3(d) => d[v][c] as u32,
            Data::UnsignedShortVec4(d) => d[v][c] as u32,
            Data::Mat2(d) => d[v][c],
            Data::Mat3(d) => d[v][c],
            Data::Mat4(d) => d[v][c],
        }
    }

    /// Every component's bit pattern fits the byte width of its scalar type.
    pub proof fn lemma_component_bits_bound(self, v: int, c: int)
        ensures
            self.spec_component_bits(v, c)
                < pow256(self.spec_component_type().spec_size_in_bytes() as nat),
    {
        crate::codec::lemma_pow256_values();
    }

    pub fn component_bits(&self, v: usize, c: usize) -> (bits: u32)
        requires
            v < self.spec_count(),
            c < self.spec_component_count(),
        ensures
            bits == self.spec_component_bits(v as int, c as int),
    {
        match self {
            Data::Byte(d) => d[v] as u8 as u32,
            Data::ByteVec2(d) => d[v][c] as u8 as u32,
            Data::ByteVec3(d) => d[v][c] as u8 as u32,
            Data::ByteVec4(d) => d[v][c] as u8 as u32,
            Data::UnsignedByte(d) => d[v] as u32,
            Data::UnsignedByteVec2(d) => d[v][c] as u32,
            Data::UnsignedByteVec3(d) => d[v][c] as u32,
            Data::UnsignedByteVec4(d) => d[v][c] as u32,
            Data::Float(d) => d[v],
            Data::Vec2(d) => d[v][c],
            Data::Vec3(d) => d[v][c],
            Data::Vec4(d) => d[v][c],
            Data::Int(d) => d[v] as u32,
            Data::IntVec2(d) => d[v][c] as u32,
            Data::IntVec3(d) => d[v][c] as u32,
            Data::IntVec4(d) => d[v][c] as u32,
            Data::UnsignedInt(d) => d[v],
            Data::UnsignedIntVec2(d) => d[v][c],
            Data::UnsignedIntVec3(d) => d[v][c],
            Data::UnsignedIntVec4(d) => d[v][c],
            Data::Short(d) => d[v] as u16 as u32,
            Data::ShortVec2(d) => d[v][c] as u16 as u32,
            Data::ShortVec3(d) => d[v][c] as u16 as u32,
            Data::ShortVec4(d) => d[v][c] as u16 as u32,
            Data::UnsignedShort(d) => d[v] as u32,
            Data::UnsignedShortVec2(d) => d[v][c] as u32,
            Data::UnsignedShortVec3(d) => d[v][c] as u32,
            Data::UnsignedShortVec4(d) => d[v][c] as u32,
            Data::Mat2(d) => d[v][c],
            Data::Mat3(d) => d[v][c],
            Data::Mat4(d) => d[v][c],
        }
    }

    /// Byte `k` of the serialized element of vertex `v`: byte `k % size` of
    /// the little-endian encoding of component `k / size`.
    pub open spec fn spec_elem_byte(self, v: int, k: int) -> u8 {
        let s = self.spec_component_type().spec_size_in_bytes();
        le_byte(self.spec_component_bits(v, k / s) as int, (k % s) as nat)
    }

    /// The serialized bytes of vertex `v`'s element: the components'
    /// little-endian encodings, in component order.
    pub open spec fn spec_element_bytes(self, v: int) -> Seq<u8> {
        Seq::new(self.spec_size_in_bytes() as nat, |k: int| self.spec_elem_byte(v, k))
    }

    /// The tightly packed serialization of the whole attribute array: every
    /// vertex's element bytes in vertex order, with no padding.
    pub open spec fn spec_packed_bytes(self) -> Seq<u8> {
        let e = self.spec_size_in_bytes();
        Seq::new((self.spec_count() * e) as nat, |p: int| self.spec_elem_byte(p / (e as int), p % (e as int)))
    }

    /// Writes the serialized element of vertex `v` at `bytes[at ..]`, leaving
    /// every byte outside that window unchanged.
    pub fn write_element(&self, v: usize, bytes: &mut Vec<u8>, at: usize)
        requires
            v < self.spec_count(),
            at + self.spec_size_in_bytes() <= old(bytes).len(),
        ensures
            final(bytes).len() == old(bytes).len(),
            forall|i: int|
                at <= i < at + self.spec_size_in_bytes() ==> #[trigger] final(bytes)[i]
                    == self.spec_elem_byte(v as int, i - at),
            forall|i: int|
                0 <= i < old(bytes).len() && !(at <= i < at + self.spec_size_in_bytes())
                    ==> final(bytes)[i] == old(bytes)[i],
    {
        let cc = self.component_count() as usize;
        let s = self.component_type().size_in_bytes() as usize;
        let ghost elem = self.spec_size_in_bytes();
        let mut c: usize = 0;
        while c < cc
            invariant
                cc == self.spec_component_count(),
                s == self.spec_component_type().spec_size_in_bytes(),
                elem == self.spec_size_in_bytes(),
                v < self.spec_count(),
                c <= cc,
                at + elem <= bytes.len(),
                bytes.len() == old(bytes).len(),
                forall|i: int|
                    at <= i < at + c * s ==> #[trigger] bytes[i] == self.spec_elem_byte(
                        v as int,
                        i - at,
                    ),
                forall|i: int|
                    0 <= i < old(bytes).len() && !(at <= i < at + elem) ==> bytes[i] == old(
                        bytes,
                    )[i],
            decreases cc - c,
        {
            proof {
                lemma_mul_inequality(c + 1, cc as int, s as int);
                self.lemma_component_bits_bound(v as int, c as int);
            }
            let bits = self.component_bits(v, c);
            write_scalar_le(bytes, at + c * s, bits, s);
            proof {
                assert forall|i: int| at <= i < at + (c + 1) * s implies #[trigger] bytes[i]
                    == self.spec_elem_byte(v as int, i - at) by {
                    let k = i - at;
                    if k >= c * s {
                        lemma_fundamental_div_mod_converse(k, s as int, c as int, k - c * s);
                    }
                }
            }
            c = c + 1;
        }
    }

    /// The tightly packed byte buffer for this attribute array, exactly
    /// `count * size_in_bytes` bytes of consecutive little-endian elements.
    pub fn to_bytes(&self) -> (bytes: Vec<u8>)
        requires
            self.spec_count() * self.spec_size_in_bytes() <= usize::MAX,
        ensures
            bytes@ == self.spec_packed_bytes(),
    {
        let count = self.count();
        let e = self.size_in_bytes();
        proof {
            if count > 0 {
                lemma_mul_inequality(1, count as int, e as int);
            }
            lemma_mul_inequality(count as int, count as int, e as int);
        }
        let total = count * e;
        let mut bytes = zeroed(total);
        let mut v: usize = 0;
        while v < count
            invariant
                count == self.spec_count(),
                e == self.spec_size_in_bytes(),
                total == count * e,
                v <= count,
                bytes.len() == total,
                forall|p: int|
                    0 <= p < v * e ==> #[trigger] bytes[p] == self.spec_elem_byte(p / (e as int), p % (e as int)),
            decreases count - v,
        {
            proof {
                lemma_mul_inequality(v + 1, count as int, e as int);
                assert((v + 1) * (e as int) == v * (e as int) + e) by (nonlinear_arith);
            }
            self.write_element(v, &mut bytes, v * e);
            proof {
                assert forall|p: int| 0 <= p < (v + 1) * e implies #[trigger] bytes[p]
                    == self.spec_elem_byte(p / (e as int), p % (e as int)) by {
                    if p >= v * e {
                        lemma_fundamental_div_mod_converse(p, e as int, v as int, p - v * e);
                    }
                }
            }
            v = v + 1;
        }
        proof {
            assert(bytes@ =~= self.spec_packed_bytes());
        }
        bytes
    }
}

impl Data {
    /// Round trip at the element level: decoding the `size`-byte window of
    /// component `c` inside vertex `v`'s serialized element gives back the
    /// component's bit pattern exactly.
    pub proof fn lemma_element_round_trip(self, v: int, c: int)
        requires
            0 <= v < self.spec_count(),
            0 <= c < self.spec_component_count(),
        ensures
            ({
                let s = self.spec_component_type().spec_size_in_bytes();
                crate::codec::scalar_of_le(
                    self.spec_element_bytes(v).subrange(c * s, c * s + s),
                ) == self.spec_component_bits(v, c)
            }),
    {
        let s = self.spec_component_type().spec_size_in_bytes();
        let e = self.spec_size_in_bytes();
        let bits = self.spec_component_bits(v, c);
        let window = self.spec_element_bytes(v).subrange(c * s, c * s + s);
        lemma_mul_inequality(c + 1, self.spec_component_count(), s);
        assert((c + 1) * s == c * s + s) by (nonlinear_arith);
        assert(self.spec_component_count() * s == e);
        vstd::arithmetic::mul::lemma_mul_nonnegative(c, s);
        assert forall|j: int| 0 <= j < s implies window[j] == crate::codec::le_byte(
            bits as int,
            j as nat,
        ) by {
            lemma_fundamental_div_mod_converse(c * s + j, s, c, j);
        }
        assert(window =~= crate::codec::le_bytes_of(bits as int, s as nat));
        self.lemma_component_bits_bound(v, c);
        crate::codec::lemma_le_round_trip(bits as int, s as nat);
    }

    /// Round trip through the tightly packed buffer: reading component `c`
    /// of vertex `v` back from its computed offset reproduces the value that
    /// was serialized, bit-exactly.
    pub proof fn lemma_packed_round_trip(self, v: int, c: int)
        requires
            0 <= v < self.spec_count(),
            0 <= c < self.spec_component_count(),
        ensures
            ({
                let s = self.spec_component_type().spec_size_in_bytes();
                let e = self.spec_size_in_bytes();
                crate::codec::scalar_of_le(
                    self.spec_packed_bytes().subrange(v * e + c * s, v * e + c * s + s),
                ) == self.spec_component_bits(v, c)
            }),
    {
        let s = self.spec_component_type().spec_size_in_bytes();
        let e = self.spec_size_in_bytes();
        let start = v * e + c * s;
        lemma_mul_inequality(c + 1, self.spec_component_count(), s);
        assert((c + 1) * s == c * s + s) by (nonlinear_arith);
        assert(self.spec_component_count() * s == e);
        vstd::arithmetic::mul::lemma_mul_nonnegative(c, s);
        vstd::arithmetic::mul::lemma_mul_nonnegative(v, e);
        lemma_mul_inequality(v + 1, self.spec_count(), e);
        assert((v + 1) * e == v * e + e) by (nonlinear_arith);
        let packed_window = self.spec_packed_bytes().subrange(start, start + s);
        let elem_window = self.spec_element_bytes(v).subrange(c * s, c * s + s);
        assert forall|j: int| 0 <= j < s implies packed_window[j] == elem_window[j] by {
            lemma_fundamental_div_mod_converse(start + j, e, v, c * s + j);
        }
        assert(packed_window =~= elem_window);
        self.lemma_element_round_trip(v, c);
    }
}

/// A named attribute stream handed to the layout and packing steps.
pub struct VertexData {
    pub name: String,
    pub data: Data,
    pub divisor: u32,
    pub normalize: bool,
}

impl VertexData {
    /// A per-vertex (divisor 0), non-normalized attribute.
    pub fn new(name: &str, data: Data) -> (v: VertexData)
        ensures
            v.name@ == name@,
            v.data == data,
            v.divisor == 0,
            v.normalize == false,
    {
        VertexData { name: name.to_owned(), data, divisor: 0, normalize: false }
    }
}

} // verus!
