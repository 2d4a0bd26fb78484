//! The attribute-binding side of a material.
//!
//! Shader compilation, linking and uniform upload run against the graphics
//! context outside this crate. What is verified here is the one piece of
//! binding logic with real invariants: how a layout entry is turned into the
//! per-slot binding calls the device needs. A matrix attribute occupies
//! `number_of_columns` consecutive binding slots, each taking
//! `component_count / number_of_columns` components at offsets spaced one
//! column apart; every other attribute takes a single slot.
use vstd::prelude::*;

use crate::attributes::VertexComponentType;
use crate::layout::VertexLayout;
use vstd::arithmetic::mul::lemma_mul_inequality;

verus! {

/// Fatal shader-program failures surfaced to the caller.
#[derive(Debug)]
pub enum MaterialError {
    ProgramCreationFailed,
    ProgramLinkingFailed(Option<String>),
    ShaderCreationFailed,
    ShaderCompilationFailed(Option<String>),
}

/// One `vertex_attrib_pointer`-shaped binding: a single attribute slot.
#[derive(Clone, Debug)]
pub struct AttributeBinding {
    pub location: u32,
    pub component_count: u8,
    pub component_type: VertexComponentType,
    pub normalize: bool,
    pub stride: usize,
    pub offset: usize,
    pub divisor: u32,
}

/// Splits one layout entry into its per-slot bindings, starting at
/// `location`.
///
/// A non-matrix attribute yields one binding that mirrors the entry. A
/// matrix attribute yields one binding per column: column `c` binds
/// `component_count / number_of_columns` components at
/// `offset + c * (component_count / number_of_columns) * component_size`,
/// from slot `location + c`. Every slot shares the entry's stride, divisor
/// and normalization.
pub fn column_bindings(location: u32, layout: &VertexLayout) -> (bindings: Vec<AttributeBinding>)
    requires
        1 <= layout.number_of_columns,
        layout.number_of_columns as int <= layout.component_count as int,
        layout.component_count as int % layout.number_of_columns as int == 0,
        location + layout.number_of_columns <= u32::MAX,
        layout.offset + layout.component_count as int
            * layout.component_type.spec_size_in_bytes() <= usize::MAX,
    ensures
        bindings.len() == layout.number_of_columns,
        forall|c: int|
            0 <= c < layout.number_of_columns ==> {
                let binding = #[trigger] bindings[c];
                let per_column = layout.component_count as int / layout.number_of_columns as int;
                &&& binding.location == location + c
                &&& binding.component_count == per_column
                &&& binding.component_type == layout.component_type
                &&& binding.normalize == layout.normalize
                &&& binding.stride == layout.stride
                &&& binding.offset == layout.offset + c * per_column
                    * layout.component_type.spec_size_in_bytes()
                &&& binding.divisor == layout.divisor
            },
{
    let ncols = layout.number_of_columns;
    let per_column = layout.component_count / ncols;
    let size = layout.component_type.size_in_bytes();
    let ghost cc = layout.component_count as int;
    let ghost pc = per_column as int;
    let ghost s = layout.component_type.spec_size_in_bytes();
    proof {
        vstd::arithmetic::div_mod::lemma_fundamental_div_mod(cc, ncols as int);
        assert(cc == ncols as int * pc);
    }
    let mut bindings: Vec<AttributeBinding> = Vec::new();
    let mut c: u8 = 0;
    while c < ncols
        invariant
            ncols == layout.number_of_columns,
            1 <= ncols,
            pc == per_column as int,
            pc == cc / (ncols as int),
            cc == layout.component_count as int,
            cc == ncols as int * pc,
            s == layout.component_type.spec_size_in_bytes(),
            size as int == s,
            location + ncols <= u32::MAX,
            layout.offset + cc * s <= usize::MAX,
            c <= ncols,
            bindings.len() == c,
            forall|k: int|
                0 <= k < c ==> {
                    let binding = #[trigger] bindings[k];
                    &&& binding.location == location + k
                    &&& binding.component_count == pc
                    &&& binding.component_type == layout.component_type
                    &&& binding.normalize == layout.normalize
                    &&& binding.stride == layout.stride
                    &&& binding.offset == layout.offset + k * pc * s
                    &&& binding.divisor == layout.divisor
                },
        decreases ncols - c,
    {
        proof {
            assert(c as int * pc * s + pc * s == (c + 1) as int * pc * s) by (nonlinear_arith);
            assert((c + 1) as int * pc * s <= cc * s) by (nonlinear_arith)
                requires
                    (c + 1) as int <= ncols as int,
                    cc == ncols as int * pc,
                    pc >= 0,
                    s >= 0,
            ;
            assert(c as int * pc * s >= 0) by (nonlinear_arith)
                requires
                    c as int >= 0,
                    pc >= 0,
                    s >= 0,
            ;
        }
        let column_offset = layout.offset + (c as usize) * (per_column as usize) * (size as usize);
        bindings.push(
            AttributeBinding {
                location: location + c as u32,
                component_count: per_column,
                component_type: layout.component_type,
                normalize: layout.normalize,
                stride: layout.stride,
                offset: column_offset,
                divisor: layout.divisor,
            },
        );
        c = c + 1;
    }
    bindings
}

} // verus!
