//! The foreign runtime's binary interface: the type tag, the per-dimension
//! entry, and the top-level buffer record.
//!
//! These three records mirror, field for field, the structures that the
//! Halide runtime reads at its call boundary. Pointer-sized fields that the
//! runtime treats as addresses (`host`) or as nullable pointers
//! (`device_interface`, `padding`) are held here as plain `usize` values, with
//! `0` standing for null; the raw pointers themselves exist only at the call
//! boundary, outside the verified library.

use vstd::prelude::*;

verus! {

/// The kind of a scalar element, as the foreign runtime classifies it:
/// signed integer, unsigned integer, or floating point.
#[derive(Clone, Copy, Debug, PartialEq, Eq, Structural)]
pub enum HalideTypeCode {
    Int,
    Uint,
    Float,
}

/// The numeric code the foreign runtime assigns to each type kind.
pub open spec fn spec_code_value(c: HalideTypeCode) -> u8 {
    match c {
        HalideTypeCode::Int => 0,
        HalideTypeCode::Uint => 1,
        HalideTypeCode::Float => 2,
    }
}

/// Returns the foreign runtime's numeric code for a type kind.
pub fn code_value(c: HalideTypeCode) -> (v: u8)
    ensures
        v == spec_code_value(c),
{
    match c {
        HalideTypeCode::Int => 0,
        HalideTypeCode::Uint => 1,
        HalideTypeCode::Float => 2,
    }
}

/// The element type tag: kind code, bit width, and packed lane count.
#[allow(non_camel_case_types)]
#[derive(Clone, Copy, Debug, PartialEq, Eq, Structural)]
pub struct halide_type_t {
    pub code: u8,
    pub bits: u8,
    pub lanes: u16,
}

/// One per array axis: start offset, element count, stride in element units,
/// and reserved flags. Entries are stored in reversed axis order relative to
/// the source view (axis 0 of the view becomes the last entry).
#[allow(non_camel_case_types)]
#[derive(Clone, Copy, Debug, PartialEq, Eq, Structural)]
pub struct halide_dimension_t {
    pub min: i32,
    pub extent: i32,
    pub stride: i32,
    pub flags: u32,
}

/// The top-level buffer record handed to a foreign kernel.
///
/// The runtime's record carries one further field, `dim`, a raw pointer to
/// the dimension table of length `dimensions`. That table is owned by the
/// `BufferWrapper` that owns this record, and the pointer into its stable
/// storage is produced only at the call boundary.
#[allow(non_camel_case_types)]
#[derive(Clone, Copy, Debug, PartialEq, Eq, Structural)]
pub struct halide_buffer_t {
    /// Device handle; always 0 here (host-only buffers).
    pub device: u64,
    /// Device interface pointer; always 0 (null) here.
    pub device_interface: usize,
    /// Address of the first element of the underlying storage.
    pub host: usize,
    /// Reserved flag bits; always 0 here.
    pub flags: u64,
    /// The element type tag.
    pub type_: halide_type_t,
    /// Number of axes, equal to the length of the dimension table.
    pub dimensions: i32,
    /// Trailing padding pointer; always 0 (null) here.
    pub padding: usize,
}

} // verus!
