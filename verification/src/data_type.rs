//! The element-type registry: a closed, compile-time mapping from supported
//! scalar element types to the foreign runtime's type tag.
//!
//! Each supported element type implements [`DataType`]; requesting a tag for
//! any other type fails to compile, so there is no runtime fallback or
//! "unknown type" case. The floating-point element types the runtime also
//! recognizes (32- and 64-bit floats, with codes built from
//! `HalideTypeCode::Float`) cannot carry an implementation inside the
//! verified library and are left to its unverified surroundings.

use vstd::prelude::*;

use crate::abi::code_value;
use crate::abi::halide_type_t;
use crate::abi::spec_code_value;
use crate::abi::HalideTypeCode;

verus! {

/// A scalar element type the foreign runtime recognizes.
///
/// `type_code` gives the runtime's kind (signed, unsigned, float),
/// `bits` the element's width in bits, and `lanes` the packed lane count,
/// always 1 (no vectorized elements).
pub trait DataType {
    /// The kind of this element type.
    spec fn spec_type_code() -> HalideTypeCode;

    /// The width of this element type, in bits.
    spec fn spec_bits() -> u8;

    /// Returns the kind of this element type.
    fn type_code() -> (c: HalideTypeCode)
        ensures
            c == Self::spec_type_code(),
    ;

    /// Returns the width of this element type, in bits.
    fn bits() -> (b: u8)
        ensures
            b == Self::spec_bits(),
    ;

    /// Returns the packed lane count, 1 for every supported type.
    fn lanes() -> (l: u16)
        ensures
            l == 1,
    {
        1
    }
}

impl DataType for i8 {
    open spec fn spec_type_code() -> HalideTypeCode {
        HalideTypeCode::Int
    }

    open spec fn spec_bits() -> u8 {
        8
    }

    fn type_code() -> (c: HalideTypeCode) {
        HalideTypeCode::Int
    }

    fn bits() -> (b: u8) {
        8
    }
}

impl DataType for i16 {
    open spec fn spec_type_code() -> HalideTypeCode {
        HalideTypeCode::Int
    }

    open spec fn spec_bits() -> u8 {
        16
    }

    fn type_code() -> (c: HalideTypeCode) {
        HalideTypeCode::Int
    }

    fn bits() -> (b: u8) {
        16
    }
}

impl DataType for i32 {
    open spec fn spec_type_code() -> HalideTypeCode {
        HalideTypeCode::Int
    }

    open spec fn spec_bits() -> u8 {
        32
    }

    fn type_code() -> (c: HalideTypeCode) {
        HalideTypeCode::Int
    }

    fn bits() -> (b: u8) {
        32
    }
}

impl DataType for i64 {
    open spec fn spec_type_code() -> HalideTypeCode {
        HalideTypeCode::Int
    }

    open spec fn spec_bits() -> u8 {
        64
    }

    fn type_code() -> (c: HalideTypeCode) {
        HalideTypeCode::Int
    }

    fn bits() -> (b: u8) {
        64
    }
}

impl DataType for u8 {
    open spec fn spec_type_code() -> HalideTypeCode {
        HalideTypeCode::Uint
    }

    open spec fn spec_bits() -> u8 {
        8
    }

    fn type_code() -> (c: HalideTypeCode) {
        HalideTypeCode::Uint
    }

    fn bits() -> (b: u8) {
        8
    }
}

impl DataType for u16 {
    open spec fn spec_type_code() -> HalideTypeCode {
        HalideTypeCode::Uint
    }

    open spec fn spec_bits() -> u8 {
        16
    }

    fn type_code() -> (c: HalideTypeCode) {
        HalideTypeCode::Uint
    }

    fn bits() -> (b: u8) {
        16
    }
}

impl DataType for u32 {
    open spec fn spec_type_code() -> HalideTypeCode {
        HalideTypeCode::Uint
    }

    open spec fn spec_bits() -> u8 {
        32
    }

    fn type_code() -> (c: HalideTypeCode) {
        HalideTypeCode::Uint
    }

    fn bits() -> (b: u8) {
        32
    }
}

impl DataType for u64 {
    open spec fn spec_type_code() -> HalideTypeCode {
        HalideTypeCode::Uint
    }

    open spec fn spec_bits() -> u8 {
        64
    }

    fn type_code() -> (c: HalideTypeCode) {
        HalideTypeCode::Uint
    }

    fn bits() -> (b: u8) {
        64
    }
}

/// The type tag the registry assigns to element type `T`.
pub open spec fn spec_halide_type_for<T: DataType>() -> halide_type_t {
    halide_type_t {
        code: spec_code_value(T::spec_type_code()),
        bits: T::spec_bits(),
        lanes: 1,
    }
}

/// Builds the foreign runtime's type tag for element type `T`.
pub fn halide_type_for<T: DataType>() -> (t: halide_type_t)
    ensures
        t == spec_halide_type_for::<T>(),
{
    halide_type_t { code: code_value(T::type_code()), bits: T::bits(), lanes: T::lanes() }
}

/// The registry's fixed table for the integer element types: each tag pairs
/// the runtime's kind code with the type's bit width, with a lane count of 1.
pub proof fn lemma_registry_table()
    ensures
        spec_halide_type_for::<i8>() == (halide_type_t { code: 0, bits: 8, lanes: 1 }),
        spec_halide_type_for::<i16>() == (halide_type_t { code: 0, bits: 16, lanes: 1 }),
        spec_halide_type_for::<i32>() == (halide_type_t { code: 0, bits: 32, lanes: 1 }),
        spec_halide_type_for::<i64>() == (halide_type_t { code: 0, bits: 64, lanes: 1 }),
        spec_halide_type_for::<u8>() == (halide_type_t { code: 1, bits: 8, lanes: 1 }),
        spec_halide_type_for::<u16>() == (halide_type_t { code: 1, bits: 16, lanes: 1 }),
        spec_halide_type_for::<u32>() == (halide_type_t { code: 1, bits: 32, lanes: 1 }),
        spec_halide_type_for::<u64>() == (halide_type_t { code: 1, bits: 64, lanes: 1 }),
{
}

} // verus!
