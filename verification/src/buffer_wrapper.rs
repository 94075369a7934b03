//! The descriptor bridge: builds a foreign-compatible buffer record over an
//! existing strided array view, without copying the data.
//!
//! A [`BufferWrapper`] owns the per-dimension table for the lifetime of the
//! descriptor, so the record's reference into it stays valid for the whole
//! foreign call; it does not own the array storage itself, only the address
//! of its first element.

use vstd::prelude::*;

use crate::abi::halide_buffer_t;
use crate::abi::halide_dimension_t;
use crate::abi::halide_type_t;
use crate::data_type::halide_type_for;
use crate::data_type::spec_halide_type_for;
use crate::data_type::DataType;

verus! {

/// A view's geometry fits the descriptor's 32-bit dimension fields:
/// one stride per axis, and every count in `i32` range.
pub open spec fn view_fits(shape: Seq<usize>, strides: Seq<isize>) -> bool {
    &&& shape.len() == strides.len()
    &&& shape.len() <= i32::MAX
    &&& forall|a: int| 0 <= a < shape.len() ==> #[trigger] shape[a] <= i32::MAX
    &&& forall|a: int|
        0 <= a < strides.len() ==> i32::MIN <= #[trigger] strides[a] <= i32::MAX
}

/// The dimension table holds the view's axes in reversed order: the entry at
/// index `len - 1 - a` describes axis `a` of the view, with `min` and `flags`
/// zero, the axis's extent, and its stride in element units.
pub open spec fn dims_reversed(
    dims: Seq<halide_dimension_t>,
    shape: Seq<usize>,
    strides: Seq<isize>,
) -> bool {
    &&& dims.len() == shape.len()
    &&& forall|a: int|
        0 <= a < shape.len() ==> {
            let entry = #[trigger] dims[shape.len() - 1 - a];
            &&& entry.min == 0
            &&& entry.extent == shape[a] as i32
            &&& entry.stride == strides[a] as i32
            &&& entry.flags == 0
        }
}

/// The wrapper holds a fully built descriptor for a view with the given
/// element type tag, base address, shape, and strides: a reversed dimension
/// table, and a top-level record that is host-only (`device`, interface and
/// padding null, flags clear) with the right tag, address, and axis count.
pub open spec fn descriptor_built(
    w: BufferWrapper,
    type_: halide_type_t,
    host: usize,
    shape: Seq<usize>,
    strides: Seq<isize>,
) -> bool {
    &&& dims_reversed(w.dims_seq(), shape, strides)
    &&& w.record() == (halide_buffer_t {
        device: 0,
        device_interface: 0,
        host: host,
        flags: 0,
        type_: type_,
        dimensions: shape.len() as i32,
        padding: 0,
    })
}

/// The element offset the source view assigns to logical index
/// `(idx[0], ..., idx[len-1])`: the sum over every axis `a` of
/// `idx[a] * strides[a]`, with strides in element units.
pub open spec fn view_offset(strides: Seq<isize>, idx: Seq<int>) -> int
    decreases idx.len(),
{
    if idx.len() == 0 {
        0
    } else {
        view_offset(strides.drop_last(), idx.drop_last()) + idx.last() * (strides.last() as int)
    }
}

/// The element offset the foreign runtime computes from a dimension table for
/// logical index `(idx[0], ..., idx[len-1])` in the view's native axis order:
/// table entry `j` describes axis `len - 1 - j`, and contributes
/// `(idx[len - 1 - j] - min) * stride`.
pub open spec fn table_offset(dims: Seq<halide_dimension_t>, idx: Seq<int>) -> int
    decreases dims.len(),
{
    if dims.len() == 0 {
        0
    } else {
        (idx.last() - dims[0].min) * (dims[0].stride as int) + table_offset(
            dims.skip(1),
            idx.drop_last(),
        )
    }
}

/// A reversed dimension table addresses exactly as the source view does:
/// for every logical index, the offset the foreign runtime computes from the
/// table equals the offset the view's native strides assign to that index.
pub proof fn lemma_reversed_table_addressing(
    dims: Seq<halide_dimension_t>,
    shape: Seq<usize>,
    strides: Seq<isize>,
    idx: Seq<int>,
)
    requires
        view_fits(shape, strides),
        dims_reversed(dims, shape, strides),
        idx.len() == shape.len(),
    ensures
        table_offset(dims, idx) == view_offset(strides, idx),
    decreases dims.len(),
{
    if dims.len() > 0 {
        let d = shape.len() as int;
        // The table's first entry describes the view's last axis.
        assert(dims[shape.len() - 1 - (d - 1)] == dims[0]);
        assert(dims[0].min == 0 && dims[0].stride == strides[d - 1] as i32);

        let sub_shape = shape.drop_last();
        let sub_strides = strides.drop_last();
        assert(dims_reversed(dims.skip(1), sub_shape, sub_strides)) by {
            assert forall|a: int| 0 <= a < sub_shape.len() implies {
                let entry = #[trigger] dims.skip(1)[sub_shape.len() - 1 - a];
                &&& entry.min == 0
                &&& entry.extent == sub_shape[a] as i32
                &&& entry.stride == sub_strides[a] as i32
                &&& entry.flags == 0
            } by {
                assert(dims.skip(1)[sub_shape.len() - 1 - a] == dims[shape.len() - 1 - a]);
            }
        }
        lemma_reversed_table_addressing(dims.skip(1), sub_shape, sub_strides, idx.drop_last());
    }
}

/// Round-trip addressing law for a built descriptor: reading or writing
/// through the descriptor's `host`/dimension-table scheme at a logical index
/// touches the same element offset from `host` that the source view assigns
/// to that index, for every index of the view's dimensionality.
pub proof fn lemma_descriptor_addresses_view(
    w: BufferWrapper,
    type_: halide_type_t,
    host: usize,
    shape: Seq<usize>,
    strides: Seq<isize>,
    idx: Seq<int>,
)
    requires
        view_fits(shape, strides),
        descriptor_built(w, type_, host, shape, strides),
        idx.len() == shape.len(),
    ensures
        table_offset(w.dims_seq(), idx) == view_offset(strides, idx),
{
    lemma_reversed_table_addressing(w.dims_seq(), shape, strides, idx);
}

/// Couples a buffer record with the dimension table it refers to.
///
/// The table is heap-owned by this wrapper and never moves or changes after
/// construction, so the record's reference into it stays stable for as long
/// as the wrapper lives; the wrapper must outlive any foreign call that was
/// handed the record.
pub struct BufferWrapper {
    dims: Vec<halide_dimension_t>,
    buffer_t: halide_buffer_t,
}

impl BufferWrapper {
    /// The dimension table, as the foreign runtime will read it.
    pub closed spec fn dims_seq(self) -> Seq<halide_dimension_t> {
        self.dims@
    }

    /// The top-level buffer record.
    pub closed spec fn record(self) -> halide_buffer_t {
        self.buffer_t
    }

    /// Builds a descriptor over a view of element type `T` whose storage
    /// starts at address `host`, with the given extents and element strides
    /// per axis in the view's native order.
    ///
    /// The view's memory must stay valid, and free of other readers and
    /// writers, for as long as the descriptor is in use; that is the
    /// caller's obligation, not checked here.
    pub fn new<T: DataType>(host: usize, shape: &Vec<usize>, strides: &Vec<isize>) -> (w: Self)
        requires
            view_fits(shape@, strides@),
        ensures
            descriptor_built(w, spec_halide_type_for::<T>(), host, shape@, strides@),
    {
        let dimensions: usize = shape.len();

        let mut dims: Vec<halide_dimension_t> = Vec::new();
        let mut entry_index: usize = 0;
        while entry_index < dimensions
            invariant
                view_fits(shape@, strides@),
                dimensions == shape@.len(),
                entry_index <= dimensions,
                dims@.len() == entry_index,
                forall|j: int|
                    0 <= j < entry_index ==> {
                        let entry = #[trigger] dims@[j];
                        &&& entry.min == 0
                        &&& entry.extent == shape@[dimensions - 1 - j] as i32
                        &&& entry.stride == strides@[dimensions - 1 - j] as i32
                        &&& entry.flags == 0
                    },
            decreases dimensions - entry_index,
        {
            // Reverse axis order: entry `entry_index` describes this axis.
            let axis: usize = dimensions - 1 - entry_index;
            dims.push(
                halide_dimension_t {
                    min: 0,
                    extent: shape[axis] as i32,
                    stride: strides[axis] as i32,
                    flags: 0,
                },
            );
            entry_index = entry_index + 1;
        }

        let buffer_wrapper = BufferWrapper {
            dims,
            buffer_t: halide_buffer_t {
                device: 0,
                device_interface: 0,
                host: host,
                flags: 0,
                type_: halide_type_for::<T>(),
                dimensions: dimensions as i32,
                padding: 0,
            },
        };

        proof {
            assert forall|a: int| 0 <= a < shape@.len() implies {
                let entry = #[trigger] buffer_wrapper.dims@[shape@.len() - 1 - a];
                &&& entry.min == 0
                &&& entry.extent == shape@[a] as i32
                &&& entry.stride == strides@[a] as i32
                &&& entry.flags == 0
            } by {
                assert(buffer_wrapper.dims@[shape@.len() - 1 - a].extent == shape@[
                    shape@.len() - 1 - (shape@.len() - 1 - a)
                ] as i32);
            }
        }

        buffer_wrapper
    }

    /// The dimension table the record refers to, one entry per axis in
    /// reversed axis order. The foreign record's `dim` pointer is produced
    /// from this table's stable storage at the call boundary.
    pub fn dims(&self) -> (d: &Vec<halide_dimension_t>)
        ensures
            d@ == self.dims_seq(),
    {
        &self.dims
    }

    /// The buffer record, ready to hand to a foreign call.
    pub fn buffer_t(&mut self) -> (b: &mut halide_buffer_t)
        ensures
            *b == old(self).record(),
            final(self).record() == *final(b),
            final(self).dims_seq() == old(self).dims_seq(),
    {
        &mut self.buffer_t
    }
}

} // verus!
