//! Zero-copy bridge from strided multi-dimensional array views to the
//! Halide runtime's buffer descriptor ABI.
//!
//! The library has two parts: a closed element-type registry mapping scalar
//! element types to the runtime's type tag, and a descriptor bridge that
//! lays out a per-dimension table (in reversed axis order) together with the
//! top-level buffer record that foreign kernels read and write through.

pub mod abi;
pub mod buffer_wrapper;
pub mod data_type;

pub use abi::halide_buffer_t;
pub use abi::halide_dimension_t;
pub use abi::halide_type_t;
pub use abi::HalideTypeCode;
pub use buffer_wrapper::BufferWrapper;
pub use data_type::halide_type_for;
pub use data_type::DataType;
