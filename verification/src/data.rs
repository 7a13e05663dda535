//! Generators of benchmark keys and values.

pub mod byte_array;
pub mod data_gen;
pub mod enumeration;
pub mod string;
pub mod u64_dense;
pub mod u64_sparse;
pub mod uuid_v4;
