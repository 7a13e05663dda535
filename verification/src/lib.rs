//! Data generation, workload construction and map adapters for comparing
//! map implementations, with their behaviour stated as contracts and proved.

pub mod data;
pub mod hint;
pub mod maps;
pub mod number_formatter;
pub mod random;
pub mod text;
pub mod workload;
pub mod key_set;
pub mod map_data;
pub mod map_gen;
pub mod sorting;
pub mod worker_pool;
