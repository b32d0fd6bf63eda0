//! Throughput harness for hash and checksum functions: deterministic inputs,
//! one calling convention for every algorithm, one text form for every result,
//! and the throughput model built on a measured duration.
use vstd::prelude::*;

pub mod algorithms;
pub mod harness;
pub mod input;
pub mod normalize;
pub mod stat;
pub mod text;

verus! {

} // verus!
