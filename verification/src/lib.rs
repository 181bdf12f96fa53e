//! GC-content computation over nucleotide sequences, with a columnar
//! adapter and a mergeable streaming accumulator.

pub mod accumulator;
pub mod calculator;
pub mod columnar;
