//! Conformance harness for instruction decoders. Each architecture module
//! turns a recorded instruction into the bytes a decoder reads, and judges the
//! decoder's answer against the record: the same text, and a next address
//! exactly the instruction's width further on.


pub mod bytes;
pub mod harness;
pub mod arm;
pub mod aarch64;
pub mod pic;
pub mod sparcv9;
pub mod superh4;
pub mod v850;
pub mod z80;
pub mod x86;
