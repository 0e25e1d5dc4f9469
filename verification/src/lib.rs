//! Cycle-accurate five-stage pipelined simulator for a 32-bit little-endian
//! integer RISC machine (a subset of the RV32I base instruction set), together
//! with the line parser of its assembler front end.

pub mod instruction_parser;
pub mod vm;
