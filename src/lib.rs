//! Loader for compiled HavokScript bytecode files.
//!
//! Every decoder here works on a byte slice and a cursor, and its result is
//! stated against a decoding function written over the bytes.
pub mod byte_order;
pub mod constant;
pub mod debug;
pub mod encode;
pub mod enums;
pub mod errors;
pub mod file;
pub mod frame;
pub mod function;
pub mod header;
pub mod instruction;
pub mod opcodes;
pub mod readable;
pub mod reader;
pub mod structure;
