//! Bridges between Rust and Zig code that is embedded in Rust sources.
//!
//! A block of embedded Zig holds Zig code and, behind a separator, Rust
//! declarations that say how the code is to be called. This library finds
//! such blocks in the tokens of macro invocations, reads the declarations
//! into a typed model, and generates what binds the two languages: the
//! native declarations, the safe wrappers, and, on the Zig side, the
//! wrappers that make aggregate results cross the boundary by pointer. It
//! also plans the build of the Zig code. Reading files, running the
//! compiler and expanding the macros are left to the caller.
//!
//! Texts are specified as sequences of characters; every generator states
//! the text it produces.

pub mod text;
pub mod edit;

pub mod extract;
pub mod scanner;

pub mod exports;
pub mod wrapper;
pub mod symbols;
pub mod headers;

pub mod engine;
pub mod buildzig;
pub mod plan;
pub mod builder;
pub mod zig_compiler;
pub mod simd;

pub mod syntax;
pub mod syn_parse;
pub mod idl;
pub mod parser;
pub mod config;

pub mod lowering;
pub mod bridge;
pub mod expand;
pub mod generate;
pub mod traits;
pub mod declare;
pub mod macros;

pub mod ts_generator;
pub mod type_mapper;

pub mod ffi_types;
pub mod console;
