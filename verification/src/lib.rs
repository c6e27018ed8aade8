pub mod ast;
pub mod encoder;
pub mod generic;
pub mod index_map;
pub mod text;
pub mod wasm;
pub mod wasm_gen;
pub mod wasm_gen_spec;
pub mod clif;
pub mod compile_state;
pub mod infix;
pub mod driver;
pub mod build_struct;
