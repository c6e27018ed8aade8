# ant_compiler

Code generation for the Ant language, verified with Verus: a WebAssembly back
end, and the pieces of a Cranelift back end that handle scopes, generic
definitions, constant folding, infix operations and struct construction.

## Layout

- `src/ast.rs` — the typed program that code generation consumes, and the type
  context.
- `src/wasm_gen_spec.rs` — the meaning of compilation to WebAssembly as spec
  functions: the compiler's state, the instructions each expression and
  statement produces, and the module layout.
- `src/wasm_gen.rs` — the WebAssembly compiler, proved to follow that meaning.
- `src/wasm.rs`, `src/encoder.rs` — WebAssembly instructions and sections as
  plain values, and the boundary to `wasm-encoder`.
- `src/compile_state.rs` — the per-function state of the Cranelift back end:
  lexical scopes, struct layouts, generic definitions.
- `src/infix.rs` — constant folding and compilation of infix operations.
- `src/build_struct.rs` — struct layouts and struct construction.
- `src/clif.rs`, `src/index_map.rs` — the boundaries to Cranelift's function
  builder and to `indexmap`.
- `src/driver.rs` — target selection and the checks the command line runs
  before compiling.
- `app/main.rs` — the `antc-wasm` command: reads a source file, runs the Ant
  front end, compiles and writes the module.

The Cranelift handlers take the functions that compile operand expressions,
lay out structs and allocate memory as parameters; their contracts state what
those functions must keep (the builder stays positioned, values stay defined,
emitted instructions stay in place).
