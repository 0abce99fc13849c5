# formality_driver

Turns the local crate that rustc compiles into an a-mir-formality program and
prints it, and renders a-mir-formality statements and expressions as Rust.

- `src/` — the verified library (Verus):
  - `grammar.rs`: the a-mir-formality terms that are read (types, functions,
    crates, statements, expressions);
  - `mir.rs`: the compiler's view of the local crate as plain values, its
    conversion into a-mir-formality, and the law that the converted program
    can always be dumped;
  - `dump.rs`: the plain-text dump of a program;
  - `conversion.rs`: the signatures of the local crate as rustc prints them;
  - `rust_builder.rs`: `RustBuilder`, rendering statements, expressions and
    types as Rust source text, with the laws on enclosing binders;
  - `text.rs`: decimal numbers and joining.
- `app/main.rs` — the driver around the library: runs rustc through
  `rustc_public`, reads the local crate into the library's values and prints
  the dump.
- `tests/` — tests of the library.
