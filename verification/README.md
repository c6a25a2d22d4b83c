# fcplug

The verified core of a Rust/Go foreign-call plugin generator.

- `src/build`: the code generator. From a resolved IDL model (services,
  methods, messages) it writes the Rust trait, `extern "C"` shims and Go cgo
  glue of the two service kinds (`RustFFI`: Go calls Rust; `GoFFI`: Rust
  calls Go), the Go package and `main` files, `go.mod`, and the names, checks
  and commands of a build-script run (IDL checks, `go.mod` module check,
  target OS/architecture mapping, crate fingerprint).
- `src/runtime`: the runtime the generated code links with: buffers, result
  codes and messages, call results in both directions, and the C
  representations of Rust values (`ConvRepr`).
- `src/laws.rs`: properties proved across functions.
- `app/`: the build-script drivers (`generate_code` and the IDL-driven
  `generate_ffidl_code`, both returning `anyhow::Result<()>`: environment,
  files, Go/protobuf tools, cbindgen, `git add` of the C libraries), the C
  ABI of buffers, and JSON messages with serde.

A build script calls the driver with the configuration and what the IDL
compiler made of the IDL file:

```rust
generate_code(config, idl).unwrap();
```

The Rust module is named after the IDL file: `{name}.proto` gives
`src/{name}_ffi`, with `mod.rs` written once for the implementation.
