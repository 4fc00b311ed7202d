# formatter_kotlin

A Kotlin source formatter built on the Topiary formatting engine and the
`tree-sitter-kotlin-ng` grammar, written in Verus.

- `src/` is the verified library. `lib.rs` holds the entry points `format`,
  `format_with` and `output_to_text`; `options.rs` the options and their
  default; `language.rs` the building of the Kotlin language definition;
  `query.rs` the Topiary formatting rules; `model.rs` what a formatting
  call computes, stated over the names of `outside.rs`; `outside.rs` the
  trusted boundary with Topiary, the grammar and std (the language definition
  type, the query compiler and the formatting pass); `laws.rs` the proved
  laws (idempotence, that the idempotence check never changes output, and that
  `format` agrees with `format_with` under the default options).
- `app/` is the command-line front end: it reads a file or stdin, formats with
  the default options and prints the result (exit code 1 on a format error,
  2 on an I/O error).
- `tests/` holds the formatting scenarios and tests of the laws on concrete
  inputs.
