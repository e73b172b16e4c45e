# ocaml (verified core)

The logic of ocaml-rs, the Rust side of OCaml extensions written in Rust,
as a library verified with Verus.

- `src/` holds what is decided without the OCaml runtime: the word
  encoding of immediates, headers and exception results (`mlvalues`),
  block tags (`tag`), conversions of single-word values (`conv`, `value`),
  errors and how they are raised (`error`), runtime start-up and panic
  routing (`runtime`), the layout plans of `#[derive(ToValue, FromValue)]`
  (`derive`), the plans of the function attributes (`func`), the checks of
  `ocaml::sig` (`sig`), and the generator of OCaml declarations (`sigs`),
  which parses source text with `syn` behind a trusted wrapper.
  Every function there has a contract; the public proof functions state the
  laws (round trips of the encodings, distinct variant keys, derived read
  plans mirroring write plans, start-up once, guards released).
- `app/` holds what touches the outside: calls into the OCaml runtime's C
  interface, the file system walk of the declaration generator, the
  per-thread guard counts and panic hooks, and the token output of the
  procedural macros.
- `tests/` runs the library on concrete values.
