# oxidase

Verified core of `bind_js!`, a macro that binds the exported functions of a TypeScript
module to typed Rust functions for Dioxus apps, and the lifecycle guard of the watchers it
generates.

## Layout

- `src/` — the library, verified with Verus:
  - `text.rs`: character sequences (trimming, searching, digits) with their specifications;
  - `lexer.rs`, `syntax.rs`: the `bind_js!` invocation grammar, from text to `BindJsInput`;
  - `ts_model.rs`: what the analyzer reads of a TypeScript module;
  - `type_map.rs`, `rust_type.rs`: TypeScript annotations to Rust parameter and result types;
  - `casing.rs`: name matching across lowerCamelCase and snake_case (through `heck`);
  - `analyzer.rs`, `exports.rs`: modes, signatures, refused modules, the module hash;
  - `codegen.rs`: which Rust functions an invocation generates, with which signatures;
  - `ts_source.rs`: TypeScript source through `swc`: the parsed module, and its JavaScript
    with the types stripped;
  - `watcher_guard.rs`: `WatcherGuard`, which hands out its teardown at most once; the
    handle that carries it out on drop is in `app/watcher.rs`, since the Dioxus calls that
    cancel and dispatch can panic;
  - `laws.rs`: properties relating several of the above.
- `tests/` — tests of the library.
- `app/` — the unverified surroundings: reading the bridge file, writing the generated items
  with `quote`, carrying out a watcher's teardown on drop, and the floating-point geometry
  types.
