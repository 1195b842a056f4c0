# jni_bindgen

Generates Rust FFI bindings for Java APIs from `.class` and `.jar` files.  The library reads
class files, decides where each class goes in the generated crate and what its Rust names are,
and produces the text of each class's declaration (its method wrappers and field accessors);
each of these steps is specified and proved with Verus.  The preamble of the generated file and
the nesting of the declarations into modules are not produced here.

## Layout

- `src/` — the verified library.
  - `io_ext`, `modified_utf8`, `constants`, `access_flags`, `version`, `jar`: reading class
    files (big-endian integers, Java's modified UTF-8, the constant pool, fields, methods,
    attributes) against byte-level specifications.
  - `class_file_visitor`, `gather_java`: the same structures as read one by one for a visitor,
    and lookups in a constant pool.
  - `class`, `descriptor`, `method`, `jni_descriptor`: class paths and type descriptors.
  - `identifiers`, `method_mangling`, `mappers`: Rust identifiers and the names Java classes
    and methods are given in Rust.
  - `config`: the configuration file as plain values and the runtime form built from it.
  - `emit_rust`: where each class goes in the generated crate, documentation links, and the
    text of method wrappers, field accessors and class declarations.
  - `util`, `inputs`, `sdk`, `ast`, `api_level_range`: decisions around files, inputs and SDKs.
  - `throwable`: the `Debug` text of a Java exception, from what its getters returned.
- `tests/` — tests of the library, run against the compiled crate.
- `app/` — the command-line program: reading the configuration (TOML, via `serde`), files and
  `.jar` archives (via `zip`), and handing the bytes to the library.
