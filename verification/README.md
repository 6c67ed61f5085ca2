# emstudio

The domain logic of an electromagnetic simulation studio, written in Verus:
every function in `src/` carries a contract, and Verus proves each of them
except six small wrappers around calls to std and serde_json (UTF-8
decoding, Unicode character classes, `String::push`, parsing a project
file's JSON), whose contracts are trusted.

- `src/` — the verified library: Gmsh MSH 4.1 mesh reading, the `.emsfld`
  field-file header, index and layout, VTK grid topology, design
  validation and the definition-reference dependency graph, parametric sweep
  combinations and variation directory names, the grammar of trace and
  arithmetic expressions (compiled to postfix programs) and the order in
  which variables resolve, edition rules, the ribbon, menu bar and command
  state, the quick access toolbar, the application shell's decisions, the
  Q3D net panel and optimetrics setup list edits, the draw dialogs, the
  geometry engine's object table and its steps, the design variables,
  the in-memory project store, the version check of project files, the
  display of parameter values, and the data records of setups, reports
  and results.
- `tests/` — tests of the library on concrete values.
- `app/` — what the library leaves to ordinary Rust: file and network I/O,
  serialization and the project file's data model, and the floating-point
  computations (expression values, sweep values, optimizers, statistics,
  circuit co-simulation, result data).
