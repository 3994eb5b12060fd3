# power_assert_plugin

An swc plugin that turns plain `assert(..)` calls in JavaScript and
TypeScript into power-assert calls: every sub-expression of the asserted
condition whose value is worth printing is wrapped in `_rec._capt(value,
"path")`, the whole assertion in `_rec._expr(.., { content, filepath, line })`,
and a small `_powerAssertRecorder` class plus one recorder instance per scope
are injected.  Imports of `assert` are pointed at `power-assert`.

Layout:

- `src/` is the library, with its contracts and proofs.  It works on its own model of
  the syntax tree (`ast.rs`), in which the parts of a parsed node that the
  transforms never read are kept under numbered handles.
  - `power_assert_transformer/capture_expr.rs`: capturing sub-expressions.
  - `power_assert_transformer/capture_laws.rs`: what capturing does as a
    whole (it only wraps, it wraps exactly when the flags rise, and the
    paths it records are distinct).
  - `power_assert_transformer.rs`: the decisions of the pass (which calls are
    assertions, when a scope needs a recorder, where the recorder goes).
  - `power_assert_recorder.rs`: the recorder class and the calls of it.
  - `assert_import_replacer.rs`: rewriting `import .. from "assert"` and
    `require("assert")`.
  - `flatten_member_exprs.rs`, `text.rs`: dotted names and small text helpers.
- `app/` is the plugin itself: swc's visitors walk the program, convert the
  nodes that matter to the model and back, ask the source map where each
  assertion stands, and hand the rest to the library.
- `tests/` exercises the library on model trees.
