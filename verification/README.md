# tuicr (config and macros)

The configuration layer of a terminal code review tool, written in Verus:
reading `config.toml`, validating every setting with a warning for each value
it ignores, resolving where the config directory lives, and running the
`@` macros a config defines. Each function carries a contract over
mathematical models (`Seq<char>`, sequences of bindings) and Verus proves the
code against it.

Layout:

- `src/text.rs`: whitespace trimming, ASCII case folding, decimal rendering.
- `src/toml_doc.rs`: a TOML document as plain values; the parse itself is done
  by the `toml` crate behind one trusted function.
- `src/config/`: the settings model (`mod.rs`), typed readers and their
  warnings (`read.rs`), the `[forge]` and `[export]` sections (`sections.rs`),
  comment types (`comment_types.rs`), macros (`macros.rs`) and the whole file
  (`load.rs`).
- `src/paths.rs`: the config directory: from `XDG_CONFIG_HOME` and `HOME` on
  Unix, from `APPDATA` on Windows.
- `src/app.rs`: the macro state of a review session: loading macros, running
  one through a `ColonCommandRunner` (whose calls are logged, so each step's
  record is tied to what the runner did), replaying the last one, help rows.
- `app/`: reading the environment and the file system, and serde forms of the
  settings types.
- `tests/`: behaviour on concrete inputs.
