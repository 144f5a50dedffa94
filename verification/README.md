# ghstd

`ghstd` checks GitHub repositories against a small configured standard of
repository settings (delete branches on merge, which merge methods are
allowed, auto-merge, issues, wiki, ...) and applies it through the GitHub CLI.

Layout:

- `src/` is the verified library.
  - `config.rs`: the settings and the configuration, how tables are merged
    and layered (base standard, then the table for public or private
    repositories).
  - `standard.rs`: the rules that the layered settings make for a
    repository, the drift (rules not yet followed), and the laws tying them
    to the settings.
  - `report.rs`: status lines, the status table, and the edits that applying
    the standard makes.
  - `github.rs`: repositories as GitHub reports them, the arguments of the
    `gh` calls, the GraphQL paging, and how a finished `gh` call is read.
  - `text.rs`: trimming, decimal numbers, padding and joining.
- `app/` is the command line program: argument parsing, reading the TOML
  configuration, running `gh` and parsing its JSON answers.
- `tests/` runs the library on concrete values.

The configuration lives in `$XDG_CONFIG_HOME/ghstd/config.toml` (or
`~/.config/ghstd/config.toml`), with optional `[standard]`, `[public]` and
`[private]` tables.
