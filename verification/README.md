# norms

Verifies that a software project follows a set of layout and configuration
standards (README, license, git and editor settings, Devbox, pre-commit,
Renovate, and per-language settings for Python, Rust and TypeScript) and
reports each check as passed, failed, warned or skipped.

- `src/` is the library, verified with Verus. Each check function states, in
  its `ensures`, the exact entries it appends to the report as a function of
  the project context; the report, its counters, the configuration models and
  language detection carry contracts of their own, and the `law_*` proof
  functions state properties that span several functions.
- `app/` is the command-line program (`norms verify <path> [--json]`): it reads
  the project's files, parses them with serde (JSON5, TOML, YAML), hands the
  library plain values, runs the checks and prints the report.
- `tests/` exercises the library on concrete projects.
