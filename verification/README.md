# but

The decision logic of GitButler's `but hook` commands and of its commit API,
written in Verus and verified against its contracts.

- `src/hook/guard.rs` — the `pre-commit` and `pre-push` workspace guards and
  the `post-checkout` notice, with the reflog parsing that finds the branch a
  checkout came from.
- `src/hook/status.rs` — `but hook status`: hook ownership classification,
  integration mode, warnings, recommendations, and the human and shell output.
- `src/hook/install.rs`, `src/hook/uninstall.rs` — reports and human-readable
  output of `but hook install` / `but hook uninstall`.
- `src/hook/types.rs` — the report types and their models.
- `src/commit.rs` — oplog snapshot details and decisions (amend, reword and undo
  run under a best-effort snapshot), the decisions and error texts of
  undoing a commit, and the transport types of commit operations.
- `src/text.rs` — verified string utilities (shell quoting, line splitting).
- `app/` — the I/O around the library: opening repositories, reading hook
  files and reflogs, printing human, shell and JSON output.
