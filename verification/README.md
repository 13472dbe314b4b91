# mob-rs

`mob` builds ModOrganizer2 and its projects. This crate is its library,
written in Verus, and the program around it lives in `app/`. The functions
of `src/` carry contracts that Verus proves, except the few that call
another crate or the standard library directly (marked
`#[verifier::external_body]`), whose contracts state what that code is
trusted to do, and the lookups of programs in `PATH`
(`ProcessBuilder::program_exists`, `find`, `find_all`), of whose results
nothing is stated.

## Layout

- `src/config/` — the configuration: the types and their defaults, reading
  the merged value tree into them (`decode`), the per-task overrides
  (`merge`), path resolution (`paths`), the option listing (`options`),
  trees seen as their leaves (`leaves`) and the loader with its sources
  (`loader`). What the loader builds is stated over the leaves of the
  merged tree (`loader::built_from`): overrides over sources, a later text
  source over an earlier one.
- `src/cli/` — the arguments of each command, as plain types.
- `src/cmd/` — what each command decides: release archive names and checks,
  the build phases and task names, the PR queries, the git reports, the
  transifex plan, the listings.
- `src/git/` — the arguments of each `git` run and the plans of the
  operations over all repositories.
- `src/host/` — the environment container, the process description and its
  output rules, Visual Studio discovery.
- `src/net.rs` — download requests and the decisions taken while one runs.
- `src/text.rs`, `src/path.rs`, `src/strmap.rs` — strings, paths and an
  ordered string map, with their specifications.
- `app/` — `main`, argument parsing, logging, and everything that runs a
  process, touches the filesystem or the network.
- `tests/` — tests of the library on concrete values.

## Laws

Public proof functions state the properties that hold across calls, for
example `config::merge::lemma_merge_idempotent`,
`host::env::container::lemma_set_then_get` and
`git::ops::lemma_repo_dirs_order_free`.
