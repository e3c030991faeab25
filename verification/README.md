# inferno_cli

The verified core of the `inferno` command-line interface: the checks each
command makes of its arguments, the parsing of the options and lists it
reads, and the decisions it takes before and between its outside work.

- `src/` is the library, written in Verus. Every public function states its
  result in `ensures`, and each module ends with the laws that relate its
  functions (`lemma_*` proof functions).
- `tests/` runs the library on concrete values.
- `app/` holds what stays outside the proofs: terminal and file I/O, the
  JSON output of the commands, and the commands and figures computed with
  floating point.

Modules: `command` (configuration and context), `text` (character-level
string operations), `net` (addresses and paths), `security`, `streaming`,
`serve`, `resilience`, `upgrade`, `optimization`, `response_cache`, `repo`,
`package`, `benchmark`, `tuning` (performance optimization), `qa` and `run`.
