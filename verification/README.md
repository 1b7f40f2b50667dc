# sanca_software

A verified library for recognising the software that runs on a remote
host from the data it returns.

- `src/models/` — the scan types, writers, findings and CVEs
  (`mod.rs`), the technologies that can be recognised with their CPE
  identifiers, command-line names and the HTTP requests that reveal them
  (`technology.rs`), and HTTP requests and responses, with the resolution
  of a path against a URL (`reqres.rs`).
- `src/checkers/` — compiled regular expressions, evidence shortening,
  template expansion and the construction of findings (`mod.rs`), and the
  Apache httpd checker (`httpd.rs`).
- `tests/` — scenarios on concrete values.
- `app/` — the command-line program: argument parsing (clap), the TLS
  crypto provider (rustls) and the serde/clap copies of the library types.

Every function of `src/` carries a contract that Verus proves, except the
two trusted wrappers of the regex crate in `src/checkers/pattern.rs`
(`compile_regex`, which calls `Regex::new`, and `Pattern::named_group`,
which calls `Regex::captures` and `Captures::name`): their contracts are
believed, stated over the names `regex_compiles` and `regex_named_group`.
The laws of the library stand in `src/` as public proof functions named
`law_*`.
