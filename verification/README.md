# deploy-manifest

A library for deploy manifests: the data model of a manifest, the rules of
the Deploy Manifest Specification that a manifest must meet, the
recognition of a manifest's format, and the reporting of failures. The
library is written in Verus, and its behaviour is stated in contracts that
Verus proves.

- `src/model.rs`: the manifest's types; keyed sections are `indexmap::IndexMap`s.
- `src/validation.rs`: the rules, as spec functions, and the checks that report
  the first rule a manifest breaks (`Validate`), with the proof that a manifest
  is accepted exactly when it meets every rule.
- `src/parser.rs`: formats, their recognition from a file's extension, and the
  failures of parsing.
- `src/error.rs`: the errors and their messages.
- `src/cli.rs`: what the checker's command line asks for, and its report.
- `src/text.rs`: string comparison, joining and decimal rendering.
- `app/`: the checker program and the reading and writing of YAML, JSON and
  TOML through serde.
