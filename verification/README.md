# Codex desktop connector

A connector that installs the Codex desktop application, keeps the authorizations that it can use,
and switches between workspaces. The decisions it takes are a library that Verus verifies; the
programs around it do the reading, writing and running.

## Layout

- `src/` is the verified library.
  - `credential/` holds the record of authorization profiles, what switching between them writes, and
    the laws of those operations.
  - `codex_workspace.rs`, `codex_workspace_laws.rs` and `codex_workspace_activation.rs` hold the
    catalog of workspaces and the steps of putting one in use.
  - `setup/` holds the setup of the desktop application: its status, the steps of the two
    installers, the list of packages and the check of the route.
  - `desktop/` holds how the desktop application is stopped and opened.
  - `baijimu_cli.rs` reads the replies of the platform's command-line program.
  - `json_compat.rs`, `toml_document.rs`, `digest.rs` and parts of `setup/powershell.rs`,
    `codex_workspace.rs`, `credential/files.rs` and `text.rs` state what is relied on of other
    crates and of the standard library.
- `app/` is the program: the command line, the local service, files, processes and the network.
- `tests/` run the library on examples.

## How the library and the program share the work

What is on disk is handed to the library as a value, `CredentialStore` or `CatalogStore`. An operation
changes that value and notes each write in order; the program then makes the writes. What takes turns
with the outside, such as an installation, is a state machine: it is handed what happened and says what
is to be done next.
