# avpm

Ansible Vault Password Manager: stores Ansible Vault passwords in the OS keyring
or in an age-encrypted file, serves them to Ansible, and keeps several devices in
step through encrypted manifests over Git or WebDAV.

- `src/` is the library, verified with Verus: the vault stores and their laws, the
  index, the three-way merge and the sync runs, the keyring bootstrap, the
  transports' decisions, the configuration, and the terminal interface as a state
  machine. Contracts speak of texts as sequences of characters and of stores as
  maps from vault-id to password.
- `tests/` runs the library against the real outside crates.
- `app/` is the program around it: arguments, files, the keyring, sockets, `git`,
  HTTP and the screen. `main.rs` is the root of `avpm`, `client.rs` that of the same
  program as `avpm-client`, the name that Ansible looks for.

Work that the library cannot do by itself is handed to the caller step by step: a
sync run, a keyring bootstrap, a Git push and the configuration dialogue each say
what is to be done next, take the outcome, and go on from there.
