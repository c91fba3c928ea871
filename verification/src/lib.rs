//! avpm - Ansible Vault password manager.
//!
//! The logic of a system-keyring adapter for Ansible Vault passwords with
//! end-to-end encrypted multi-device sync: the vault stores and the vault-id
//! index, the three-way merge and the sync engine, password generation, the
//! keyring bootstrap, the command decisions and the terminal interface. What
//! touches the disk, the network, the terminal or a daemon lives in the
//! application around this library and hands plain values in and out.

pub mod cli;
pub mod commands;
pub mod config;
pub mod error;
pub mod index;
pub mod logging;
pub mod password;
pub mod paths;
pub mod strmap;
pub mod sync;
pub mod text;
pub mod tui;
pub mod vault;

pub use config::{Config, ConfigError};
pub use error::Error;
pub use index::VaultIndex;
pub use vault::{KeyringStore, VaultSecret, VaultStore};
