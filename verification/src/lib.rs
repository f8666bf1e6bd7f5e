//! Resolves the access token for a host from the environment, a
//! configuration file or the `gh` secure-storage helper, in that order.
//!
//! The library reads no environment and starts no process. Its caller takes
//! a snapshot of the four token variables ([`Var::name`] gives their names)
//! and hands it to [`token_for_host`]. That ends the resolution with a
//! token, or names the call of the helper that is left to try; the caller
//! makes that call and hands its outcome to [`token_after_keyring`], which
//! ends the resolution with a token, with none, or with the reason why the
//! helper's answer could not be read.

pub mod config;
pub mod env;
pub mod keyring;
pub mod resolve;
pub mod text;
pub mod token;

pub use config::token_from_config;
pub use env::{token_from_env, Environment};
pub use keyring::{
    command_for_host, token_from_keyring, HelperCommand, HelperRun, TokenFromKeyringError,
};
pub use resolve::{token_after_keyring, token_for_host, Lookup};
pub use token::{ConfigToken, EnvToken, KeyringToken, Source, Token, Var};
