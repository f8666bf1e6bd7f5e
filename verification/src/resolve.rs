//! The resolution of a host's token: the environment first, then the
//! configuration, then the helper.
//!
//! Running the helper is left to the caller. [`token_for_host`] consults
//! what is at hand and either ends the resolution or names the call of the
//! helper that has to be made; [`token_after_keyring`] ends the resolution
//! with the helper's answer.

use crate::config::{config_lookup, token_from_config};
use crate::env::{env_lookup, long_var, short_var, token_from_env, Environment, EnvironmentView};
use crate::keyring::{
    command_for_host, keyring_command, keyring_outcome, outcome_view, token_from_keyring,
    HelperCommand, HelperCommandView, HelperRun, HelperRunView, KeyringErrorView,
    TokenFromKeyringError, NO_TOKEN_DIAGNOSTIC,
};
use crate::text::{occurs_in, trimmed};
use crate::token::{KeyringTokenView, SourceView, Token, TokenView};
use vstd::prelude::*;
use vstd::utf8::{decode_utf8, valid_utf8};

verus! {

/// Where a resolution stands once the environment and the configuration
/// have been consulted.
#[derive(Debug, PartialEq, Eq)]
pub enum Lookup {
    /// The token was found. The helper is not to be run.
    Found(Token),
    /// Nothing was found. The helper is to be run with this call, and its
    /// answer handed to [`token_after_keyring`].
    AskKeyring(HelperCommand),
}

/// The mathematical value of a [`Lookup`].
pub ghost enum LookupView {
    Found(TokenView),
    AskKeyring(HelperCommandView),
}

impl View for Lookup {
    type V = LookupView;

    open spec fn view(&self) -> LookupView {
        match self {
            Lookup::Found(token) => LookupView::Found(token@),
            Lookup::AskKeyring(command) => LookupView::AskKeyring(command@),
        }
    }
}

/// The first step of a resolution: a match in the environment ends it, else
/// a match in the configuration ends it, else the helper is asked.
pub open spec fn first_step(
    host: Seq<char>,
    env: EnvironmentView,
    secure_storage: bool,
) -> LookupView {
    match env_lookup(host, env) {
        Some(env_token) => LookupView::Found(TokenView::from_env(env_token)),
        None => match config_lookup(host) {
            Some(config_token) => LookupView::Found(TokenView::from_config(config_token)),
            None => LookupView::AskKeyring(keyring_command(host, secure_storage)),
        },
    }
}

/// The last step of a resolution: the helper's token, the lack of one, or
/// the reason why its answer could not be read.
pub open spec fn last_step(run: HelperRunView) -> Result<Option<TokenView>, KeyringErrorView> {
    match keyring_outcome(run) {
        Ok(Some(keyring_token)) => Ok(Some(TokenView::from_keyring(keyring_token))),
        Ok(None) => Ok(None),
        Err(error) => Err(error),
    }
}

/// A whole resolution, where `run` is how the helper's call would end. It
/// bears on the result only where the first step asks for the helper.
pub open spec fn resolution(
    host: Seq<char>,
    env: EnvironmentView,
    secure_storage: bool,
    run: HelperRunView,
) -> Result<Option<TokenView>, KeyringErrorView> {
    match first_step(host, env, secure_storage) {
        LookupView::Found(token) => Ok(Some(token)),
        LookupView::AskKeyring(_) => last_step(run),
    }
}

/// Begins the resolution of a host's token with a snapshot of the
/// environment.
///
/// A token found in the environment or in the configuration ends the
/// resolution. Where neither holds one, the result is the call of the
/// helper that the caller has to make; `secure_storage` tells whether that
/// call restricts the helper to secure storage.
pub fn token_for_host(host: &str, env: Environment, secure_storage: bool) -> (next: Lookup)
    ensures
        next@ == first_step(host@, env@, secure_storage),
{
    match token_from_env(host, env) {
        Some(env_token) => Lookup::Found(Token::from(env_token)),
        None => match token_from_config(host) {
            Some(config_token) => Lookup::Found(Token::from(config_token)),
            None => Lookup::AskKeyring(command_for_host(host, secure_storage)),
        },
    }
}

/// Ends a resolution with the outcome of the helper's call.
pub fn token_after_keyring(run: HelperRun) -> (outcome: Result<
    Option<Token>,
    TokenFromKeyringError,
>)
    ensures
        outcome_view(outcome) == last_step(run@),
{
    match token_from_keyring(run) {
        Ok(Some(keyring_token)) => Ok(Some(Token::from(keyring_token))),
        Ok(None) => Ok(None),
        Err(error) => Err(error),
    }
}

/// A match in the environment decides the resolution: the token is the
/// one from the environment, no call of the helper is asked for, and how
/// such a call would end has no bearing on the result.
pub proof fn lemma_environment_wins(
    host: Seq<char>,
    env: EnvironmentView,
    secure_storage: bool,
    run: HelperRunView,
)
    requires
        env_lookup(host, env) is Some,
    ensures
        first_step(host, env, secure_storage) == LookupView::Found(
            TokenView::from_env(env_lookup(host, env)->0),
        ),
        resolution(host, env, secure_storage, run) == Ok::<Option<TokenView>, KeyringErrorView>(
            Some(TokenView::from_env(env_lookup(host, env)->0)),
        ),
{
}

/// Where neither variable of the host's pair is set and the helper holds
/// no token, the resolution of any host finds nothing.
pub proof fn lemma_nothing_found(
    host: Seq<char>,
    env: EnvironmentView,
    secure_storage: bool,
    run: HelperRunView,
)
    requires
        env.get(short_var(host)) is None,
        env.get(long_var(host)) is None,
        keyring_outcome(run) == Ok::<Option<KeyringTokenView>, KeyringErrorView>(None),
    ensures
        first_step(host, env, secure_storage) == LookupView::AskKeyring(
            keyring_command(host, secure_storage),
        ),
        resolution(host, env, secure_storage, run) == Ok::<Option<TokenView>, KeyringErrorView>(
            None,
        ),
{
}

/// A helper that reports success hands out its standard output, decoded
/// and trimmed, as a token from secure storage.
pub proof fn lemma_helper_success(stdout: Seq<u8>, stderr: Seq<u8>)
    requires
        valid_utf8(stdout),
    ensures
        last_step(HelperRunView::Exited { success: true, stdout, stderr }) == Ok::<
            Option<TokenView>,
            KeyringErrorView,
        >(Some(TokenView { value: trimmed(decode_utf8(stdout)), source: SourceView::Keyring })),
{
}

/// A helper that reports failure and says that no token is stored has
/// not failed: there is no token.
pub proof fn lemma_helper_holds_no_token(stdout: Seq<u8>, stderr: Seq<u8>)
    requires
        valid_utf8(stderr),
        occurs_in(NO_TOKEN_DIAGNOSTIC@, decode_utf8(stderr)),
    ensures
        last_step(HelperRunView::Exited { success: false, stdout, stderr }) == Ok::<
            Option<TokenView>,
            KeyringErrorView,
        >(None),
{
}

/// Beginning a resolution again for the same host in the same environment
/// gives the same result.
pub proof fn lemma_first_step_repeats(
    host: &str,
    again_host: &str,
    env: Environment,
    again_env: Environment,
    secure_storage: bool,
    next: Lookup,
    again_next: Lookup,
)
    requires
        host@ == again_host@,
        env@ == again_env@,
        call_ensures(token_for_host, (host, env, secure_storage), next),
        call_ensures(token_for_host, (again_host, again_env, secure_storage), again_next),
    ensures
        next@ == again_next@,
{
}

/// Ending a resolution again with the same answer of the helper gives the
/// same result.
pub proof fn lemma_last_step_repeats(
    run: HelperRun,
    again_run: HelperRun,
    outcome: Result<Option<Token>, TokenFromKeyringError>,
    again_outcome: Result<Option<Token>, TokenFromKeyringError>,
)
    requires
        run@ == again_run@,
        call_ensures(token_after_keyring, (run,), outcome),
        call_ensures(token_after_keyring, (again_run,), again_outcome),
    ensures
        outcome_view(outcome) == outcome_view(again_outcome),
{
}

} // verus!
