//! The secure-storage helper: how it is called and how its answer is read.

use crate::text::{contains, decode, occurs_in, trim, trimmed, utf8_error};
use crate::token::{view_of, KeyringToken, KeyringTokenView};
use core::str::Utf8Error;
use std::io::ErrorKind;
use vstd::prelude::*;
use vstd::utf8::{decode_utf8, valid_utf8};

verus! {

/// `std::io::ErrorKind`, carried through as it is: nothing is read from it.
#[verifier::external_type_specification]
#[verifier::external_body]
pub struct ExErrorKind(ErrorKind);

/// The program that keeps the tokens in secure storage.
pub const HELPER_PROGRAM: &'static str = "gh";

/// The text in the helper's diagnostics that says that it holds no token
/// for the host.
pub const NO_TOKEN_DIAGNOSTIC: &'static str = "no oauth token found";

/// A call of the helper: the program and its arguments.
#[derive(Debug, PartialEq, Eq)]
pub struct HelperCommand {
    pub program: String,
    pub args: Vec<String>,
}

/// The mathematical value of a [`HelperCommand`].
pub ghost struct HelperCommandView {
    pub program: Seq<char>,
    pub args: Seq<Seq<char>>,
}

impl View for HelperCommand {
    type V = HelperCommandView;

    open spec fn view(&self) -> HelperCommandView {
        HelperCommandView { program: self.program@, args: self.args.deep_view() }
    }
}

/// How a call of the helper ended.
#[derive(Debug, PartialEq, Eq)]
pub enum HelperRun {
    /// The helper could not be started.
    NotStarted(ErrorKind),
    /// The helper ran to its end.
    Exited {
        /// Whether its exit status reports success.
        success: bool,
        /// All that it wrote to its standard output.
        stdout: Vec<u8>,
        /// All that it wrote to its standard error.
        stderr: Vec<u8>,
    },
}

/// The mathematical value of a [`HelperRun`].
pub ghost enum HelperRunView {
    NotStarted(ErrorKind),
    Exited { success: bool, stdout: Seq<u8>, stderr: Seq<u8> },
}

impl View for HelperRun {
    type V = HelperRunView;

    open spec fn view(&self) -> HelperRunView {
        match self {
            HelperRun::NotStarted(kind) => HelperRunView::NotStarted(*kind),
            HelperRun::Exited { success, stdout, stderr } => HelperRunView::Exited {
                success: *success,
                stdout: stdout@,
                stderr: stderr@,
            },
        }
    }
}

/// Why the helper's answer could not be taken for a token or for the lack
/// of one.
#[derive(Debug, PartialEq, Eq)]
pub enum TokenFromKeyringError {
    /// The helper could not be started.
    FailToExecute(ErrorKind),
    /// The helper reported success and its standard output is not UTF-8.
    StdoutNotUTF8(Utf8Error),
    /// The helper reported failure and its standard error is not UTF-8.
    StdErrorNotUTF8(Utf8Error),
    /// The helper reported failure; the diagnostic is what it wrote.
    OutputStatusFail(String),
}

/// The mathematical value of a [`TokenFromKeyringError`].
pub ghost enum KeyringErrorView {
    FailToExecute(ErrorKind),
    StdoutNotUTF8(Utf8Error),
    StdErrorNotUTF8(Utf8Error),
    OutputStatusFail(Seq<char>),
}

impl View for TokenFromKeyringError {
    type V = KeyringErrorView;

    open spec fn view(&self) -> KeyringErrorView {
        match self {
            TokenFromKeyringError::FailToExecute(kind) => KeyringErrorView::FailToExecute(*kind),
            TokenFromKeyringError::StdoutNotUTF8(error) => KeyringErrorView::StdoutNotUTF8(*error),
            TokenFromKeyringError::StdErrorNotUTF8(error) => KeyringErrorView::StdErrorNotUTF8(
                *error,
            ),
            TokenFromKeyringError::OutputStatusFail(diagnostic) => {
                KeyringErrorView::OutputStatusFail(diagnostic@)
            },
        }
    }
}

/// The mathematical value of a lookup that may fail.
pub open spec fn outcome_view<T: View>(outcome: Result<Option<T>, TokenFromKeyringError>) -> Result<
    Option<T::V>,
    KeyringErrorView,
> {
    match outcome {
        Ok(found) => Ok(view_of(found)),
        Err(error) => Err(error@),
    }
}

/// The call that asks the helper for the token of a host: the subcommand
/// `auth token`, the flag that restricts the lookup to secure storage
/// unless it is left out, and the host.
pub open spec fn keyring_command(host: Seq<char>, secure_storage: bool) -> HelperCommandView {
    HelperCommandView {
        program: HELPER_PROGRAM@,
        args: if secure_storage {
            seq!["auth"@, "token"@, "--secure-storage"@, "--hostname"@, host]
        } else {
            seq!["auth"@, "token"@, "--hostname"@, host]
        },
    }
}

/// Builds the call that asks the helper for the token of a host.
pub fn command_for_host(host: &str, secure_storage: bool) -> (command: HelperCommand)
    ensures
        command@ == keyring_command(host@, secure_storage),
{
    let mut args: Vec<String> = Vec::new();
    args.push("auth".to_owned());
    args.push("token".to_owned());
    if secure_storage {
        args.push("--secure-storage".to_owned());
    }
    args.push("--hostname".to_owned());
    args.push(host.to_owned());
    let command = HelperCommand { program: HELPER_PROGRAM.to_owned(), args };
    assert(command@.args =~= keyring_command(host@, secure_storage).args);
    command
}

/// What the helper's answer means.
///
/// A helper that could not be started is an error. After success the
/// standard output, decoded and trimmed, is the token, also where nothing
/// is left of it. After failure the standard error is read: the diagnostic
/// that no token is stored means that there is none, and any other is an
/// error. Output that has to be read and is not UTF-8 is an error.
pub open spec fn keyring_outcome(run: HelperRunView) -> Result<
    Option<KeyringTokenView>,
    KeyringErrorView,
> {
    match run {
        HelperRunView::NotStarted(kind) => Err(KeyringErrorView::FailToExecute(kind)),
        HelperRunView::Exited { success, stdout, stderr } => if success {
            if valid_utf8(stdout) {
                Ok(Some(KeyringTokenView { value: trimmed(decode_utf8(stdout)) }))
            } else {
                Err(KeyringErrorView::StdoutNotUTF8(utf8_error(stdout)))
            }
        } else {
            if !valid_utf8(stderr) {
                Err(KeyringErrorView::StdErrorNotUTF8(utf8_error(stderr)))
            } else if occurs_in(NO_TOKEN_DIAGNOSTIC@, decode_utf8(stderr)) {
                Ok(None)
            } else {
                Err(KeyringErrorView::OutputStatusFail(decode_utf8(stderr)))
            }
        },
    }
}

/// Reads the helper's answer.
pub fn token_from_keyring(run: HelperRun) -> (outcome: Result<
    Option<KeyringToken>,
    TokenFromKeyringError,
>)
    ensures
        outcome_view(outcome) == keyring_outcome(run@),
{
    match run {
        HelperRun::NotStarted(kind) => Err(TokenFromKeyringError::FailToExecute(kind)),
        HelperRun::Exited { success, stdout, stderr } => {
            if success {
                match decode(stdout.as_slice()) {
                    Ok(text) => Ok(Some(KeyringToken { value: trim(text).to_owned() })),
                    Err(error) => Err(TokenFromKeyringError::StdoutNotUTF8(error)),
                }
            } else {
                match decode(stderr.as_slice()) {
                    Ok(diagnostic) => {
                        if contains(diagnostic, NO_TOKEN_DIAGNOSTIC) {
                            Ok(None)
                        } else {
                            Err(TokenFromKeyringError::OutputStatusFail(diagnostic.to_owned()))
                        }
                    },
                    Err(error) => Err(TokenFromKeyringError::StdErrorNotUTF8(error)),
                }
            }
        },
    }
}

} // verus!
