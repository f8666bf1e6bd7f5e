use ghet_rektstension::{
    command_for_host, token_from_keyring, HelperCommand, HelperRun, KeyringToken,
    TokenFromKeyringError,
};
use std::io::ErrorKind;

fn exited(success: bool, stdout: &[u8], stderr: &[u8]) -> HelperRun {
    HelperRun::Exited {
        success,
        stdout: stdout.to_vec(),
        stderr: stderr.to_vec(),
    }
}

fn found(value: &str) -> Result<Option<KeyringToken>, TokenFromKeyringError> {
    Ok(Some(KeyringToken {
        value: value.to_owned(),
    }))
}

#[test]
fn token_for_keyring_asks_for_token_from_gh() {
    let command = command_for_host("github.com", false);
    assert_eq!(command.program, "gh");
    assert_eq!(command.args, ["auth", "token", "--hostname", "github.com"]);
    assert_eq!(
        token_from_keyring(exited(true, b"gh-token-value\n", b"")),
        Ok(Some(KeyringToken {
            value: "gh-token-value".to_owned(),
        })),
    )
}

#[test]
fn command_for_host_selects_secure_storage() {
    assert_eq!(
        command_for_host("my.ghes.com", true),
        HelperCommand {
            program: "gh".to_owned(),
            args: vec![
                "auth".to_owned(),
                "token".to_owned(),
                "--secure-storage".to_owned(),
                "--hostname".to_owned(),
                "my.ghes.com".to_owned(),
            ],
        }
    );
}

#[test]
fn command_for_host_passes_the_host_as_it_is() {
    for host in ["", " ", "--hostname", "h\u{f6}st.example", "a b"] {
        let command = command_for_host(host, true);
        assert_eq!(command.args.len(), 5);
        assert_eq!(command.args[4], host);
        let command = command_for_host(host, false);
        assert_eq!(command.args.len(), 4);
        assert_eq!(command.args[3], host);
    }
}

#[test]
fn token_from_keyring_trims_the_output() {
    assert_eq!(token_from_keyring(exited(true, b"gho_abc", b"")), found("gho_abc"));
    assert_eq!(token_from_keyring(exited(true, b"gho_abc\r\n", b"")), found("gho_abc"));
    assert_eq!(
        token_from_keyring(exited(true, b"\n\t gho_abc \x0b\x0c\n", b"")),
        found("gho_abc")
    );
    assert_eq!(
        token_from_keyring(exited(true, b" two words\t", b"")),
        found("two words")
    );
    assert_eq!(
        token_from_keyring(exited(true, b"a\n \nb\n", b"")),
        found("a\n \nb")
    );
}

#[test]
fn token_from_keyring_trims_whitespace_beyond_ascii() {
    let output = "\u{a0}\u{2003}gho_\u{e9}\u{3000}\u{85}\u{2028}";
    assert_eq!(
        token_from_keyring(exited(true, output.as_bytes(), b"")),
        found("gho_\u{e9}")
    );
    let output = "\u{200b}gho_abc\u{feff}";
    assert_eq!(
        token_from_keyring(exited(true, output.as_bytes(), b"")),
        found(output)
    );
}

#[test]
fn token_from_keyring_takes_an_empty_output_for_a_token() {
    assert_eq!(token_from_keyring(exited(true, b"", b"")), found(""));
    assert_eq!(token_from_keyring(exited(true, b" \n\t\r\n", b"")), found(""));
}

#[test]
fn token_from_keyring_does_not_read_stderr_after_success() {
    assert_eq!(
        token_from_keyring(exited(true, b"gho_abc\n", b"no oauth token found")),
        found("gho_abc")
    );
    assert_eq!(
        token_from_keyring(exited(true, b"gho_abc\n", b"\xff\xfe")),
        found("gho_abc")
    );
}

#[test]
fn token_from_keyring_rejects_output_that_is_not_utf8() {
    for output in [&b"\xff"[..], b"gho_\xc3", b"gho_\xc3\x28abc\n", b"\xed\xa0\x80", b"\xc0\xaf"] {
        let error = std::str::from_utf8(output).unwrap_err();
        assert_eq!(
            token_from_keyring(exited(true, output, b"no oauth token found")),
            Err(TokenFromKeyringError::StdoutNotUTF8(error))
        );
    }
}

#[test]
fn token_from_keyring_rejects_diagnostics_that_are_not_utf8() {
    for diagnostic in [&b"\xff"[..], b"no oauth token found\x80", b"\xf0\x9f\x98"] {
        let error = std::str::from_utf8(diagnostic).unwrap_err();
        assert_eq!(
            token_from_keyring(exited(false, b"gho_abc\n", diagnostic)),
            Err(TokenFromKeyringError::StdErrorNotUTF8(error))
        );
    }
}

#[test]
fn token_from_keyring_takes_the_diagnostic_of_no_token_for_absence() {
    for diagnostic in [
        "no oauth token found",
        "no oauth token found for github.com\n",
        "gh: no oauth token found for my.ghes.com account \u{2018}me\u{2019}\n",
        "\u{1f512} no oauth token found",
        "no oauth token found no oauth token found",
    ] {
        assert_eq!(
            token_from_keyring(exited(false, b"", diagnostic.as_bytes())),
            Ok(None),
            "diagnostic {diagnostic:?}"
        );
    }
}

#[test]
fn token_from_keyring_reports_any_other_diagnostic() {
    for diagnostic in [
        "",
        "\n",
        "No OAuth token found",
        "NO OAUTH TOKEN FOUND",
        "no oauth token  found",
        "no oauth token foun",
        "o oauth token found",
        "no oauth\ntoken found",
        "no token found for github.com",
        "  unknown flag: --secure-storage\n",
    ] {
        assert_eq!(
            token_from_keyring(exited(false, b"gho_abc\n", diagnostic.as_bytes())),
            Err(TokenFromKeyringError::OutputStatusFail(
                diagnostic.to_owned()
            )),
            "diagnostic {diagnostic:?}"
        );
    }
}

#[test]
fn token_from_keyring_reports_a_helper_that_did_not_start() {
    for kind in [
        ErrorKind::NotFound,
        ErrorKind::PermissionDenied,
        ErrorKind::Other,
    ] {
        assert_eq!(
            token_from_keyring(HelperRun::NotStarted(kind)),
            Err(TokenFromKeyringError::FailToExecute(kind))
        );
    }
}
