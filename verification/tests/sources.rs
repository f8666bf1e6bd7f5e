use ghet_rektstension::{
    token_from_config, token_from_env, ConfigToken, EnvToken, Environment, KeyringToken, Source,
    Token, Var,
};

fn some(value: &str) -> Option<String> {
    Some(value.to_owned())
}

#[test]
fn var_names_are_those_of_the_environment() {
    assert_eq!(Var::GHToken.name(), "GH_TOKEN");
    assert_eq!(Var::GitHubToken.name(), "GITHUB_TOKEN");
    assert_eq!(Var::GHEnterpriseToken.name(), "GH_ENTERPRISE_TOKEN");
    assert_eq!(Var::GitHubEnterpriseToken.name(), "GITHUB_ENTERPRISE_TOKEN");
}

#[test]
fn default_environment_has_nothing_set() {
    assert_eq!(
        Environment::default(),
        Environment {
            gh_token: None,
            github_token: None,
            gh_enterprise_token: None,
            github_enterprise_token: None,
        }
    );
}

#[test]
fn token_from_env_reads_the_plain_pair_for_github_com() {
    let all = || Environment {
        gh_token: some("a"),
        github_token: some("b"),
        gh_enterprise_token: some("c"),
        github_enterprise_token: some("d"),
    };
    assert_eq!(
        token_from_env("github.com", all()),
        Some(EnvToken {
            value: "a".to_owned(),
            var: Var::GHToken
        })
    );
    assert_eq!(
        token_from_env(
            "github.com",
            Environment {
                gh_token: None,
                ..all()
            }
        ),
        Some(EnvToken {
            value: "b".to_owned(),
            var: Var::GitHubToken
        })
    );
    assert_eq!(
        token_from_env(
            "github.com",
            Environment {
                gh_token: None,
                github_token: None,
                ..all()
            }
        ),
        None
    );
}

#[test]
fn token_from_env_reads_the_enterprise_pair_for_other_hosts() {
    let all = || Environment {
        gh_token: some("a"),
        github_token: some("b"),
        gh_enterprise_token: some("c"),
        github_enterprise_token: some("d"),
    };
    for host in ["my.ghes.com", "unknown-host.com", "github.com:443", "tenant.ghe.com"] {
        assert_eq!(
            token_from_env(host, all()),
            Some(EnvToken {
                value: "c".to_owned(),
                var: Var::GHEnterpriseToken
            })
        );
        assert_eq!(
            token_from_env(
                host,
                Environment {
                    gh_enterprise_token: None,
                    ..all()
                }
            ),
            Some(EnvToken {
                value: "d".to_owned(),
                var: Var::GitHubEnterpriseToken
            })
        );
        assert_eq!(
            token_from_env(
                host,
                Environment {
                    gh_enterprise_token: None,
                    github_enterprise_token: None,
                    ..all()
                }
            ),
            None
        );
    }
}

#[test]
fn token_from_env_finds_nothing_in_an_empty_environment() {
    assert_eq!(token_from_env("github.com", Environment::default()), None);
    assert_eq!(token_from_env("my.ghes.com", Environment::default()), None);
}

#[test]
fn token_from_config_finds_nothing() {
    for host in ["github.com", "my.ghes.com", "unknown-host.com", ""] {
        assert_eq!(token_from_config(host), None);
    }
}

#[test]
fn token_from_env_token() {
    assert_eq!(
        Token::from(EnvToken {
            value: "gh-token-value".to_owned(),
            var: Var::GitHubEnterpriseToken
        }),
        Token {
            value: "gh-token-value".to_owned(),
            source: Source::Env(Var::GitHubEnterpriseToken)
        }
    );
}

#[test]
fn token_from_config_token() {
    assert_eq!(
        Token::from(ConfigToken {
            value: "config-token-value".to_owned(),
            path: "/home/me/.config/gh/hosts.yml".to_owned()
        }),
        Token {
            value: "config-token-value".to_owned(),
            source: Source::Config("/home/me/.config/gh/hosts.yml".to_owned())
        }
    );
}

#[test]
fn token_from_keyring_token() {
    assert_eq!(
        Token::from(KeyringToken {
            value: String::new()
        }),
        Token {
            value: String::new(),
            source: Source::Keyring
        }
    );
}
