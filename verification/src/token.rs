//! The resolved token and the record of where it came from.

use vstd::prelude::*;

verus! {

/// The mathematical value of an item that may be absent.
pub open spec fn view_of<T: View>(item: Option<T>) -> Option<T::V> {
    match item {
        Some(inner) => Some(inner@),
        None => None,
    }
}

/// One of the four environment variables that may carry a token.
#[derive(Debug, PartialEq, Eq, Copy, Clone)]
pub enum Var {
    GHToken,
    GitHubToken,
    GHEnterpriseToken,
    GitHubEnterpriseToken,
}

impl Var {
    /// The variable's name in the process environment.
    pub open spec fn name_spec(self) -> Seq<char> {
        match self {
            Var::GHToken => "GH_TOKEN"@,
            Var::GitHubToken => "GITHUB_TOKEN"@,
            Var::GHEnterpriseToken => "GH_ENTERPRISE_TOKEN"@,
            Var::GitHubEnterpriseToken => "GITHUB_ENTERPRISE_TOKEN"@,
        }
    }

    /// The variable's name in the process environment.
    pub fn name(self) -> (name: &'static str)
        ensures
            name@ == self.name_spec(),
    {
        match self {
            Var::GHToken => "GH_TOKEN",
            Var::GitHubToken => "GITHUB_TOKEN",
            Var::GHEnterpriseToken => "GH_ENTERPRISE_TOKEN",
            Var::GitHubEnterpriseToken => "GITHUB_ENTERPRISE_TOKEN",
        }
    }
}

/// Where a token was found.
#[derive(Debug, PartialEq, Eq)]
pub enum Source {
    /// In the environment, under the given variable.
    Env(Var),
    /// In the configuration file at the given path.
    Config(String),
    /// In secure storage, as reported by the helper.
    Keyring,
}

/// The mathematical value of a [`Source`].
pub ghost enum SourceView {
    Env(Var),
    Config(Seq<char>),
    Keyring,
}

impl View for Source {
    type V = SourceView;

    open spec fn view(&self) -> SourceView {
        match self {
            Source::Env(var) => SourceView::Env(*var),
            Source::Config(path) => SourceView::Config(path@),
            Source::Keyring => SourceView::Keyring,
        }
    }
}

/// A token together with its source.
#[derive(Debug, PartialEq, Eq)]
pub struct Token {
    pub value: String,
    pub source: Source,
}

/// The mathematical value of a [`Token`].
pub ghost struct TokenView {
    pub value: Seq<char>,
    pub source: SourceView,
}

impl TokenView {
    /// The token that a match in the environment stands for.
    pub open spec fn from_env(env_token: EnvTokenView) -> TokenView {
        TokenView { value: env_token.value, source: SourceView::Env(env_token.var) }
    }

    /// The token that a match in a configuration file stands for.
    pub open spec fn from_config(config_token: ConfigTokenView) -> TokenView {
        TokenView { value: config_token.value, source: SourceView::Config(config_token.path) }
    }

    /// The token that an answer of the helper stands for.
    pub open spec fn from_keyring(keyring_token: KeyringTokenView) -> TokenView {
        TokenView { value: keyring_token.value, source: SourceView::Keyring }
    }
}

impl View for Token {
    type V = TokenView;

    open spec fn view(&self) -> TokenView {
        TokenView { value: self.value@, source: self.source@ }
    }
}

/// A token found in the environment.
#[derive(Debug, PartialEq, Eq)]
pub struct EnvToken {
    pub value: String,
    pub var: Var,
}

/// The mathematical value of an [`EnvToken`].
pub ghost struct EnvTokenView {
    pub value: Seq<char>,
    pub var: Var,
}

impl View for EnvToken {
    type V = EnvTokenView;

    open spec fn view(&self) -> EnvTokenView {
        EnvTokenView { value: self.value@, var: self.var }
    }
}

/// A token found in a configuration file.
#[derive(Debug, PartialEq, Eq)]
pub struct ConfigToken {
    pub value: String,
    pub path: String,
}

/// The mathematical value of a [`ConfigToken`].
pub ghost struct ConfigTokenView {
    pub value: Seq<char>,
    pub path: Seq<char>,
}

impl View for ConfigToken {
    type V = ConfigTokenView;

    open spec fn view(&self) -> ConfigTokenView {
        ConfigTokenView { value: self.value@, path: self.path@ }
    }
}

/// A token handed out by the secure-storage helper.
#[derive(Debug, PartialEq, Eq)]
pub struct KeyringToken {
    pub value: String,
}

/// The mathematical value of a [`KeyringToken`].
pub ghost struct KeyringTokenView {
    pub value: Seq<char>,
}

impl View for KeyringToken {
    type V = KeyringTokenView;

    open spec fn view(&self) -> KeyringTokenView {
        KeyringTokenView { value: self.value@ }
    }
}

impl From<EnvToken> for Token {
    /// Stamps a token from the environment with the variable it was read from.
    fn from(env_token: EnvToken) -> (token: Self)
        ensures
            token@ == TokenView::from_env(env_token@),
    {
        Self { value: env_token.value, source: Source::Env(env_token.var) }
    }
}

impl vstd::std_specs::convert::FromSpecImpl<EnvToken> for Token {
    open spec fn obeys_from_spec() -> bool {
        true
    }

    open spec fn from_spec(env_token: EnvToken) -> Self {
        Self { value: env_token.value, source: Source::Env(env_token.var) }
    }
}

impl From<ConfigToken> for Token {
    /// Stamps a token from a configuration file with the path of that file.
    fn from(config_token: ConfigToken) -> (token: Self)
        ensures
            token@ == TokenView::from_config(config_token@),
    {
        Self { value: config_token.value, source: Source::Config(config_token.path) }
    }
}

impl vstd::std_specs::convert::FromSpecImpl<ConfigToken> for Token {
    open spec fn obeys_from_spec() -> bool {
        true
    }

    open spec fn from_spec(config_token: ConfigToken) -> Self {
        Self { value: config_token.value, source: Source::Config(config_token.path) }
    }
}

impl From<KeyringToken> for Token {
    /// Stamps a token from the helper as coming from secure storage.
    fn from(keyring_token: KeyringToken) -> (token: Self)
        ensures
            token@ == TokenView::from_keyring(keyring_token@),
    {
        Self { value: keyring_token.value, source: Source::Keyring }
    }
}

impl vstd::std_specs::convert::FromSpecImpl<KeyringToken> for Token {
    open spec fn obeys_from_spec() -> bool {
        true
    }

    open spec fn from_spec(keyring_token: KeyringToken) -> Self {
        Self { value: keyring_token.value, source: Source::Keyring }
    }
}

} // verus!
