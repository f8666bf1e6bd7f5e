//! Lookup in a snapshot of the process environment.

use crate::text::same_text;
use crate::token::{view_of, EnvToken, EnvTokenView, Var};
use vstd::prelude::*;

verus! {

/// What the four token variables held when the snapshot was taken. A
/// variable that was not set is `None`.
#[derive(Debug, PartialEq, Eq)]
pub struct Environment {
    /// `GH_TOKEN`
    pub gh_token: Option<String>,
    /// `GITHUB_TOKEN`
    pub github_token: Option<String>,
    /// `GH_ENTERPRISE_TOKEN`
    pub gh_enterprise_token: Option<String>,
    /// `GITHUB_ENTERPRISE_TOKEN`
    pub github_enterprise_token: Option<String>,
}

/// The mathematical value of an [`Environment`].
pub ghost struct EnvironmentView {
    pub gh_token: Option<Seq<char>>,
    pub github_token: Option<Seq<char>>,
    pub gh_enterprise_token: Option<Seq<char>>,
    pub github_enterprise_token: Option<Seq<char>>,
}

impl EnvironmentView {
    /// The environment in which none of the four variables is set.
    pub open spec fn empty() -> EnvironmentView {
        EnvironmentView {
            gh_token: None,
            github_token: None,
            gh_enterprise_token: None,
            github_enterprise_token: None,
        }
    }

    /// What the snapshot holds for a variable.
    pub open spec fn get(self, var: Var) -> Option<Seq<char>> {
        match var {
            Var::GHToken => self.gh_token,
            Var::GitHubToken => self.github_token,
            Var::GHEnterpriseToken => self.gh_enterprise_token,
            Var::GitHubEnterpriseToken => self.github_enterprise_token,
        }
    }
}

impl View for Environment {
    type V = EnvironmentView;

    open spec fn view(&self) -> EnvironmentView {
        EnvironmentView {
            gh_token: view_of(self.gh_token),
            github_token: view_of(self.github_token),
            gh_enterprise_token: view_of(self.gh_enterprise_token),
            github_enterprise_token: view_of(self.github_enterprise_token),
        }
    }
}

impl Default for Environment {
    /// The environment in which none of the four variables is set.
    fn default() -> (env: Self)
        ensures
            env@ == EnvironmentView::empty(),
    {
        Environment {
            gh_token: None,
            github_token: None,
            gh_enterprise_token: None,
            github_enterprise_token: None,
        }
    }
}

/// Whether a host is `github.com` itself. Every other host, known or not,
/// counts as an enterprise host.
pub open spec fn is_github_com(host: Seq<char>) -> bool {
    host == "github.com"@
}

/// The short form of the pair of variables that a host is served from.
pub open spec fn short_var(host: Seq<char>) -> Var {
    if is_github_com(host) {
        Var::GHToken
    } else {
        Var::GHEnterpriseToken
    }
}

/// The long form of the pair of variables that a host is served from.
pub open spec fn long_var(host: Seq<char>) -> Var {
    if is_github_com(host) {
        Var::GitHubToken
    } else {
        Var::GitHubEnterpriseToken
    }
}

/// The token that the environment holds for a host: the value of the short
/// form of the host's pair where that is set, else the value of the long
/// form where that is set, else nothing.
pub open spec fn env_lookup(host: Seq<char>, env: EnvironmentView) -> Option<EnvTokenView> {
    match env.get(short_var(host)) {
        Some(value) => Some(EnvTokenView { value, var: short_var(host) }),
        None => match env.get(long_var(host)) {
            Some(value) => Some(EnvTokenView { value, var: long_var(host) }),
            None => None,
        },
    }
}

/// The first of two variables that is set, with its value.
fn first_set(short: Option<String>, short_var: Var, long: Option<String>, long_var: Var) -> (found:
    Option<EnvToken>)
    ensures
        view_of(found) == match view_of(short) {
            Some(value) => Some(EnvTokenView { value, var: short_var }),
            None => match view_of(long) {
                Some(value) => Some(EnvTokenView { value, var: long_var }),
                None => None,
            },
        },
{
    match short {
        Some(value) => Some(EnvToken { value, var: short_var }),
        None => match long {
            Some(value) => Some(EnvToken { value, var: long_var }),
            None => None,
        },
    }
}

/// Looks a host's token up in a snapshot of the environment.
///
/// `github.com` is served from `GH_TOKEN` and `GITHUB_TOKEN`, every other
/// host from `GH_ENTERPRISE_TOKEN` and `GITHUB_ENTERPRISE_TOKEN`; in either
/// pair the short form is preferred.
pub fn token_from_env(host: &str, env: Environment) -> (found: Option<EnvToken>)
    ensures
        view_of(found) == env_lookup(host@, env@),
{
    if same_text(host, "github.com") {
        first_set(env.gh_token, Var::GHToken, env.github_token, Var::GitHubToken)
    } else {
        first_set(
            env.gh_enterprise_token,
            Var::GHEnterpriseToken,
            env.github_enterprise_token,
            Var::GitHubEnterpriseToken,
        )
    }
}

/// For `github.com` the plain pair decides, whatever the enterprise pair
/// holds: `GH_TOKEN` wins where it is set, `GITHUB_TOKEN` is used where it
/// alone is set, and the token names the variable that it was read from.
pub proof fn lemma_github_com_reads_plain_pair(env: EnvironmentView)
    ensures
        env.gh_token is Some ==> env_lookup("github.com"@, env) == Some(
            EnvTokenView { value: env.gh_token->0, var: Var::GHToken },
        ),
        env.gh_token is None && env.github_token is Some ==> env_lookup("github.com"@, env)
            == Some(EnvTokenView { value: env.github_token->0, var: Var::GitHubToken }),
        env.gh_token is None && env.github_token is None ==> env_lookup("github.com"@, env)
            is None,
{
}

/// For every host but `github.com` the enterprise pair decides, whatever
/// the plain pair holds, with the same preference for the short form:
/// `GH_ENTERPRISE_TOKEN` wins where it is set, `GITHUB_ENTERPRISE_TOKEN` is
/// used where it alone is set.
pub proof fn lemma_other_hosts_read_enterprise_pair(host: Seq<char>, env: EnvironmentView)
    requires
        host != "github.com"@,
    ensures
        env.gh_enterprise_token is Some ==> env_lookup(host, env) == Some(
            EnvTokenView { value: env.gh_enterprise_token->0, var: Var::GHEnterpriseToken },
        ),
        env.gh_enterprise_token is None && env.github_enterprise_token is Some ==> env_lookup(
            host,
            env,
        ) == Some(
            EnvTokenView {
                value: env.github_enterprise_token->0,
                var: Var::GitHubEnterpriseToken,
            },
        ),
        env.gh_enterprise_token is None && env.github_enterprise_token is None ==> env_lookup(
            host,
            env,
        ) is None,
{
}

} // verus!
