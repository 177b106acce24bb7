//! Run configuration: four required credential values, resolved once at
//! startup and passed into every component. The surrounding binary reads
//! the process environment and hands the raw findings in; absence of any
//! value is a fatal configuration error before any network activity.

use vstd::prelude::*;
use vstd::string::{StringExecFns};
use crate::errors::FlowError;

verus! {

/// The four required credential values of a run.
pub struct Config {
    pub token: String,
    pub user: String,
    pub repo_slug: String,
    pub workspace: String,
}

impl Config {
    /// The full repository path: `<workspace>/<repo_slug>`.
    pub fn full_repo(&self) -> (r: String)
        ensures
            r@ == self.workspace@ + "/"@ + self.repo_slug@,
    {
        let mut s = self.workspace.clone();
        s.append("/");
        s.append(self.repo_slug.as_str());
        s
    }
}

/// Builds the configuration from the raw environment findings. Any absent
/// value is fatal; the error names the first absent variable, in the fixed
/// order token, user, repository slug, workspace. No partial configuration
/// is accepted.
pub fn build_config(
    token: Option<String>,
    user: Option<String>,
    repo_slug: Option<String>,
    workspace: Option<String>,
) -> (r: Result<Config, FlowError>)
    ensures
        r is Ok <==> (token is Some && user is Some && repo_slug is Some && workspace is Some),
        r matches Ok(c) ==> {
            &&& token matches Some(t) && c.token == t
            &&& user matches Some(u) && c.user == u
            &&& repo_slug matches Some(s) && c.repo_slug == s
            &&& workspace matches Some(w) && c.workspace == w
        },
        token is None ==> (r matches Err(FlowError::Config(m)) && m@ == "BITBUCKET_TOKEN"@),
        token is Some && user is None ==> (r matches Err(FlowError::Config(m)) && m@
            == "BITBUCKET_USER"@),
        token is Some && user is Some && repo_slug is None ==> (r matches Err(FlowError::Config(m))
            && m@ == "REPO_SLUG"@),
        token is Some && user is Some && repo_slug is Some && workspace is None ==> (r matches Err(
            FlowError::Config(m),
        ) && m@ == "WORKSPACE"@),
{
    let token = match token {
        Some(t) => t,
        None => {
            return Err(FlowError::Config(String::from_str("BITBUCKET_TOKEN")));
        },
    };
    let user = match user {
        Some(u) => u,
        None => {
            return Err(FlowError::Config(String::from_str("BITBUCKET_USER")));
        },
    };
    let repo_slug = match repo_slug {
        Some(s) => s,
        None => {
            return Err(FlowError::Config(String::from_str("REPO_SLUG")));
        },
    };
    let workspace = match workspace {
        Some(w) => w,
        None => {
            return Err(FlowError::Config(String::from_str("WORKSPACE")));
        },
    };
    Ok(Config { token, user, repo_slug, workspace })
}

/// The run-level target language: the configured value where one is set,
/// else the fixed default.
pub fn language_or_default(lang: Option<String>) -> (r: String)
    ensures
        lang matches Some(l) ==> r@ == l@,
        lang is None ==> r@ == "javascript"@,
{
    match lang {
        Some(l) => l,
        None => String::from_str("javascript"),
    }
}

} // verus!
