//! How to reach a Jira service.

use vstd::prelude::*;

use crate::atlassian::auth::{AtlassianAuth, AuthView};
use crate::string_set::StringSet;

verus! {

/// The two kinds of Jira service; they differ in API versions and in how texts are
/// written.
#[derive(Debug, Clone, Copy, PartialEq, Eq, Structural)]
pub enum JiraDeployment {
    Cloud,
    ServerDataCenter,
}

/// How to reach a Jira service. Where `projects_filter` names projects, the issues of
/// all others are out of bounds.
#[derive(Debug)]
pub struct JiraConfig {
    pub base_url: String,
    pub deployment: JiraDeployment,
    pub auth: AtlassianAuth,
    pub ssl_verify: bool,
    pub projects_filter: StringSet,
    pub timeout_seconds: u64,
}

/// What such settings stand for.
#[verifier::ext_equal]
pub struct ConfigView {
    pub base_url: Seq<char>,
    pub deployment: JiraDeployment,
    pub auth: AuthView,
    pub ssl_verify: bool,
    pub projects_filter: Seq<Seq<char>>,
    pub timeout_seconds: u64,
}

impl View for JiraConfig {
    type V = ConfigView;

    open spec fn view(&self) -> ConfigView {
        ConfigView {
            base_url: self.base_url@,
            deployment: self.deployment,
            auth: self.auth@,
            ssl_verify: self.ssl_verify,
            projects_filter: self.projects_filter@,
            timeout_seconds: self.timeout_seconds,
        }
    }
}

impl DeepView for JiraConfig {
    type V = ConfigView;

    open spec fn deep_view(&self) -> ConfigView {
        self@
    }
}

impl Clone for JiraConfig {
    fn clone(&self) -> (copy: Self)
        ensures
            copy@ == self@,
    {
        JiraConfig {
            base_url: self.base_url.clone(),
            deployment: self.deployment,
            auth: self.auth.clone(),
            ssl_verify: self.ssl_verify,
            projects_filter: self.projects_filter.clone(),
            timeout_seconds: self.timeout_seconds,
        }
    }
}

} // verus!
