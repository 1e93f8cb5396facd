//! The settings of the server.

use vstd::prelude::*;

use crate::jira::config::{ConfigView, JiraConfig};
use crate::string_set::StringSet;
use crate::text::copy_optional_text;
use crate::tool_registry;
use crate::tool_registry::all_toolsets;

verus! {

/// The settings of the server.
#[derive(Debug)]
pub struct RuntimeConfig {
    /// Whether tools that change something are off.
    pub read_only: bool,
    /// The tools that are on, where not all are. An empty set names none and has no
    /// effect.
    pub enabled_tools: Option<StringSet>,
    /// Tools that are off, whatever else is said.
    pub disabled_tools: StringSet,
    /// The toolsets whose tools are on.
    pub enabled_toolsets: StringSet,
    pub jira: Option<JiraConfig>,
    pub confluence_url: Option<String>,
    pub atlassian_oauth_cloud_id: Option<String>,
}

/// What the settings stand for.
#[verifier::ext_equal]
pub struct RuntimeView {
    pub read_only: bool,
    pub enabled_tools: Option<Seq<Seq<char>>>,
    pub disabled_tools: Seq<Seq<char>>,
    pub enabled_toolsets: Seq<Seq<char>>,
    pub jira: Option<ConfigView>,
    pub confluence_url: Option<Seq<char>>,
    pub atlassian_oauth_cloud_id: Option<Seq<char>>,
}

impl View for RuntimeConfig {
    type V = RuntimeView;

    open spec fn view(&self) -> RuntimeView {
        RuntimeView {
            read_only: self.read_only,
            enabled_tools: self.enabled_tools.deep_view(),
            disabled_tools: self.disabled_tools@,
            enabled_toolsets: self.enabled_toolsets@,
            jira: self.jira.deep_view(),
            confluence_url: self.confluence_url.deep_view(),
            atlassian_oauth_cloud_id: self.atlassian_oauth_cloud_id.deep_view(),
        }
    }
}

impl Clone for RuntimeConfig {
    fn clone(&self) -> (copy: Self)
        ensures
            copy@ == self@,
    {
        RuntimeConfig {
            read_only: self.read_only,
            enabled_tools: match &self.enabled_tools {
                Some(tools) => Some(tools.clone()),
                None => None,
            },
            disabled_tools: self.disabled_tools.clone(),
            enabled_toolsets: self.enabled_toolsets.clone(),
            jira: match &self.jira {
                Some(jira) => Some(jira.clone()),
                None => None,
            },
            confluence_url: copy_optional_text(&self.confluence_url),
            atlassian_oauth_cloud_id: copy_optional_text(&self.atlassian_oauth_cloud_id),
        }
    }
}

impl Default for RuntimeConfig {
    /// Every toolset is on, and no service is configured.
    fn default() -> (config: Self)
        ensures
            !config.read_only,
            config.enabled_tools is None,
            config.disabled_tools@.len() == 0,
            config.enabled_toolsets@.to_set() == tool_registry::all_toolset_names().to_set(),
            config.jira is None,
            config.confluence_url is None,
            config.atlassian_oauth_cloud_id is None,
    {
        RuntimeConfig {
            read_only: false,
            enabled_tools: None,
            disabled_tools: StringSet::new(),
            enabled_toolsets: all_toolsets(),
            jira: None,
            confluence_url: None,
            atlassian_oauth_cloud_id: None,
        }
    }
}

} // verus!
