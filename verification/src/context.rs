//! What the tools see of the settings.

use vstd::prelude::*;

use crate::config::{RuntimeConfig, RuntimeView};
use crate::jira::config::JiraConfig;
use crate::string_set::StringSet;
use crate::text::copy_optional_text;

verus! {

/// The services that are configured.
#[derive(Debug, Clone, Copy, PartialEq, Eq, Structural)]
pub struct ServiceAvailability {
    pub jira: bool,
    pub confluence: bool,
}

/// What the tools see of the settings.
#[derive(Debug)]
pub struct AppContext {
    pub config: RuntimeConfig,
}

impl View for AppContext {
    type V = RuntimeView;

    open spec fn view(&self) -> RuntimeView {
        self.config@
    }
}

impl Default for AppContext {
    fn default() -> (context: Self)
        ensures
            !context@.read_only,
            context@.enabled_tools is None,
            context@.disabled_tools.len() == 0,
            context@.enabled_toolsets.to_set()
                == crate::tool_registry::all_toolset_names().to_set(),
            context@.jira is None,
            context@.confluence_url is None,
            context@.atlassian_oauth_cloud_id is None,
    {
        AppContext { config: RuntimeConfig::default() }
    }
}

impl AppContext {
    /// The context that these settings make.
    pub fn from_config(config: &RuntimeConfig) -> (context: AppContext)
        ensures
            context@ == config@,
    {
        AppContext { config: config.clone() }
    }

    pub fn read_only(&self) -> (read_only: bool)
        ensures
            read_only == self@.read_only,
    {
        self.config.read_only
    }

    pub fn enabled_tools(&self) -> (tools: Option<&StringSet>)
        ensures
            tools.deep_view() == self@.enabled_tools,
    {
        match &self.config.enabled_tools {
            Some(tools) => Some(tools),
            None => None,
        }
    }

    pub fn disabled_tools(&self) -> (tools: &StringSet)
        ensures
            tools@ == self@.disabled_tools,
    {
        &self.config.disabled_tools
    }

    pub fn enabled_toolsets(&self) -> (toolsets: &StringSet)
        ensures
            toolsets@ == self@.enabled_toolsets,
    {
        &self.config.enabled_toolsets
    }

    /// The services that are configured.
    pub fn service_availability(&self) -> (availability: ServiceAvailability)
        ensures
            availability.jira == (self@.jira is Some),
            availability.confluence == (self@.confluence_url is Some),
    {
        ServiceAvailability {
            jira: self.config.jira.is_some(),
            confluence: self.config.confluence_url.is_some(),
        }
    }

    pub fn jira_config(&self) -> (config: Option<&JiraConfig>)
        ensures
            config.deep_view() == self@.jira,
    {
        match &self.config.jira {
            Some(config) => Some(config),
            None => None,
        }
    }

    pub fn atlassian_oauth_cloud_id(&self) -> (id: Option<String>)
        ensures
            id.deep_view() == self@.atlassian_oauth_cloud_id,
    {
        copy_optional_text(&self.config.atlassian_oauth_cloud_id)
    }
}

} // verus!
