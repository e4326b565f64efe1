//! Continuous profiling: its configuration, and what to start from it.

pub mod config;

pub use config::{ProfilerConfig, ProfilerConfigView, ProfilerError};

use crate::text::clone_opt;
use crate::string_map::StringMap;
use vstd::prelude::*;

verus! {

/// What to start for profiling, as mathematical values.
pub struct ProfilerSetupView {
    pub server_url: Seq<char>,
    pub application_name: Seq<char>,
    pub tags: Map<Seq<char>, Seq<char>>,
    pub tenant_id: Option<Seq<char>>,
    pub basic_auth: Option<(Seq<char>, Seq<char>)>,
}

/// What to start for profiling: an agent that reports to `server_url` under
/// `application_name`, with `tags`, for `tenant_id` where one is given, and
/// authenticated by `basic_auth` where one is given.
#[derive(Debug)]
pub struct ProfilerSetup {
    pub server_url: String,
    pub application_name: String,
    pub tags: StringMap,
    pub tenant_id: Option<String>,
    pub basic_auth: Option<(String, String)>,
}

impl View for ProfilerSetup {
    type V = ProfilerSetupView;

    open spec fn view(&self) -> ProfilerSetupView {
        ProfilerSetupView {
            server_url: self.server_url@,
            application_name: self.application_name@,
            tags: self.tags@,
            tenant_id: self.tenant_id.deep_view(),
            basic_auth: self.basic_auth.deep_view(),
        }
    }
}

impl ProfilerConfigView {
    /// What is to be started. Nothing where profiling is disabled. Where it
    /// is enabled, a server URL is required; the agent reports to it under
    /// the service name, with the tags of the configuration, and
    /// authenticates by user name and password where the credentials hold
    /// both.
    pub open spec fn setup(self) -> Result<Option<ProfilerSetupView>, ProfilerError> {
        if !self.enabled {
            Ok(None)
        } else {
            match self.server_url {
                None => Err(ProfilerError::ServerUrlRequired),
                Some(server_url) => Ok(
                    Some(
                        ProfilerSetupView {
                            server_url,
                            application_name: self.service_name,
                            tags: self.tags,
                            tenant_id: self.tenant_id,
                            basic_auth: self.credentials.basic_auth(),
                        },
                    ),
                ),
            }
        }
    }
}

/// Decides what to start for profiling. Nothing is started for a disabled
/// configuration; an enabled one without server URL is refused.
pub fn setup(config: &ProfilerConfig) -> (r: Result<Option<ProfilerSetup>, ProfilerError>)
    ensures
        match r {
            Ok(Some(p)) => config@.setup() == Ok::<Option<ProfilerSetupView>, ProfilerError>(
                Some(p@),
            ),
            Ok(None) => config@.setup() == Ok::<Option<ProfilerSetupView>, ProfilerError>(None),
            Err(e) => config@.setup() == Err::<Option<ProfilerSetupView>, ProfilerError>(e),
        },
{
    if !config.enabled {
        return Ok(None);
    }
    match &config.server_url {
        None => Err(ProfilerError::ServerUrlRequired),
        Some(server_url) => Ok(
            Some(
                ProfilerSetup {
                    server_url: server_url.clone(),
                    application_name: config.service_name.clone(),
                    tags: config.tags.clone(),
                    tenant_id: clone_opt(&config.tenant_id),
                    basic_auth: config.credentials.basic_auth(),
                },
            ),
        ),
    }
}

} // verus!
