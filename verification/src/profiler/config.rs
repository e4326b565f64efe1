//! Configuration of continuous profiling.

use crate::auth::{Credentials, CredentialsView};
use crate::text::clone_opt;
use crate::string_map::StringMap;
use vstd::prelude::*;
use vstd::string::StringExecFns;

verus! {

/// The tenant that takes the place of an unset one.
pub const DEFAULT_TENANT_ID: &'static str = "anonymous";

/// The first tag that carries the service name.
pub const SERVICE_TAG: &'static str = "service";

/// The second tag that carries the service name.
pub const SERVICE_NAME_TAG: &'static str = "service_name";

/// Why a configuration of profiling is refused.
#[derive(Clone, Copy, Debug, PartialEq, Eq, Structural)]
pub enum ProfilerError {
    /// Profiling is enabled and the service name is empty.
    ServiceNameRequired,
    /// Profiling is enabled and no server URL is set.
    ServerUrlRequired,
}

impl ProfilerError {
    /// The message of the error.
    pub open spec fn message(self) -> Seq<char> {
        match self {
            ProfilerError::ServiceNameRequired => "profiler service_name is required"@,
            ProfilerError::ServerUrlRequired => "profiler server_url is required when enabled"@,
        }
    }

    /// The message of the error.
    pub fn to_string(&self) -> (s: String)
        ensures
            s@ == self.message(),
    {
        match self {
            ProfilerError::ServiceNameRequired => String::from_str(
                "profiler service_name is required",
            ),
            ProfilerError::ServerUrlRequired => String::from_str(
                "profiler server_url is required when enabled",
            ),
        }
    }
}

/// The tags with `name` under `key`, unless `key` already has a value.
pub open spec fn with_tag_if_absent(
    tags: Map<Seq<char>, Seq<char>>,
    key: Seq<char>,
    name: Seq<char>,
) -> Map<Seq<char>, Seq<char>> {
    if tags.contains_key(key) {
        tags
    } else {
        tags.insert(key, name)
    }
}

/// The tags with the service name under both of its tags, where they have
/// no value yet.
pub open spec fn with_service_tags(tags: Map<Seq<char>, Seq<char>>, name: Seq<char>) -> Map<
    Seq<char>,
    Seq<char>,
> {
    with_tag_if_absent(with_tag_if_absent(tags, SERVICE_TAG@, name), SERVICE_NAME_TAG@, name)
}

/// The configuration of profiling as mathematical values.
pub struct ProfilerConfigView {
    pub enabled: bool,
    pub server_url: Option<Seq<char>>,
    pub service_name: Seq<char>,
    pub tags: Map<Seq<char>, Seq<char>>,
    pub tenant_id: Option<Seq<char>>,
    pub credentials: CredentialsView,
}

impl ProfilerConfigView {
    /// The configuration that a service name alone gives: enabled, without
    /// server URL, tagged with the service name, for the default tenant.
    pub open spec fn new(service_name: Seq<char>) -> ProfilerConfigView {
        ProfilerConfigView {
            enabled: true,
            server_url: None,
            service_name,
            tags: Map::<Seq<char>, Seq<char>>::empty().insert(SERVICE_TAG@, service_name).insert(
                SERVICE_NAME_TAG@,
                service_name,
            ),
            tenant_id: Some(DEFAULT_TENANT_ID@),
            credentials: CredentialsView::empty(),
        }
    }

    /// The configuration with its defaults filled in: an unset tenant becomes
    /// the default tenant, and the service name is put under each of its two
    /// tags that has no value.
    pub open spec fn with_defaults(self) -> ProfilerConfigView {
        ProfilerConfigView {
            tenant_id: match self.tenant_id {
                Some(t) => Some(t),
                None => Some(DEFAULT_TENANT_ID@),
            },
            tags: with_service_tags(self.tags, self.service_name),
            ..self
        }
    }

    /// Whether the configuration is accepted. A disabled one always is; an
    /// enabled one needs a service name, then a server URL.
    pub open spec fn validate(self) -> Result<(), ProfilerError> {
        if !self.enabled {
            Ok(())
        } else if self.service_name.len() == 0 {
            Err(ProfilerError::ServiceNameRequired)
        } else if self.server_url is None {
            Err(ProfilerError::ServerUrlRequired)
        } else {
            Ok(())
        }
    }

    /// Filling in the defaults twice gives what filling them in once gives.
    pub proof fn lemma_defaults_idempotent(self)
        ensures
            self.with_defaults().with_defaults() == self.with_defaults(),
    {
    }

    /// A disabled configuration is accepted whatever its other fields hold.
    pub proof fn lemma_disabled_is_valid(self)
        requires
            !self.enabled,
        ensures
            self.validate() is Ok,
    {
    }

    /// An enabled configuration with a service name and without server URL
    /// is refused for its missing URL.
    pub proof fn lemma_enabled_needs_server_url(self)
        requires
            self.enabled,
            self.service_name.len() > 0,
            self.server_url is None,
        ensures
            self.validate() == Err::<(), ProfilerError>(ProfilerError::ServerUrlRequired),
    {
    }

    /// A configuration is accepted exactly if it is disabled, or has a
    /// service name and a server URL.
    pub proof fn lemma_valid_is_complete(self)
        ensures
            self.validate() is Ok <==> !self.enabled || (self.service_name.len() > 0
                && self.server_url is Some),
    {
    }
}

/// The configuration of continuous profiling.
#[derive(Debug)]
pub struct ProfilerConfig {
    pub enabled: bool,
    pub server_url: Option<String>,
    pub service_name: String,
    pub tags: StringMap,
    pub tenant_id: Option<String>,
    pub credentials: Credentials,
}

impl View for ProfilerConfig {
    type V = ProfilerConfigView;

    open spec fn view(&self) -> ProfilerConfigView {
        ProfilerConfigView {
            enabled: self.enabled,
            server_url: self.server_url.deep_view(),
            service_name: self.service_name@,
            tags: self.tags@,
            tenant_id: self.tenant_id.deep_view(),
            credentials: self.credentials@,
        }
    }
}

impl Clone for ProfilerConfig {
    fn clone(&self) -> (c: ProfilerConfig)
        ensures
            c@ == self@,
            c.tags.spec_entries() == self.tags.spec_entries(),
    {
        ProfilerConfig {
            enabled: self.enabled,
            server_url: clone_opt(&self.server_url),
            service_name: self.service_name.clone(),
            tags: self.tags.clone(),
            tenant_id: clone_opt(&self.tenant_id),
            credentials: self.credentials.clone(),
        }
    }
}

impl ProfilerConfig {
    /// The configuration of profiling for a service: enabled, without server
    /// URL, tagged with the service name, for the default tenant.
    pub fn new(service_name: &str) -> (c: ProfilerConfig)
        ensures
            c@ == ProfilerConfigView::new(service_name@),
    {
        let mut tags = StringMap::new();
        tags.insert(String::from_str(SERVICE_TAG), String::from_str(service_name));
        tags.insert(String::from_str(SERVICE_NAME_TAG), String::from_str(service_name));
        ProfilerConfig {
            enabled: true,
            server_url: None,
            service_name: String::from_str(service_name),
            tags,
            tenant_id: Some(String::from_str(DEFAULT_TENANT_ID)),
            credentials: Credentials::new(),
        }
    }

    /// Enables or disables profiling.
    pub fn enabled(self, enabled: bool) -> (c: ProfilerConfig)
        ensures
            c@ == (ProfilerConfigView { enabled, ..self@ }),
    {
        let mut c = self;
        c.enabled = enabled;
        c
    }

    /// Sets the URL of the profiling server.
    pub fn with_server_url(self, url: &str) -> (c: ProfilerConfig)
        ensures
            c@ == (ProfilerConfigView { server_url: Some(url@), ..self@ }),
    {
        let mut c = self;
        c.server_url = Some(String::from_str(url));
        c
    }

    /// Adds a tag, in place of one of the same key.
    pub fn with_tag(self, key: &str, value: &str) -> (c: ProfilerConfig)
        ensures
            c@ == (ProfilerConfigView { tags: self@.tags.insert(key@, value@), ..self@ }),
    {
        let mut c = self;
        c.tags.insert(String::from_str(key), String::from_str(value));
        c
    }

    /// Sets the tenant.
    pub fn with_tenant_id(self, tenant_id: &str) -> (c: ProfilerConfig)
        ensures
            c@ == (ProfilerConfigView { tenant_id: Some(tenant_id@), ..self@ }),
    {
        let mut c = self;
        c.tenant_id = Some(String::from_str(tenant_id));
        c
    }

    /// Sets the credentials.
    pub fn with_credentials(self, credentials: Credentials) -> (c: ProfilerConfig)
        ensures
            c@ == (ProfilerConfigView { credentials: credentials@, ..self@ }),
    {
        let mut c = self;
        c.credentials = credentials;
        c
    }

    /// Fills in the defaults: an unset tenant becomes the default tenant, and
    /// the service name is put under each of its two tags that has no value.
    pub fn apply_defaults(&mut self)
        ensures
            final(self)@ == old(self)@.with_defaults(),
    {
        if self.tenant_id.is_none() {
            self.tenant_id = Some(String::from_str(DEFAULT_TENANT_ID));
        }
        if !self.tags.contains_key(SERVICE_TAG) {
            self.tags.insert(String::from_str(SERVICE_TAG), self.service_name.clone());
        }
        if !self.tags.contains_key(SERVICE_NAME_TAG) {
            self.tags.insert(String::from_str(SERVICE_NAME_TAG), self.service_name.clone());
        }
    }

    /// Checks the configuration. A disabled one is accepted whatever else it
    /// holds; an enabled one needs a service name, then a server URL.
    pub fn validate(&self) -> (r: Result<(), ProfilerError>)
        ensures
            r == self@.validate(),
    {
        if !self.enabled {
            return Ok(());
        }
        if self.service_name.as_str().is_empty() {
            return Err(ProfilerError::ServiceNameRequired);
        }
        if self.server_url.is_none() {
            return Err(ProfilerError::ServerUrlRequired);
        }
        Ok(())
    }
}

} // verus!
