use vstd::prelude::*;
use vstd::string::StringExecFns;
use crate::severity::Severity;

verus! {

/// Immutable input to initialization.
pub struct Config {
    /// The project identifier used to compose full trace references.
    /// When absent, initialization asks the metadata service for one and
    /// falls back to `unknown`.
    pub gcp_project_id: Option<String>,
    /// The minimum level to emit; defaults to `Info` when absent.
    pub level_filter: Option<Severity>,
}

/// The project identifier the process ends up with: the explicit one when
/// configured, else whatever a metadata fetch returned, else `unknown`.
pub open spec fn resolved_project_id(
    explicit: Option<Seq<char>>,
    fetched: Option<Seq<char>>,
) -> Seq<char> {
    match explicit {
        Some(p) => p,
        None => match fetched {
            Some(p) => p,
            None => "unknown"@,
        },
    }
}

impl Config {
    /// A config that auto-detects the project identifier from the metadata
    /// service, with the level left at its default.
    pub fn new() -> (r: Config)
        ensures
            r.gcp_project_id is None,
            r.level_filter is None,
    {
        Config { gcp_project_id: None, level_filter: None }
    }

    /// A config with an explicit project identifier, with the level left at
    /// its default.
    pub fn with_project_id(gcp_project_id: &str) -> (r: Config)
        ensures
            r.gcp_project_id matches Some(p) && p@ == gcp_project_id@,
            r.level_filter is None,
    {
        Config { gcp_project_id: Some(gcp_project_id.to_owned()), level_filter: None }
    }

    /// Set the minimum level to emit.
    pub fn with_level(self, level: Severity) -> (r: Config)
        ensures
            r.gcp_project_id == self.gcp_project_id,
            r.level_filter == Some(level),
    {
        Config { gcp_project_id: self.gcp_project_id, level_filter: Some(level) }
    }

    /// Whether initialization has to ask the metadata service at all: only
    /// a config without an explicit project identifier ever does.
    pub fn needs_metadata_fetch(&self) -> (r: bool)
        ensures
            r == (self.gcp_project_id is None),
    {
        match &self.gcp_project_id {
            Some(_) => false,
            None => true,
        }
    }

    /// The minimum level this config asks for, `Info` when unset.
    pub fn effective_level(&self) -> (r: Severity)
        ensures
            r == (match self.level_filter {
                Some(l) => l,
                None => Severity::Info,
            }),
    {
        match self.level_filter {
            Some(l) => l,
            None => Severity::Info,
        }
    }
}

impl Default for Config {
    /// Same as [`Config::new`].
    fn default() -> (r: Config)
        ensures
            r.gcp_project_id is None,
            r.level_filter is None,
    {
        Config::new()
    }
}

/// Pick the project identifier for the process: the explicit configured
/// value wins; a fetched one is used only in its absence; `unknown` is the
/// final fallback.
pub fn resolve_project_id(explicit: Option<String>, fetched: Option<String>) -> (r: String)
    ensures
        r@ == resolved_project_id(
            match explicit {
                Some(p) => Some(p@),
                None => None,
            },
            match fetched {
                Some(p) => Some(p@),
                None => None,
            },
        ),
{
    match explicit {
        Some(p) => p,
        None => match fetched {
            Some(p) => p,
            None => String::from_str("unknown"),
        },
    }
}

/// The metadata-service URL a default project identifier is fetched from,
/// for a given (possibly environment-overridden) metadata host.
pub fn metadata_url(host: &str) -> (r: String)
    ensures
        r@ == "http://"@ + host@ + "/computeMetadata/v1/project/project-id"@,
{
    let mut s = String::from_str("http://");
    s.append(host);
    s.append("/computeMetadata/v1/project/project-id");
    proof {
        assert(s@ =~= "http://"@ + host@ + "/computeMetadata/v1/project/project-id"@);
    }
    s
}

/// With an explicit project identifier, the resolved identifier is that
/// value, byte for byte independent of anything a metadata fetch would have
/// returned — so initialization need not make the call at all.
pub proof fn lemma_explicit_project_ignores_fetch(
    p: Seq<char>,
    f1: Option<Seq<char>>,
    f2: Option<Seq<char>>,
)
    ensures
        resolved_project_id(Some(p), f1) == resolved_project_id(Some(p), f2),
        resolved_project_id(Some(p), f1) == p,
{
}

} // verus!
