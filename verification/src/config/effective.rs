//! Effective configuration: repository level over user level over compiled
//! defaults, with git detection as the last source of the repository
//! identity.
use vstd::prelude::*;

use super::user::{default_api_url, spec_default_api_url};
use super::{BackendType, Config, RepoConfig, RepositoryRef};
use crate::floatbits::FloatBits;
use crate::text::{eq_str, owned};

verus! {

/// The endpoint used when neither level sets one: the local service.
pub open spec fn spec_compiled_endpoint() -> Seq<char> {
    "http://localhost:50051"@
}

/// The endpoint that the user level contributes: its `cloud.api_url`,
/// unless that is the value a user configuration has by default, which
/// counts as not set and gives the compiled endpoint.
pub open spec fn user_endpoint(user: Config) -> Seq<char> {
    if user.cloud.api_url@ == spec_default_api_url() {
        spec_compiled_endpoint()
    } else {
        user.cloud.api_url@
    }
}

/// Resolved configuration values.
#[derive(Debug)]
pub struct EffectiveConfig {
    pub backend_type: BackendType,
    pub endpoint: String,
    pub repository: Option<RepositoryRef>,
    pub bench_threshold: FloatBits,
    pub lock_enabled: bool,
    pub lock_timeout_secs: u64,
}

impl EffectiveConfig {
    /// Resolves `repo` over `user`: the backend, threshold and lock come
    /// from the repository level (with its defaults), the endpoint from
    /// `[backend.cloud].api_url` else the user level (a user value equal to
    /// the user default counts as unset and gives `http://localhost:50051`),
    /// and the repository identity from `[project.repository]` else
    /// `git_repository`.
    pub fn resolve_with_git_repository(
        repo: &RepoConfig,
        user: &Config,
        git_repository: Option<RepositoryRef>,
    ) -> (e: EffectiveConfig)
        ensures
            e.backend_type == repo.backend.backend_type,
            e.endpoint@ == (match repo.spec_cloud_api_url() {
                Some(u) => u,
                None => user_endpoint(*user),
            }),
            e.repository == (match repo.spec_project_repository() {
                Some(r) => Some(r),
                None => git_repository,
            }),
            e.bench_threshold == repo.spec_bench_threshold(),
            e.lock_enabled == repo.spec_lock_enabled(),
            e.lock_timeout_secs == repo.spec_lock_timeout_secs(),
    {
        let endpoint = match repo.cloud_api_url() {
            Some(u) => owned(u),
            None => {
                let d = default_api_url();
                if eq_str(&user.cloud.api_url, &d) {
                    proof {
                        reveal_strlit("http://localhost:50051");
                    }
                    owned("http://localhost:50051")
                } else {
                    user.cloud.api_url.clone()
                }
            },
        };
        let repository = match repo.project_repository() {
            Some(r) => Some(r.clone()),
            None => git_repository,
        };
        EffectiveConfig {
            backend_type: repo.backend.backend_type,
            endpoint,
            repository,
            bench_threshold: repo.bench_threshold(),
            lock_enabled: repo.lock_enabled(),
            lock_timeout_secs: repo.lock_timeout_secs(),
        }
    }
}

} // verus!
