//! Repository-level configuration (`rafn.toml`).
use vstd::prelude::*;

use super::RepositoryRef;
use crate::floatbits::FloatBits;
use crate::framework::{join_path, join_path_str, parent_of, path_parent};

verus! {

/// Which storage backend snapshots are read from and written to.
#[derive(Debug, Clone, Copy, PartialEq, Eq, Structural)]
pub enum BackendType {
    /// The local `.rafn/` directory.
    Local,
    /// The rafn cloud service.
    Cloud,
}

impl Default for BackendType {
    fn default() -> (r: Self)
        ensures
            r == BackendType::Cloud,
    {
        BackendType::Cloud
    }
}

/// `[backend.cloud]`: the cloud service endpoint.
#[derive(Debug)]
pub struct CloudConfig {
    pub api_url: Option<String>,
}

/// `[backend]`.
#[derive(Debug)]
pub struct BackendSection {
    pub backend_type: BackendType,
    pub cloud: Option<CloudConfig>,
}

impl Default for BackendSection {
    fn default() -> (r: Self)
        ensures
            r.backend_type == BackendType::Cloud,
            r.cloud is None,
    {
        BackendSection { backend_type: BackendType::Cloud, cloud: None }
    }
}

/// `[project]`.
#[derive(Debug)]
pub struct ProjectConfig {
    /// Repository identity used to address the remote backend.
    pub repository: Option<RepositoryRef>,
}

/// `[bench]`.
#[derive(Debug)]
pub struct BenchConfig {
    /// Regression threshold percentage: a benchmark must be slower by more
    /// than this before it counts as a regression.
    pub threshold: Option<FloatBits>,
    /// Whether `rafn bench` takes the machine-global lock.
    pub enable_lock: Option<bool>,
    /// Seconds to wait for the machine-global lock.
    pub lock_timeout: Option<u64>,
}

impl Default for BenchConfig {
    fn default() -> (r: Self)
        ensures
            r.threshold is None,
            r.enable_lock is None,
            r.lock_timeout is None,
    {
        BenchConfig { threshold: None, enable_lock: None, lock_timeout: None }
    }
}

/// Repository-level configuration.
#[derive(Debug)]
pub struct RepoConfig {
    pub backend: BackendSection,
    pub project: Option<ProjectConfig>,
    pub bench: Option<BenchConfig>,
    /// Directory that anchors snapshot storage: where `rafn.toml` was
    /// found, else the git root, else the working directory.
    pub project_root: Option<String>,
}

impl Default for RepoConfig {
    fn default() -> (r: Self)
        ensures
            r.backend.backend_type == BackendType::Cloud,
            r.backend.cloud is None,
            r.project is None,
            r.bench is None,
            r.project_root is None,
    {
        RepoConfig { backend: BackendSection::default(), project: None, bench: None, project_root: None }
    }
}

/// Bit pattern of the default threshold, 5.0 (%).
pub const DEFAULT_THRESHOLD_BITS: u64 = 0x4014_0000_0000_0000u64;

/// Default lock timeout in seconds (ten minutes).
pub const DEFAULT_LOCK_TIMEOUT_SECS: u64 = 600u64;

impl RepoConfig {
    /// `[backend.cloud].api_url`, if set.
    pub open spec fn spec_cloud_api_url(self) -> Option<Seq<char>> {
        match self.backend.cloud {
            Some(c) => match c.api_url {
                Some(u) => Some(u@),
                None => None,
            },
            None => None,
        }
    }

    /// `[project.repository]`, if set.
    pub open spec fn spec_project_repository(self) -> Option<RepositoryRef> {
        match self.project {
            Some(p) => p.repository,
            None => None,
        }
    }

    /// `[bench].threshold`, defaulting to 5 %.
    pub open spec fn spec_bench_threshold(self) -> FloatBits {
        match self.bench {
            Some(b) => match b.threshold {
                Some(t) => t,
                None => FloatBits { bits: DEFAULT_THRESHOLD_BITS },
            },
            None => FloatBits { bits: DEFAULT_THRESHOLD_BITS },
        }
    }

    /// `[bench].enable_lock`, off by default.
    pub open spec fn spec_lock_enabled(self) -> bool {
        match self.bench {
            Some(b) => match b.enable_lock {
                Some(e) => e,
                None => false,
            },
            None => false,
        }
    }

    /// `[bench].lock_timeout`, defaulting to 600 seconds.
    pub open spec fn spec_lock_timeout_secs(self) -> u64 {
        match self.bench {
            Some(b) => match b.lock_timeout {
                Some(t) => t,
                None => DEFAULT_LOCK_TIMEOUT_SECS,
            },
            None => DEFAULT_LOCK_TIMEOUT_SECS,
        }
    }

    /// Base URL from `[backend.cloud].api_url`, if set.
    pub fn cloud_api_url(&self) -> (r: Option<&str>)
        ensures
            match r {
                Some(u) => self.spec_cloud_api_url() == Some(u@),
                None => self.spec_cloud_api_url() is None,
            },
    {
        match &self.backend.cloud {
            Some(c) => match &c.api_url {
                Some(u) => Some(u.as_str()),
                None => None,
            },
            None => None,
        }
    }

    /// Repository identity from `[project.repository]`, if set.
    pub fn project_repository(&self) -> (r: Option<&RepositoryRef>)
        ensures
            match r {
                Some(x) => self.spec_project_repository() == Some(*x),
                None => self.spec_project_repository() is None,
            },
    {
        match &self.project {
            Some(p) => match &p.repository {
                Some(x) => Some(x),
                None => None,
            },
            None => None,
        }
    }

    /// Regression threshold from `[bench].threshold`, defaulting to 5 %.
    pub fn bench_threshold(&self) -> (t: FloatBits)
        ensures
            t == self.spec_bench_threshold(),
            match self.bench {
                Some(b) => match b.threshold {
                    Some(x) => t == x,
                    None => t.bits == 0x4014_0000_0000_0000u64,
                },
                None => t.bits == 0x4014_0000_0000_0000u64,
            },
    {
        match &self.bench {
            Some(b) => match b.threshold {
                Some(t) => t,
                None => FloatBits::from_bits(DEFAULT_THRESHOLD_BITS),
            },
            None => FloatBits::from_bits(DEFAULT_THRESHOLD_BITS),
        }
    }

    /// Whether the machine-global benchmark lock is enabled; off by default.
    pub fn lock_enabled(&self) -> (e: bool)
        ensures
            e == self.spec_lock_enabled(),
    {
        match &self.bench {
            Some(b) => match b.enable_lock {
                Some(e) => e,
                None => false,
            },
            None => false,
        }
    }

    /// Seconds to wait for the machine-global lock; 600 by default.
    pub fn lock_timeout_secs(&self) -> (t: u64)
        ensures
            t == self.spec_lock_timeout_secs(),
    {
        match &self.bench {
            Some(b) => match b.lock_timeout {
                Some(t) => t,
                None => DEFAULT_LOCK_TIMEOUT_SECS,
            },
            None => DEFAULT_LOCK_TIMEOUT_SECS,
        }
    }
}

/// The directory snapshots are anchored at: where `rafn.toml` was found,
/// else the git root, else the working directory.
pub fn project_root(found_toml: Option<&str>, git_root: Option<String>, cwd: String) -> (r: String)
    ensures
        r@ == match found_toml {
            Some(t) => match path_parent(t@) {
                Some(d) => d,
                None => match git_root {
                    Some(g) => g@,
                    None => cwd@,
                },
            },
            None => match git_root {
                Some(g) => g@,
                None => cwd@,
            },
        },
{
    let from_toml = match found_toml {
        Some(t) => parent_of(t),
        None => None,
    };
    match from_toml {
        Some(d) => d,
        None => match git_root {
            Some(g) => g,
            None => cwd,
        },
    }
}

/// `i` is the nearest directory that holds `rafn.toml`.
pub open spec fn is_nearest_toml(dirs: Seq<(String, bool)>, i: int) -> bool {
    &&& 0 <= i < dirs.len()
    &&& dirs[i].1
    &&& forall|j: int| 0 <= j < i ==> !(#[trigger] dirs[j]).1
}

/// The `rafn.toml` found walking up from a directory: `dirs` lists the
/// directory and then each ancestor up to the root, each with whether it
/// holds a `rafn.toml`; the first that does gives the file's path.
pub fn find_rafn_toml(dirs: &[(String, bool)]) -> (r: Option<String>)
    ensures
        match r {
            Some(p) => exists|i: int| is_nearest_toml(dirs@, i) && p@ == join_path(
                dirs@[i].0@,
                "rafn.toml"@,
            ),
            None => forall|j: int| 0 <= j < dirs@.len() ==> !(#[trigger] dirs@[j]).1,
        },
{
    let mut i: usize = 0;
    while i < dirs.len()
        invariant
            i <= dirs@.len(),
            forall|j: int| 0 <= j < i ==> !(#[trigger] dirs@[j]).1,
        decreases dirs@.len() - i,
    {
        if dirs[i].1 {
            assert(is_nearest_toml(dirs@, i as int));
            return Some(join_path_str(&dirs[i].0, "rafn.toml"));
        }
        i = i + 1;
    }
    None
}

/// The regression threshold is the one `[bench].threshold` sets, and 5 %
/// (the binary64 value 5.0) whenever it is not set, whether or not a
/// `[bench]` section exists and whatever else that section sets.
pub proof fn lemma_bench_threshold_default(r: RepoConfig)
    ensures
        match r.bench {
            Some(b) => match b.threshold {
                Some(x) => r.spec_bench_threshold() == x,
                None => r.spec_bench_threshold().bits == 0x4014_0000_0000_0000u64,
            },
            None => r.spec_bench_threshold().bits == 0x4014_0000_0000_0000u64,
        },
{
}

/// The benchmark lock is off unless `[bench].enable_lock` turns it on, and
/// its timeout is `[bench].lock_timeout`, else 600 seconds; each setting
/// is independent of the others.
pub proof fn lemma_bench_lock_defaults(r: RepoConfig)
    ensures
        r.spec_lock_enabled() == (r.bench matches Some(b) && b.enable_lock == Some(true)),
        match r.bench {
            Some(b) => match b.lock_timeout {
                Some(t) => r.spec_lock_timeout_secs() == t,
                None => r.spec_lock_timeout_secs() == 600,
            },
            None => r.spec_lock_timeout_secs() == 600,
        },
{
}

} // verus!
