//! Where benchmark results are kept: local snapshots under
//! `.rafn/snapshots/`, or the remote service.
use vstd::prelude::*;

use crate::config::{BackendType, EffectiveConfig, RepoConfig, RepositoryRef};
use crate::floatbits::FloatBits;

pub mod local;
pub mod remote;

use local::LocalBackend;
use remote::RemoteBackend;

verus! {

/// Which points of a trend to fetch.
#[derive(Debug)]
pub struct TrendQuery {
    /// Only this benchmark's points, when set.
    pub benchmark_name: Option<String>,
    /// At most this many points per benchmark (the remote service applies
    /// it).
    pub limit: u32,
}

/// One benchmark's statistics at one commit.
#[derive(Debug)]
pub struct TrendDataPoint {
    pub benchmark_name: String,
    pub commit_sha: String,
    /// Milliseconds since the Unix epoch.
    pub timestamp: i64,
    pub mean_ns: FloatBits,
    pub median_ns: FloatBits,
    pub stddev_ns: FloatBits,
}

/// The model of a [`TrendDataPoint`].
pub type PointModel = (Seq<char>, Seq<char>, i64, FloatBits, FloatBits, FloatBits);

/// The model of a trend point.
pub open spec fn point_model(p: TrendDataPoint) -> PointModel {
    (p.benchmark_name@, p.commit_sha@, p.timestamp, p.mean_ns, p.median_ns, p.stddev_ns)
}

/// Why a store operation failed.
#[derive(Debug)]
pub enum StoreError {
    /// The remote backend needs a repository identity and none was
    /// configured or detected.
    RepositoryNotSpecified,
    /// No local snapshot exists for the commit.
    NoSnapshot(String),
    /// A comparison response has no summary.
    MissingSummary,
    /// A compared series has no key.
    MissingKey,
    /// A compared series has no outcome.
    MissingOutcome,
}

/// The configured backend.
#[derive(Debug)]
pub enum SelectedBackend {
    Local(LocalBackend),
    Remote(RemoteBackend),
}

impl SelectedBackend {
    /// Whether results come from the remote service.
    pub fn is_remote(&self) -> (r: bool)
        ensures
            r == (self is Remote),
    {
        match self {
            SelectedBackend::Local(_) => false,
            SelectedBackend::Remote(_) => true,
        }
    }

    /// The repository the remote backend addresses; none for the local
    /// backend.
    pub fn repository(&self) -> (r: Option<&RepositoryRef>)
        ensures
            match r {
                Some(x) => (self matches SelectedBackend::Remote(b) && b.spec_repository() == Some(
                    *x,
                )),
                None => self is Local || (self matches SelectedBackend::Remote(b)
                    && b.spec_repository() is None),
            },
    {
        match self {
            SelectedBackend::Local(_) => None,
            SelectedBackend::Remote(b) => b.repository(),
        }
    }
}

/// The repository identity the remote backend needs: the resolved one, or
/// an error when there is none.
pub fn require_repository(effective: &EffectiveConfig) -> (r: Result<RepositoryRef, StoreError>)
    ensures
        match effective.repository {
            Some(repo) => r == Ok::<RepositoryRef, StoreError>(repo),
            None => r matches Err(StoreError::RepositoryNotSpecified),
        },
{
    match &effective.repository {
        Some(repo) => Ok(repo.clone()),
        None => Err(StoreError::RepositoryNotSpecified),
    }
}

/// The local backend anchored at the project root, so snapshots land in
/// the same place from any subdirectory; relative to the working directory
/// when no root was found.
pub fn local_backend(repo_config: &RepoConfig) -> (b: LocalBackend)
    ensures
        b.spec_root() == opt_chars(repo_config.project_root),
{
    match &repo_config.project_root {
        Some(root) => LocalBackend::with_root(root.clone()),
        None => LocalBackend::default(),
    }
}

/// The characters of an optional string.
pub open spec fn opt_chars(o: Option<String>) -> Option<Seq<char>> {
    match o {
        Some(s) => Some(s@),
        None => None,
    }
}

/// The backend the resolved configuration selects: local snapshots, or the
/// remote service, which fails without a repository identity.
pub fn selected_backend(repo_config: &RepoConfig, effective: EffectiveConfig) -> (r: Result<
    SelectedBackend,
    StoreError,
>)
    ensures
        effective.backend_type == BackendType::Local ==> (r matches Ok(SelectedBackend::Local(b))
            && b.spec_root() == opt_chars(repo_config.project_root)),
        effective.backend_type == BackendType::Cloud ==> match effective.repository {
            Some(repo) => (r matches Ok(SelectedBackend::Remote(b)) && b.spec_endpoint()
                == effective.endpoint@ && b.spec_repository() == Some(repo)),
            None => (r matches Err(StoreError::RepositoryNotSpecified)),
        },
{
    match effective.backend_type {
        BackendType::Local => Ok(SelectedBackend::Local(local_backend(repo_config))),
        BackendType::Cloud => match RemoteBackend::from_effective(effective) {
            Ok(b) => Ok(SelectedBackend::Remote(b)),
            Err(e) => Err(e),
        },
    }
}

/// The remote backend for pushing results, which need no configured
/// repository: each snapshot names its own.
pub fn remote_backend_for_push(effective: EffectiveConfig) -> (b: RemoteBackend)
    ensures
        b.spec_endpoint() == effective.endpoint@,
        b.spec_repository() is None,
{
    RemoteBackend::for_push(effective)
}

/// The UTC minute, `%Y-%m-%d %H:%M`, of the time `secs` seconds after the
/// Unix epoch as `chrono` renders it, the epoch itself for seconds out of
/// its range. A function of the seconds alone.
pub uninterp spec fn utc_minute_text(secs: i64) -> Seq<char>;

/// `chrono::DateTime::<Utc>::from_timestamp(secs, 0)` (the default, the
/// epoch, when out of range) formatted with `%Y-%m-%d %H:%M`. The contract
/// claims only that the text is the one [`utc_minute_text`] names.
#[verifier::external_body]
fn utc_minute(secs: i64) -> (r: String)
    ensures
        r@ == utc_minute_text(secs),
{
    chrono::DateTime::<chrono::Utc>::from_timestamp(secs, 0).unwrap_or_default().format(
        "%Y-%m-%d %H:%M",
    ).to_string()
}

/// Whole seconds of a millisecond count, truncated toward zero.
pub open spec fn millis_to_secs(ms: int) -> int {
    if ms >= 0 {
        ms / 1000
    } else {
        -((-ms) / 1000)
    }
}

/// The minute a trend point was recorded at, in UTC, from its milliseconds
/// since the epoch.
pub fn format_timestamp(ts: &i64) -> (r: String)
    ensures
        r@ == utc_minute_text(millis_to_secs(*ts as int) as i64),
{
    let ms: i64 = *ts;
    let secs: i64 = if ms >= 0 {
        (ms as u64 / 1000) as i64
    } else {
        let m: u64 = (-(ms + 1)) as u64 + 1;
        assert(m == -ms);
        let q: u64 = m / 1000;
        -(q as i64)
    };
    utc_minute(secs)
}

} // verus!
