//! Single benchmark records of the ingest API, built field by field.
use vstd::prelude::*;

use crate::floatbits::FloatBits;
use crate::proto::Timestamp;
use crate::text::owned;

verus! {

/// `uuid::Uuid`, carried as it is: a record's tenant.
#[verifier::external_type_specification]
#[verifier::external_body]
pub struct ExTenantUuid(uuid::Uuid);

/// Summary measurements of one benchmark, in nanoseconds.
#[derive(Debug, Clone, Copy, PartialEq, Eq, Structural)]
pub struct Metrics {
    pub mean_ns: FloatBits,
    pub median_ns: FloatBits,
    pub stddev_ns: FloatBits,
    pub min_ns: FloatBits,
    pub max_ns: FloatBits,
    pub iterations: u64,
    pub ops_per_sec: FloatBits,
}

impl Default for Metrics {
    fn default() -> (m: Self)
        ensures
            m.mean_ns.bits == 0 && m.median_ns.bits == 0 && m.stddev_ns.bits == 0
                && m.min_ns.bits == 0 && m.max_ns.bits == 0 && m.iterations == 0
                && m.ops_per_sec.bits == 0,
    {
        Metrics {
            mean_ns: FloatBits::zero(),
            median_ns: FloatBits::zero(),
            stddev_ns: FloatBits::zero(),
            min_ns: FloatBits::zero(),
            max_ns: FloatBits::zero(),
            iterations: 0,
            ops_per_sec: FloatBits::zero(),
        }
    }
}

impl Metrics {
    /// The same measurements with an iteration count.
    pub fn with_iterations(self, iterations: u64) -> (m: Self)
        ensures
            m == (Metrics { iterations, ..self }),
    {
        Metrics { iterations, ..self }
    }
}

/// One benchmark record.
#[derive(Debug)]
pub struct Benchmark {
    pub tenant_id: uuid::Uuid,
    pub repository: String,
    pub commit_sha: String,
    pub benchmark_name: String,
    pub timestamp: Timestamp,
    pub toolset: String,
    pub language: String,
    pub branch: Option<String>,
    pub tag: Option<String>,
    pub ci_job_id: Option<String>,
    pub metrics: Metrics,
    pub custom_metrics: Vec<(String, FloatBits)>,
    pub labels: Vec<(String, String)>,
    pub cpu_model: Option<String>,
    pub os: Option<String>,
    pub raw_json: Option<String>,
}

impl Benchmark {
    /// A builder with nothing set.
    pub fn builder() -> (b: BenchmarkBuilder)
        ensures
            b.is_empty(),
    {
        BenchmarkBuilder {
            tenant_id: None,
            repository: None,
            commit_sha: None,
            benchmark_name: None,
            timestamp: None,
            toolset: None,
            language: None,
            branch: None,
            metrics: None,
            raw_json: None,
        }
    }
}

/// Collects a record's fields; [`BenchmarkBuilder::build`] checks that the
/// required ones are set.
#[derive(Debug)]
pub struct BenchmarkBuilder {
    pub tenant_id: Option<uuid::Uuid>,
    pub repository: Option<String>,
    pub commit_sha: Option<String>,
    pub benchmark_name: Option<String>,
    pub timestamp: Option<Timestamp>,
    pub toolset: Option<String>,
    pub language: Option<String>,
    pub branch: Option<String>,
    pub metrics: Option<Metrics>,
    pub raw_json: Option<String>,
}

/// A record that cannot be built.
#[derive(Debug)]
pub enum RecordError {
    /// A required field is missing; the message names it.
    Validation(String),
    /// No time was given and the system clock reads before the Unix epoch.
    Clock(String),
}

/// The current time since the Unix epoch, through
/// `std::time::SystemTime::duration_since`; `None` where the system clock
/// reads before the epoch. Nothing is said of the value, which is the
/// machine's clock.
#[verifier::external_body]
fn utc_now() -> (t: Option<Timestamp>) {
    match std::time::SystemTime::now().duration_since(std::time::UNIX_EPOCH) {
        Ok(d) => Some(Timestamp { seconds: d.as_secs() as i64, nanos: d.subsec_nanos() as i32 }),
        Err(_) => None,
    }
}

/// The message for a missing required field, by the order fields are
/// checked in: tenant, repository, commit, benchmark name, toolset,
/// language, metrics.
pub open spec fn first_missing(b: BenchmarkBuilder) -> Option<Seq<char>> {
    if b.tenant_id is None {
        Some("tenant_id is required"@)
    } else if b.repository is None {
        Some("repository is required"@)
    } else if b.commit_sha is None {
        Some("commit_sha is required"@)
    } else if b.benchmark_name is None {
        Some("benchmark_name is required"@)
    } else if b.toolset is None {
        Some("toolset is required"@)
    } else if b.language is None {
        Some("language is required"@)
    } else if b.metrics is None {
        Some("metrics is required"@)
    } else {
        None
    }
}

impl BenchmarkBuilder {
    /// No field is set.
    pub open spec fn is_empty(self) -> bool {
        &&& self.tenant_id is None
        &&& self.repository is None
        &&& self.commit_sha is None
        &&& self.benchmark_name is None
        &&& self.timestamp is None
        &&& self.toolset is None
        &&& self.language is None
        &&& self.branch is None
        &&& self.metrics is None
        &&& self.raw_json is None
    }

    /// Sets the tenant.
    pub fn tenant_id(self, tenant_id: uuid::Uuid) -> (b: Self)
        ensures
            b == (BenchmarkBuilder { tenant_id: Some(tenant_id), ..self }),
    {
        BenchmarkBuilder { tenant_id: Some(tenant_id), ..self }
    }

    /// Sets the repository.
    pub fn repository(self, repository: String) -> (b: Self)
        ensures
            b == (BenchmarkBuilder { repository: Some(repository), ..self }),
    {
        BenchmarkBuilder { repository: Some(repository), ..self }
    }

    /// Sets the commit.
    pub fn commit_sha(self, commit_sha: String) -> (b: Self)
        ensures
            b == (BenchmarkBuilder { commit_sha: Some(commit_sha), ..self }),
    {
        BenchmarkBuilder { commit_sha: Some(commit_sha), ..self }
    }

    /// Sets the benchmark name.
    pub fn benchmark_name(self, benchmark_name: String) -> (b: Self)
        ensures
            b == (BenchmarkBuilder { benchmark_name: Some(benchmark_name), ..self }),
    {
        BenchmarkBuilder { benchmark_name: Some(benchmark_name), ..self }
    }

    /// Sets the time of the record.
    pub fn timestamp(self, timestamp: Timestamp) -> (b: Self)
        ensures
            b == (BenchmarkBuilder { timestamp: Some(timestamp), ..self }),
    {
        BenchmarkBuilder { timestamp: Some(timestamp), ..self }
    }

    /// Sets the toolset.
    pub fn toolset(self, toolset: String) -> (b: Self)
        ensures
            b == (BenchmarkBuilder { toolset: Some(toolset), ..self }),
    {
        BenchmarkBuilder { toolset: Some(toolset), ..self }
    }

    /// Sets the language.
    pub fn language(self, language: String) -> (b: Self)
        ensures
            b == (BenchmarkBuilder { language: Some(language), ..self }),
    {
        BenchmarkBuilder { language: Some(language), ..self }
    }

    /// Sets the branch.
    pub fn branch(self, branch: String) -> (b: Self)
        ensures
            b == (BenchmarkBuilder { branch: Some(branch), ..self }),
    {
        BenchmarkBuilder { branch: Some(branch), ..self }
    }

    /// Sets the measurements.
    pub fn metrics(self, metrics: Metrics) -> (b: Self)
        ensures
            b == (BenchmarkBuilder { metrics: Some(metrics), ..self }),
    {
        BenchmarkBuilder { metrics: Some(metrics), ..self }
    }

    /// Sets the raw harness output.
    pub fn raw_json(self, raw_json: String) -> (b: Self)
        ensures
            b == (BenchmarkBuilder { raw_json: Some(raw_json), ..self }),
    {
        BenchmarkBuilder { raw_json: Some(raw_json), ..self }
    }

    /// The record, when every required field is set; otherwise the first
    /// missing one is reported. An unset time is the current time; where
    /// the clock reads before the Unix epoch that is a `Clock` error.
    pub fn build(self) -> (r: Result<Benchmark, RecordError>)
        ensures
            match first_missing(self) {
                Some(m) => (r matches Err(RecordError::Validation(msg)) && msg@ == m),
                None => match r {
                    Ok(b) => Some(b.tenant_id) == self.tenant_id && Some(b.repository)
                        == self.repository && Some(b.commit_sha) == self.commit_sha && Some(
                        b.benchmark_name,
                    ) == self.benchmark_name && Some(b.toolset) == self.toolset && Some(
                        b.language,
                    ) == self.language && Some(b.metrics) == self.metrics && b.branch
                        == self.branch && b.raw_json == self.raw_json && b.tag is None
                        && b.ci_job_id is None && b.cpu_model is None && b.os is None
                        && b.custom_metrics@.len() == 0 && b.labels@.len() == 0 && (
                    self.timestamp matches Some(t) ==> b.timestamp == t),
                    Err(e) => self.timestamp is None && (e matches RecordError::Clock(msg)
                        && msg@ == "system time before Unix epoch"@),
                },
            },
    {
        let tenant_id = match self.tenant_id {
            Some(t) => t,
            None => {
                return Err(RecordError::Validation(owned("tenant_id is required")));
            },
        };
        let repository = match self.repository {
            Some(v) => v,
            None => {
                return Err(RecordError::Validation(owned("repository is required")));
            },
        };
        let commit_sha = match self.commit_sha {
            Some(v) => v,
            None => {
                return Err(RecordError::Validation(owned("commit_sha is required")));
            },
        };
        let benchmark_name = match self.benchmark_name {
            Some(v) => v,
            None => {
                return Err(RecordError::Validation(owned("benchmark_name is required")));
            },
        };
        let toolset = match self.toolset {
            Some(v) => v,
            None => {
                return Err(RecordError::Validation(owned("toolset is required")));
            },
        };
        let language = match self.language {
            Some(v) => v,
            None => {
                return Err(RecordError::Validation(owned("language is required")));
            },
        };
        let metrics = match self.metrics {
            Some(m) => m,
            None => {
                return Err(RecordError::Validation(owned("metrics is required")));
            },
        };
        let timestamp = match self.timestamp {
            Some(t) => t,
            None => match utc_now() {
                Some(t) => t,
                None => {
                    return Err(RecordError::Clock(owned("system time before Unix epoch")));
                },
            },
        };
        Ok(
            Benchmark {
                tenant_id,
                repository,
                commit_sha,
                benchmark_name,
                timestamp,
                toolset,
                language,
                branch: self.branch,
                tag: None,
                ci_job_id: None,
                metrics,
                custom_metrics: Vec::new(),
                labels: Vec::new(),
                cpu_model: None,
                os: None,
                raw_json: self.raw_json,
            },
        )
    }
}

} // verus!
