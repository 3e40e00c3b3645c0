//! `trend`: a benchmark's history over time.
use vstd::prelude::*;

use crate::store::TrendQuery;

verus! {

/// Output formats of `trend`.
#[derive(Debug, Clone, Copy, PartialEq, Eq, Structural)]
pub enum OutputFormat {
    Table,
    Json,
}

/// Show benchmark history.
#[derive(Debug)]
pub struct TrendCommand {
    pub repo: Option<String>,
    /// One benchmark, or all when unset.
    pub name: Option<String>,
    pub format: OutputFormat,
    /// At most this many points (remote backend only).
    pub limit: u32,
    /// Service address, over the configured one.
    pub grpc_url: Option<String>,
}

impl TrendCommand {
    /// The query the backend answers.
    pub fn query(&self) -> (q: TrendQuery)
        ensures
            q.benchmark_name == self.name,
            q.limit == self.limit,
    {
        TrendQuery { benchmark_name: self.name.clone(), limit: self.limit }
    }
}

} // verus!
