//! `ingest`: submit benchmark files to the ingest service.
use vstd::prelude::*;

use super::first_set;
use crate::text::owned;

verus! {

/// Submit result files.
#[derive(Debug)]
pub struct IngestCommand {
    pub repo: Option<String>,
    pub commit: Option<String>,
    pub branch: Option<String>,
    pub grpc_url: Option<String>,
    pub dry_run: bool,
    pub files: Vec<String>,
}

impl IngestCommand {
    /// The repository to ingest into: the flag, else the configured
    /// default (git detection comes after both).
    pub fn repository_choice(&self, default_repo: Option<String>) -> (r: Option<String>)
        ensures
            r == first_set(self.repo, default_repo),
    {
        match &self.repo {
            Some(r) => Some(r.clone()),
            None => default_repo,
        }
    }

    /// The ingest service address: the flag, else the configured one.
    pub fn endpoint(&self, configured_grpc_url: &str) -> (r: String)
        ensures
            r@ == match self.grpc_url {
                Some(u) => u@,
                None => configured_grpc_url@,
            },
    {
        match &self.grpc_url {
            Some(u) => u.clone(),
            None => owned(configured_grpc_url),
        }
    }
}

/// What an ingest run has done so far: benchmarks ingested and files that
/// failed.
#[derive(Debug, Clone, Copy, PartialEq, Eq, Structural)]
pub struct IngestTally {
    pub ingested: u64,
    pub errors: u64,
}

impl IngestTally {
    /// Nothing done yet.
    pub fn new() -> (t: Self)
        ensures
            t.ingested == 0,
            t.errors == 0,
    {
        IngestTally { ingested: 0, errors: 0 }
    }

    /// A file yielded `count` benchmarks.
    pub fn record_file(&mut self, count: u64)
        requires
            old(self).ingested + count <= u64::MAX,
        ensures
            final(self).ingested == old(self).ingested + count,
            final(self).errors == old(self).errors,
    {
        self.ingested = self.ingested + count;
    }

    /// A file failed.
    pub fn record_error(&mut self)
        requires
            old(self).errors < u64::MAX,
        ensures
            final(self).ingested == old(self).ingested,
            final(self).errors == old(self).errors + 1,
    {
        self.errors = self.errors + 1;
    }

    /// The run fails when any file failed.
    pub fn failed(&self) -> (r: bool)
        ensures
            r == (self.errors > 0),
    {
        self.errors > 0
    }
}

} // verus!
