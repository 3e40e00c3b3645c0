//! `export`: write a repository's benchmarks as JSON or CSV.
use vstd::prelude::*;

use super::{benchmarks_query, benchmarks_url, first_set, RequestError};
use crate::text::owned;

verus! {

/// Output formats of `export`.
#[derive(Debug, Clone, Copy, PartialEq, Eq, Structural)]
pub enum OutputFormat {
    Json,
    Csv,
}

/// Export benchmark data.
#[derive(Debug)]
pub struct ExportCommand {
    pub repo: Option<String>,
    pub format: OutputFormat,
    pub commit: Option<String>,
    pub name: Option<String>,
    /// Output file; standard output when unset.
    pub output: Option<String>,
    pub limit: u32,
    pub api_url: Option<String>,
}

/// The API base: the flag, else the configured one.
pub open spec fn api_base(flag: Option<String>, configured: Seq<char>) -> Seq<char> {
    match flag {
        Some(u) => u@,
        None => configured,
    }
}

impl ExportCommand {
    /// The address to fetch: the benchmarks of the repository given (else
    /// the configured default), filtered as asked. Without a repository the
    /// request cannot be made.
    pub fn request_url(&self, configured_api_url: &str, default_repo: Option<String>) -> (r: Result<
        String,
        RequestError,
    >)
        ensures
            match first_set(self.repo, default_repo) {
                Some(repo) => (r matches Ok(u) && u@ == benchmarks_query(
                    api_base(self.api_url, configured_api_url@),
                    repo@,
                    self.limit,
                    self.commit,
                    self.name,
                )),
                None => (r matches Err(RequestError::RepositoryNotSpecified)),
            },
    {
        let repo = match &self.repo {
            Some(r) => r.clone(),
            None => match default_repo {
                Some(r) => r,
                None => {
                    return Err(RequestError::RepositoryNotSpecified);
                },
            },
        };
        let api = match &self.api_url {
            Some(u) => u.clone(),
            None => owned(configured_api_url),
        };
        Ok(benchmarks_url(&api, &repo, self.limit, &self.commit, &self.name))
    }
}

} // verus!
