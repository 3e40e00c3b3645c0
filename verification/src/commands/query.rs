//! `query`: list a repository's benchmarks from the HTTP API.
use vstd::prelude::*;

use super::api::export::api_base;
use super::api::{benchmarks_query, benchmarks_url, first_set, RequestError};
use crate::text::owned;

verus! {

/// Output formats of `query`.
#[derive(Debug, Clone, Copy, PartialEq, Eq, Structural)]
pub enum OutputFormat {
    Table,
    Json,
    Csv,
}

/// Query a repository's benchmarks.
#[derive(Debug)]
pub struct QueryCommand {
    pub repo: Option<String>,
    pub commit: Option<String>,
    pub name: Option<String>,
    pub format: OutputFormat,
    pub limit: u32,
    pub api_url: Option<String>,
}

impl QueryCommand {
    /// The address to fetch: the benchmarks of the repository given (else
    /// the configured default), filtered as asked; an error without a
    /// repository.
    pub fn request_url(&self, configured_api_url: &str, default_repo: Option<String>) -> (r: Result<
        String,
        RequestError,
    >)
        ensures
            match first_set(self.repo, default_repo) {
                Some(repo) => (r matches Ok(u) && u@ == benchmarks_query(
                    api_base(self.api_url, configured_api_url@),
                    repo@,
                    self.limit,
                    self.commit,
                    self.name,
                )),
                None => (r matches Err(RequestError::RepositoryNotSpecified)),
            },
    {
        let repo = match &self.repo {
            Some(r) => r.clone(),
            None => match default_repo {
                Some(r) => r,
                None => {
                    return Err(RequestError::RepositoryNotSpecified);
                },
            },
        };
        let api = match &self.api_url {
            Some(u) => u.clone(),
            None => owned(configured_api_url),
        };
        Ok(benchmarks_url(&api, &repo, self.limit, &self.commit, &self.name))
    }
}

} // verus!
