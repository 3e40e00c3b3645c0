//! `trend` over the HTTP API: one benchmark's history.
use vstd::prelude::*;

use super::export::api_base;
use super::{decimal, decimal_string, first_set, url_encode, url_encoded, RequestError};
use crate::text::{owned, push_all};

verus! {

/// Output formats of the HTTP `trend`.
#[derive(Debug, Clone, Copy, PartialEq, Eq, Structural)]
pub enum OutputFormat {
    Table,
    Json,
}

/// Show the time series of one benchmark.
#[derive(Debug)]
pub struct TrendCommand {
    pub repo: Option<String>,
    pub name: String,
    pub format: OutputFormat,
    pub limit: u32,
    pub api_url: Option<String>,
}

/// The trend address: `/v1/benchmarks/trend` under `api_url` for one
/// benchmark of `repository`, at most `limit` points; values URL-encoded.
pub open spec fn trend_query(api_url: Seq<char>, repository: Seq<char>, name: Seq<char>, limit: u32) -> Seq<
    char,
> {
    api_url + "/v1/benchmarks/trend?repository="@ + url_encoded(repository) + "&benchmark_name="@
        + url_encoded(name) + "&limit="@ + decimal(limit as nat)
}

impl TrendCommand {
    /// The address to fetch, for the repository given (else the configured
    /// default); an error without one.
    pub fn request_url(&self, configured_api_url: &str, default_repo: Option<String>) -> (r: Result<
        String,
        RequestError,
    >)
        ensures
            match first_set(self.repo, default_repo) {
                Some(repo) => (r matches Ok(u) && u@ == trend_query(
                    api_base(self.api_url, configured_api_url@),
                    repo@,
                    self.name@,
                    self.limit,
                )),
                None => (r matches Err(RequestError::RepositoryNotSpecified)),
            },
    {
        let repo = match &self.repo {
            Some(r) => r.clone(),
            None => match default_repo {
                Some(r) => r,
                None => {
                    return Err(RequestError::RepositoryNotSpecified);
                },
            },
        };
        let mut url = match &self.api_url {
            Some(u) => u.clone(),
            None => owned(configured_api_url),
        };
        push_all(&mut url, "/v1/benchmarks/trend?repository=");
        push_all(&mut url, &url_encode(&repo));
        push_all(&mut url, "&benchmark_name=");
        push_all(&mut url, &url_encode(&self.name));
        push_all(&mut url, "&limit=");
        push_all(&mut url, &decimal_string(self.limit as u64));
        Ok(url)
    }
}

} // verus!
