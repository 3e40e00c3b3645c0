//! `run`: run a benchmark command and submit its results.
use vstd::prelude::*;

use crate::text::eq_str;

verus! {

/// Run a benchmark command, find its results and submit them.
#[derive(Debug)]
pub struct RunCommand {
    pub grpc_url: String,
    pub repo: Option<String>,
    pub commit: Option<String>,
    pub branch: Option<String>,
    pub results_dir: Option<String>,
    pub dry_run: bool,
    pub verbose: bool,
    pub quiet: bool,
    pub command: Vec<String>,
}

/// The service address `run` uses when none is given.
pub open spec fn default_grpc_url() -> Seq<char> {
    "http://localhost:50051"@
}

impl RunCommand {
    /// The service address: the configured one while the flag is left at
    /// its default, else the flag.
    pub fn endpoint(&self, configured: String) -> (r: String)
        ensures
            self.grpc_url@ == default_grpc_url() ==> r == configured,
            self.grpc_url@ != default_grpc_url() ==> r@ == self.grpc_url@,
    {
        if eq_str(&self.grpc_url, "http://localhost:50051") {
            configured
        } else {
            self.grpc_url.clone()
        }
    }
}

/// The exit status `run` ends with: the benchmark command's code, or
/// `fallback` when it has none.
pub fn run_exit_code(code: Option<i32>, fallback: i32) -> (r: i32)
    ensures
        r == match code {
            Some(c) => c,
            None => fallback,
        },
{
    match code {
        Some(c) => c,
        None => fallback,
    }
}

} // verus!
