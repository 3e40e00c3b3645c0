//! `bisect`: find the commit that introduced a regression (not yet
//! available).
use vstd::prelude::*;

use crate::text::owned;

verus! {

/// Find the commit that introduced a regression.
#[derive(Debug)]
pub struct BisectCommand {
    pub good: Option<String>,
    pub bad: Option<String>,
    pub name: Option<String>,
    pub command: Vec<String>,
}

/// What `bisect` answers.
pub open spec fn bisect_unavailable() -> Seq<char> {
    "`rafn bisect` is not yet implemented. It will automatically identify the commit that introduced a regression by running the benchmark at successive commits between --good and --bad."@
}

impl BisectCommand {
    /// Always fails: bisection is not available yet.
    pub fn execute(self) -> (r: Result<(), String>)
        ensures
            r matches Err(m) && m@ == bisect_unavailable(),
    {
        Err(
            owned(
                "`rafn bisect` is not yet implemented. It will automatically identify the commit that introduced a regression by running the benchmark at successive commits between --good and --bad.",
            ),
        )
    }
}

} // verus!
