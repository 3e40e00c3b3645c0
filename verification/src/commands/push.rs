//! `push`: upload local snapshots to the remote service.
use vstd::prelude::*;

use crate::config::BackendType;

verus! {

/// Upload local snapshots.
#[derive(Debug)]
pub struct PushCommand {
    /// The commit to push; detected from git when unset.
    pub commit: Option<String>,
    /// Push every stored snapshot.
    pub all: bool,
    /// Load and report, without submitting.
    pub dry_run: bool,
    /// Service address, over the configured one.
    pub grpc_url: Option<String>,
}

/// Why nothing could be pushed.
#[derive(Debug)]
pub enum PushError {
    /// No commit was given and none could be detected.
    NoCommit,
    /// Some snapshots failed to upload; their commits in order.
    Failed(Vec<String>),
}

/// Pushing does nothing with the local backend: its snapshots stay local.
pub fn push_applies(backend: BackendType) -> (r: bool)
    ensures
        r == (backend != BackendType::Local),
{
    match backend {
        BackendType::Local => false,
        BackendType::Cloud => true,
    }
}

impl PushCommand {
    /// The commits to push: every stored one with `--all`, else the given
    /// commit or the detected one; an error when there is neither.
    pub fn commits_to_push(&self, stored: Vec<String>, detected: Option<String>) -> (r: Result<
        Vec<String>,
        PushError,
    >)
        ensures
            self.all ==> r == Ok::<Vec<String>, PushError>(stored),
            !self.all ==> match self.commit {
                Some(c) => (r matches Ok(v) && v@ == seq![c]),
                None => match detected {
                    Some(d) => (r matches Ok(v) && v@ == seq![d]),
                    None => (r matches Err(PushError::NoCommit)),
                },
            },
    {
        if self.all {
            return Ok(stored);
        }
        let commit = match &self.commit {
            Some(c) => c.clone(),
            None => match detected {
                Some(d) => d,
                None => {
                    return Err(PushError::NoCommit);
                },
            },
        };
        let v = vec![commit];
        Ok(v)
    }
}

/// Progress of a push: benchmarks the service accepted and commits whose
/// upload failed.
#[derive(Debug)]
pub struct PushTally {
    pub submitted: u32,
    pub failed: Vec<String>,
}

impl PushTally {
    /// Nothing pushed yet.
    pub fn new() -> (t: Self)
        ensures
            t.submitted == 0,
            t.failed@.len() == 0,
    {
        PushTally { submitted: 0, failed: Vec::new() }
    }

    /// The service accepted `count` benchmarks of a snapshot.
    pub fn record_submitted(&mut self, count: u32)
        requires
            old(self).submitted + count <= u32::MAX,
        ensures
            final(self).submitted == old(self).submitted + count,
            final(self).failed == old(self).failed,
    {
        self.submitted = self.submitted + count;
    }

    /// The snapshot of `commit` failed to upload.
    pub fn record_failure(&mut self, commit: String)
        ensures
            final(self).submitted == old(self).submitted,
            final(self).failed@ == old(self).failed@.push(commit),
    {
        self.failed.push(commit);
    }

    /// The push succeeds when no snapshot failed; otherwise the failed
    /// commits are reported.
    pub fn finish(self) -> (r: Result<u32, PushError>)
        ensures
            self.failed@.len() == 0 ==> r == Ok::<u32, PushError>(self.submitted),
            self.failed@.len() > 0 ==> (r matches Err(PushError::Failed(v)) && v == self.failed),
    {
        if self.failed.len() == 0 {
            Ok(self.submitted)
        } else {
            Err(PushError::Failed(self.failed))
        }
    }
}

} // verus!
