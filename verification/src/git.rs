//! Git repository identity and revision resolution.
use vstd::prelude::*;

use crate::config::RepositoryRef;
use crate::text::{
    chars_of, contains, has_suffix, occurs_at_exec, owned, split_once, split_once_char,
    string_of_range, trim, trim_bounds, trim_str, contains_seq,
};

verus! {

/// Host and path of `input` parsed as a WHATWG URL by the `url` crate, or
/// `None` when it does not parse; the host is `None` for URLs without one.
pub uninterp spec fn url_host_and_path(input: Seq<char>) -> Option<(Option<Seq<char>>, Seq<char>)>;

/// `url::Url::parse`, read back through `Url::host_str` and `Url::path`.
/// Claims only that the result is a function of the input: what parsing
/// yields (normalization, percent-encoding, default ports) is the `url`
/// crate's and is not restated here.
#[verifier::external_body]
fn parse_url_host_and_path(input: &str) -> (r: Option<(Option<String>, String)>)
    ensures
        match r {
            Some((h, p)) => url_host_and_path(input@) == Some(
                (
                    match h {
                        Some(x) => Some(x@),
                        None => None,
                    },
                    p@,
                ),
            ),
            None => url_host_and_path(input@) is None,
        },
{
    match url::Url::parse(input) {
        Ok(u) => {
            let host = match u.host_str() {
                Some(h) => Some(h.to_string()),
                None => None,
            };
            Some((host, u.path().to_string()))
        },
        Err(_) => None,
    }
}

/// Every leading `c` removed (`str::trim_start_matches(c)`).
pub open spec fn strip_leading(s: Seq<char>, c: char) -> Seq<char>
    decreases s.len(),
{
    if s.len() > 0 && s[0] == c {
        strip_leading(s.drop_first(), c)
    } else {
        s
    }
}

/// Every trailing copy of `p` removed (`str::trim_end_matches(p)`).
pub open spec fn strip_trailing(s: Seq<char>, p: Seq<char>) -> Seq<char>
    decreases s.len(),
{
    if p.len() > 0 && has_suffix(s, p) {
        strip_trailing(s.take(s.len() - p.len()), p)
    } else {
        s
    }
}

/// Number of characters before `strip_leading(s[i..], c)`.
fn strip_leading_from(s: &[char], i: usize, c: char) -> (k: usize)
    requires
        i <= s@.len(),
    ensures
        i <= k <= s@.len(),
        s@.skip(k as int) == strip_leading(s@.skip(i as int), c),
    decreases s@.len() - i,
{
    if i < s.len() && s[i] == c {
        assert(s@.skip(i as int).drop_first() =~= s@.skip(i + 1));
        strip_leading_from(s, i + 1, c)
    } else {
        i
    }
}

/// Length of `strip_trailing(s[..n], p)`.
fn strip_trailing_to(s: &[char], n: usize, p: &[char]) -> (k: usize)
    requires
        n <= s@.len(),
    ensures
        k <= n,
        s@.take(k as int) == strip_trailing(s@.take(n as int), p@),
    decreases n,
{
    if p.len() > 0 && p.len() <= n && occurs_at_exec(s, p, n - p.len()) {
        let m = n - p.len();
        proof {
            let t = s@.take(n as int);
            assert(t.skip(t.len() - p@.len()) =~= s@.subrange(m as int, n as int));
            assert(has_suffix(t, p@));
            assert(t.take(t.len() - p@.len()) =~= s@.take(m as int));
        }
        strip_trailing_to(s, m, p)
    } else {
        proof {
            let t = s@.take(n as int);
            if p@.len() > 0 && has_suffix(t, p@) {
                assert(t.skip(t.len() - p@.len()) =~= s@.subrange(n - p@.len(), n as int));
            }
        }
        n
    }
}

/// The repository named by a URL's host and path: the host is the forge,
/// and the path without its leading slashes and trailing `.git` splits at
/// its first `/` into owner and repository.
pub open spec fn spec_repo_from_parts(host: Option<Seq<char>>, path: Seq<char>) -> Option<
    (Seq<char>, Seq<char>, Seq<char>),
> {
    match host {
        None => None,
        Some(h) => match split_once_char(strip_trailing(strip_leading(path, '/'), ".git"@), '/') {
            Some((o, r)) => Some((h, o, r)),
            None => None,
        },
    }
}

/// The repository identity named by a parsed URL's host and path.
pub fn repo_from_url_parts(host: Option<&str>, path: &str) -> (r: Option<RepositoryRef>)
    ensures
        match r {
            Some(x) => spec_repo_from_parts(
                match host {
                    Some(h) => Some(h@),
                    None => None,
                },
                path@,
            ) == Some((x.forge@, x.owner@, x.repository@)),
            None => spec_repo_from_parts(
                match host {
                    Some(h) => Some(h@),
                    None => None,
                },
                path@,
            ) is None,
        },
{
    let forge = match host {
        Some(h) => owned(h),
        None => return None,
    };
    let cs = chars_of(path);
    let lo = strip_leading_from(&cs, 0, '/');
    let rest = string_of_range(&cs, lo, cs.len());
    let rs = chars_of(&rest);
    let git = chars_of(".git");
    let hi = strip_trailing_to(&rs, rs.len(), &git);
    let trimmed = string_of_range(&rs, 0, hi);
    let ts = chars_of(&trimmed);
    proof {
        assert(cs@.skip(0) =~= cs@);
        assert(rest@ =~= cs@.skip(lo as int));
        assert(rs@.take(rs@.len() as int) =~= rs@);
        assert(trimmed@ =~= rs@.take(hi as int));
    }
    match split_once(&ts, '/') {
        Some((owner, repository)) => Some(RepositoryRef { forge, owner, repository }),
        None => None,
    }
}

/// The URL a remote is parsed as: itself when it has a scheme (`://`),
/// else Git's SCP-like `[user@]host:path` rewritten to
/// `ssh://[user@]host/path`, or nothing when it has no `:` either.
pub open spec fn spec_normalized_remote(url: Seq<char>) -> Option<Seq<char>> {
    if contains_seq(url, "://"@) {
        Some(url)
    } else {
        match split_once_char(url, ':') {
            Some((h, p)) => Some("ssh://"@ + h + "/"@ + p),
            None => None,
        }
    }
}

/// The URL a remote is parsed as (see [`spec_normalized_remote`]).
pub fn normalized_remote(url: &str) -> (r: Option<String>)
    ensures
        match r {
            Some(n) => spec_normalized_remote(url@) == Some(n@),
            None => spec_normalized_remote(url@) is None,
        },
{
    let cs = chars_of(url);
    let sep = chars_of("://");
    if contains(&cs, &sep) {
        return Some(owned(url));
    }
    match split_once(&cs, ':') {
        Some((h, p)) => {
            let mut n = owned("ssh://");
            crate::text::push_all(&mut n, &h);
            crate::text::push_char(&mut n, '/');
            crate::text::push_all(&mut n, &p);
            proof {
                reveal_strlit("/");
                assert(n@ =~= "ssh://"@ + h@ + "/"@ + p@);
            }
            Some(n)
        },
        None => None,
    }
}

/// The repository identity a remote URL names: its host as the forge and
/// `owner/repository` from its path (see [`spec_repo_from_parts`]).
pub fn extract_repo_from_url(url: &str) -> (r: Option<RepositoryRef>)
    ensures
        r is Some ==> spec_normalized_remote(url@) is Some && url_host_and_path(
            spec_normalized_remote(url@)->0,
        ) is Some,
        match spec_normalized_remote(url@) {
            None => r is None,
            Some(n) => match url_host_and_path(n) {
                None => r is None,
                Some((h, p)) => match r {
                    Some(x) => spec_repo_from_parts(h, p) == Some(
                        (x.forge@, x.owner@, x.repository@),
                    ),
                    None => spec_repo_from_parts(h, p) is None,
                },
            },
        },
{
    let normalized = match normalized_remote(url) {
        Some(n) => n,
        None => return None,
    };
    match parse_url_host_and_path(&normalized) {
        Some((host, path)) => match host {
            Some(h) => repo_from_url_parts(Some(h.as_str()), &path),
            None => repo_from_url_parts(None, &path),
        },
        None => None,
    }
}

/// The value a successful git command printed: its output trimmed.
pub fn git_output_value(success: bool, stdout: &str) -> (r: Option<String>)
    ensures
        success ==> (r matches Some(v) && v@ == trim(stdout@)),
        !success ==> r is None,
{
    if success {
        let cs = chars_of(stdout);
        let (lo, hi) = trim_bounds(&cs);
        Some(string_of_range(&cs, lo, hi))
    } else {
        None
    }
}

/// Git repository information.
#[derive(Debug)]
pub struct GitInfo {
    pub repository: Option<RepositoryRef>,
    pub commit_sha: Option<String>,
    pub branch: Option<String>,
}

/// The commit could be found neither on the command line nor by git.
#[derive(Debug, Clone, Copy, PartialEq, Eq, Structural)]
pub enum GitError {
    CommitNotFound,
}

impl GitInfo {
    /// Merges command-line overrides with what git detected: the commit
    /// and branch given win; a commit found nowhere is an error.
    pub fn resolve(commit: Option<String>, branch: Option<String>, detected: GitInfo) -> (r: (
        Result<String, GitError>,
        Option<String>,
    ))
        ensures
            match commit {
                Some(c) => r.0 == Ok::<String, GitError>(c),
                None => match detected.commit_sha {
                    Some(c) => r.0 == Ok::<String, GitError>(c),
                    None => r.0 == Err::<String, GitError>(GitError::CommitNotFound),
                },
            },
            r.1 == (match branch {
                Some(b) => Some(b),
                None => detected.branch,
            }),
    {
        let commit_sha = match commit {
            Some(c) => Ok(c),
            None => match detected.commit_sha {
                Some(c) => Ok(c),
                None => Err(GitError::CommitNotFound),
            },
        };
        let branch_resolved = match branch {
            Some(b) => Some(b),
            None => detected.branch,
        };
        (commit_sha, branch_resolved)
    }
}

/// The identity a remote URL names, as `(forge, owner, repository)`.
pub open spec fn spec_remote_repo(url: Seq<char>) -> Option<(Seq<char>, Seq<char>, Seq<char>)> {
    match spec_normalized_remote(url) {
        None => None,
        Some(n) => match url_host_and_path(n) {
            None => None,
            Some((h, p)) => spec_repo_from_parts(h, p),
        },
    }
}

/// The three parts of an optional repository identity.
pub open spec fn repo_parts(r: Option<RepositoryRef>) -> Option<(Seq<char>, Seq<char>, Seq<char>)> {
    match r {
        Some(x) => Some((x.forge@, x.owner@, x.repository@)),
        None => None,
    }
}

/// What git reports about the working directory, from the output of the
/// commands that succeeded: `remote get-url origin`, `rev-parse HEAD` and
/// `rev-parse --abbrev-ref HEAD` (`None` for a command that failed).
pub fn detect_git_info(origin_url: Option<&str>, head: Option<&str>, branch: Option<&str>) -> (g:
    GitInfo)
    ensures
        repo_parts(g.repository) == match origin_url {
            Some(o) => spec_remote_repo(trim(o@)),
            None => None,
        },
        match head {
            Some(h) => (g.commit_sha matches Some(c) && c@ == trim(h@)),
            None => g.commit_sha is None,
        },
        match branch {
            Some(b) => (g.branch matches Some(x) && x@ == trim(b@)),
            None => g.branch is None,
        },
{
    let repository = match origin_url {
        Some(o) => {
            let url = trim_str(o);
            extract_repo_from_url(&url)
        },
        None => None,
    };
    let commit_sha = match head {
        Some(h) => git_output_value(true, h),
        None => None,
    };
    let branch = match branch {
        Some(b) => git_output_value(true, b),
        None => None,
    };
    GitInfo { repository, commit_sha, branch }
}

} // verus!
