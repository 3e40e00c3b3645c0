use rafn::config::RepositoryRef;
use rafn::git::{detect_git_info, extract_repo_from_url, git_output_value, GitError, GitInfo};

#[test]
fn test_extract_repo_ssh() {
    assert_eq!(
        extract_repo_from_url("git@github.com:owner/repo.git"),
        Some(RepositoryRef {
            forge: "github.com".to_string(),
            owner: "owner".to_string(),
            repository: "repo".to_string(),
        })
    );
}

#[test]
fn test_extract_repo_https() {
    assert_eq!(
        extract_repo_from_url("https://github.com/owner/repo.git"),
        Some(RepositoryRef {
            forge: "github.com".to_string(),
            owner: "owner".to_string(),
            repository: "repo".to_string(),
        })
    );
}

#[test]
fn test_extract_repo_https_no_git_suffix() {
    assert_eq!(
        extract_repo_from_url("https://github.com/owner/repo"),
        Some(RepositoryRef {
            forge: "github.com".to_string(),
            owner: "owner".to_string(),
            repository: "repo".to_string(),
        })
    );
}

#[test]
fn test_extract_repo_https_with_credentials() {
    assert_eq!(
        extract_repo_from_url("https://x-access-token@github.com/owner/repo.git"),
        Some(RepositoryRef {
            forge: "github.com".to_string(),
            owner: "owner".to_string(),
            repository: "repo".to_string(),
        })
    );
}

#[test]
fn test_extract_repo_gitlab_ssh() {
    assert_eq!(
        extract_repo_from_url("git@gitlab.com:owner/repo.git"),
        Some(RepositoryRef {
            forge: "gitlab.com".to_string(),
            owner: "owner".to_string(),
            repository: "repo".to_string(),
        })
    );
}

#[test]
fn extract_repo_rejects_text_that_is_no_remote() {
    assert_eq!(extract_repo_from_url("not a remote"), None);
}

#[test]
fn git_output_is_trimmed_and_failures_give_nothing() {
    assert_eq!(git_output_value(true, "abc123\n"), Some("abc123".to_string()));
    assert_eq!(git_output_value(false, "abc123\n"), None);
}

#[test]
fn detect_git_info_combines_command_outputs() {
    let info = detect_git_info(Some("git@github.com:o/r.git\n"), Some(" deadbeef\n"), None);
    assert_eq!(
        info.repository,
        Some(RepositoryRef { forge: "github.com".to_string(), owner: "o".to_string(), repository: "r".to_string() })
    );
    assert_eq!(info.commit_sha.as_deref(), Some("deadbeef"));
    assert_eq!(info.branch, None);
}

#[test]
fn resolve_prefers_flags_then_detection() {
    let detected = || GitInfo { repository: None, commit_sha: Some("d".to_string()), branch: Some("db".to_string()) };
    let (c, b) = GitInfo::resolve(Some("c".to_string()), None, detected());
    assert_eq!(c, Ok("c".to_string()));
    assert_eq!(b, Some("db".to_string()));
    let (c, _) = GitInfo::resolve(None, None, detected());
    assert_eq!(c, Ok("d".to_string()));
    let (c, _) = GitInfo::resolve(None, None, GitInfo { repository: None, commit_sha: None, branch: None });
    assert_eq!(c, Err(GitError::CommitNotFound));
}
