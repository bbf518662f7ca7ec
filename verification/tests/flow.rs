use repo_tree::api::{auth_header_value, repo_info_url, tree_url};
use repo_tree::config::resolve_token;
use repo_tree::errors::AppError;
use repo_tree::ident::parse_repo_name;
use repo_tree::model::{RepoInfo, TreeEntry};
use repo_tree::render::format_tree;

#[test]
fn token_flag_wins() {
    let res = resolve_token(Some("flag-token".to_string()), Some("env-token".to_string()));
    assert_eq!(res, Ok("flag-token".to_string()));
}

#[test]
fn token_falls_back_to_environment() {
    let res = resolve_token(None, Some("env-token".to_string()));
    assert_eq!(res, Ok("env-token".to_string()));
}

#[test]
fn missing_token_fails_before_any_request() {
    assert_eq!(resolve_token(None, None), Err(AppError::MissingCredential));
}

#[test]
fn default_branch_present() {
    let info = RepoInfo { default_branch: Some("main".to_string()) };
    assert_eq!(info.default_branch_or_err(), Ok("main".to_string()));
}

#[test]
fn default_branch_absent_fails() {
    let info = RepoInfo { default_branch: None };
    assert_eq!(info.default_branch_or_err(), Err(AppError::MissingDefaultBranch));
}

#[test]
fn builds_metadata_url() {
    assert_eq!(
        repo_info_url("octocat", "Hello-World"),
        "https://api.github.com/repos/octocat/Hello-World"
    );
}

#[test]
fn builds_tree_url() {
    assert_eq!(
        tree_url("octocat", "Hello-World", "main"),
        "https://api.github.com/repos/octocat/Hello-World/git/trees/main?recursive=1"
    );
}

#[test]
fn builds_authorization_header() {
    assert_eq!(auth_header_value("abc123"), "token abc123");
}

#[test]
fn single_file_repo_end_to_end() {
    let (owner, repo) = parse_repo_name("octocat/Hello-World").unwrap();
    assert_eq!(
        repo_info_url(owner, repo),
        "https://api.github.com/repos/octocat/Hello-World"
    );
    let info = RepoInfo { default_branch: Some("main".to_string()) };
    let branch = info.default_branch_or_err().unwrap();
    assert_eq!(
        tree_url(owner, repo, &branch),
        "https://api.github.com/repos/octocat/Hello-World/git/trees/main?recursive=1"
    );
    let output = format_tree(vec![TreeEntry {
        path: "README.md".to_string(),
        mode: "100644".to_string(),
        type_field: "blob".to_string(),
        sha: "d670460b4b4aece5915caf5c68d12f560a9fe3e4".to_string(),
        size: Some(9),
        url: None,
    }]);
    assert_eq!(output, "FILE README.md\n");
}

#[test]
fn error_messages_name_the_failure() {
    assert_eq!(
        AppError::MalformedIdentifier.message(),
        "Repository name must be in the format 'username/repo'"
    );
    assert_eq!(AppError::MissingDefaultBranch.message(), "Default branch not found");
    assert_eq!(AppError::RequestFailed.message(), "Request to the API failed");
    assert_eq!(AppError::DecodeFailed.message(), "Failed to decode the API response");
    assert_eq!(AppError::OutputWriteFailed.message(), "Failed to write the output file");
    assert!(AppError::MissingCredential.message().contains("GITHUB_TOKEN"));
}
