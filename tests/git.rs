use aprz::hosting::issue_stats;
use aprz::git::{check_git_output, clone_failure, get_commit_stats, is_repo_not_found, RepoStatus};

#[test]
fn test_check_git_output_success() {
    check_git_output(true, "", "test operation").unwrap();
}

#[test]
fn test_check_git_output_failure() {
    let result = check_git_output(false, "error: failed to do something", "test operation");
    assert!(result.is_err());
    assert!(result.unwrap_err().contains("test operation failed"));
}

#[test]
fn test_check_git_output_with_stderr() {
    let result = check_git_output(false, "fatal: not a git repository", "git status");
    assert!(result.is_err());
    let error_msg = result.unwrap_err();
    assert!(error_msg.contains("git status failed"));
    assert!(error_msg.contains("not a git repository"));
}

#[test]
fn repo_not_found_is_recognised_in_any_case() {
    assert!(is_repo_not_found("remote: Repository NOT FOUND."));
    assert!(is_repo_not_found("fatal: repository 'x' does not exist"));
    assert!(!is_repo_not_found("fatal: unable to access: timeout"));
    assert_eq!(clone_failure("ERROR: Not Found"), Ok(RepoStatus::NotFound));
    assert_eq!(clone_failure("boom"), Err("git clone failed: boom".to_string()));
}

#[test]
fn commit_stats_count_windows() {
    let day = 86400;
    let now = 1_000 * day;
    let ts = vec![now - day, now - 10 * day, now - 100 * day];
    let s = get_commit_stats(&ts, now, &vec![90, 5]);
    assert_eq!(s.commit_count, 3);
    assert_eq!(s.last_commit_at, now - day);
    assert_eq!(s.first_commit_at, now - 100 * day);
    assert_eq!(s.commits_per_window, vec![2, 1]);
}

#[test]
fn commit_stats_empty_history() {
    let s = get_commit_stats(&vec![], 5, &vec![90]);
    assert_eq!(s.commit_count, 0);
    assert_eq!(s.first_commit_at, 0);
    assert_eq!(s.last_commit_at, 0);
    assert_eq!(s.commits_per_window, vec![0]);
}

#[test]
fn issue_ages_give_nearest_rank_percentiles() {
    let ages: Vec<u32> = vec![10, 1, 9, 2, 8, 3, 7, 4, 6, 5];
    let s = issue_stats(4, &ages);
    assert_eq!(s.open_count, 4);
    assert_eq!(s.closed_count, 10);
    assert_eq!(s.closed_age.avg, 5);
    assert_eq!(s.closed_age.p50, 5);
    assert_eq!(s.closed_age.p75, 8);
    assert_eq!(s.closed_age.p90, 9);
    assert_eq!(s.closed_age.p95, 10);
    let none = issue_stats(0, &vec![]);
    assert_eq!(none.closed_count, 0);
    assert_eq!(none.closed_age.p95, 0);
}
