//! Decisions on the results of git commands; running them is left to the caller.

use vstd::prelude::*;
use crate::text::{lower_of, lowercase, occurs_in, text_contains};

verus! {

/// Result of a repository sync.
#[derive(Debug, Clone, Copy, PartialEq, Eq, Structural)]
pub enum RepoStatus {
    /// The repository was cloned or updated.
    Ready,
    /// The repository does not exist on the remote.
    NotFound,
}

pub open spec fn says_not_found(stderr: Seq<char>) -> bool {
    occurs_in(lower_of(stderr), "not found"@) || occurs_in(lower_of(stderr), "does not exist"@)
}

/// Whether git's error output says the repository was not found on the remote.
pub fn is_repo_not_found(stderr: &str) -> (r: bool)
    ensures
        r == says_not_found(stderr@),
{
    let lower = lowercase(stderr);
    text_contains(lower.as_str(), "not found") || text_contains(lower.as_str(), "does not exist")
}

/// The outcome of a failed clone: `NotFound` when git says so, else an error
/// quoting git's output.
pub fn clone_failure(stderr: &str) -> (r: Result<RepoStatus, String>)
    ensures
        says_not_found(stderr@) ==> r == Ok::<RepoStatus, String>(RepoStatus::NotFound),
        !says_not_found(stderr@) ==> r is Err && r->Err_0@ == "git clone failed: "@ + stderr@,
{
    if is_repo_not_found(stderr) {
        Ok(RepoStatus::NotFound)
    } else {
        let mut m = String::from_str("git clone failed: ");
        m.append(stderr);
        Err(m)
    }
}

/// Checks a finished git command: an error naming the operation and quoting
/// git's output unless it succeeded.
pub fn check_git_output(success: bool, stderr: &str, operation: &str) -> (r: Result<(), String>)
    ensures
        success ==> r is Ok,
        !success ==> r is Err && r->Err_0@ == operation@ + " failed: "@ + stderr@,
{
    if success {
        Ok(())
    } else {
        let mut m = String::from_str(operation);
        m.append(" failed: ");
        m.append(stderr);
        Err(m)
    }
}

/// Statistics of a repository's history. Times are Unix seconds; zero when
/// there are no commits.
#[derive(Debug, Clone)]
pub struct CommitStats {
    pub commit_count: u64,
    pub first_commit_at: i64,
    pub last_commit_at: i64,
    /// For each requested window, the commits within that many days of now.
    pub commits_per_window: Vec<u64>,
}

/// Commits among the first `n` at or after `since`.
pub open spec fn commits_since(ts: Seq<i64>, n: int, since: int) -> nat
    decreases n,
{
    if n <= 0 {
        0
    } else {
        commits_since(ts, n - 1, since) + if ts[n - 1] >= since { 1nat } else { 0nat }
    }
}

fn count_since(ts: &Vec<i64>, since: i128) -> (r: u64)
    ensures
        r as nat == commits_since(ts@, ts@.len() as int, since as int),
{
    let mut k: u64 = 0;
    let mut i: usize = 0;
    while i < ts.len()
        invariant
            i <= ts.len(),
            k as nat == commits_since(ts@, i as int, since as int),
            k <= i,
        decreases ts.len() - i,
    {
        if ts[i] as i128 >= since {
            k = k + 1;
        }
        i = i + 1;
    }
    k
}

/// Gathers statistics from commit times listed newest first, as `git log`
/// prints them: the count, the oldest and newest times, and for each window
/// of days the commits made within it before `now`.
pub fn get_commit_stats(timestamps: &Vec<i64>, now: i64, day_windows: &Vec<i64>) -> (r: CommitStats)
    ensures
        r.commit_count == timestamps@.len(),
        r.first_commit_at == (if timestamps@.len() == 0 { 0 } else { timestamps@.last() }),
        r.last_commit_at == (if timestamps@.len() == 0 { 0 } else { timestamps@[0] }),
        r.commits_per_window@.len() == day_windows@.len(),
        forall|w: int| 0 <= w < day_windows@.len() ==> (#[trigger] r.commits_per_window@[w]) as nat
            == commits_since(timestamps@, timestamps@.len() as int, now - day_windows@[w] * 86400),
{
    let n = timestamps.len();
    let mut windows: Vec<u64> = Vec::new();
    let mut w: usize = 0;
    while w < day_windows.len()
        invariant
            w <= day_windows.len(),
            windows@.len() == w,
            forall|k: int| 0 <= k < w ==> (#[trigger] windows@[k]) as nat
                == commits_since(timestamps@, timestamps@.len() as int, now - day_windows@[k] * 86400),
        decreases day_windows.len() - w,
    {
        let since: i128 = now as i128 - day_windows[w] as i128 * 86400;
        windows.push(count_since(timestamps, since));
        w = w + 1;
    }
    CommitStats {
        commit_count: n as u64,
        first_commit_at: if n == 0 { 0 } else { timestamps[n - 1] },
        last_commit_at: if n == 0 { 0 } else { timestamps[0] },
        commits_per_window: windows,
    }
}

} // verus!
