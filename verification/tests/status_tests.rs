use gat_core::classify::{
    classify_entries, CONFLICTED_BIT, INDEX_MODIFIED_BIT, INDEX_NEW_BIT, WT_MODIFIED_BIT,
    WT_NEW_BIT,
};
use gat_core::backend::StatusEntryRaw;
use gat_core::domain::status::{CommitSuggestion, CommitType, RepoStatus};
use gat_core::error::AppError;
use gat_core::logging::{order_logs, OperationLogEntry};
use gat_core::text::{repo_name_of_path, short_id_of, str_le};

#[test]
fn test_repo_status_initialization() {
    let status = RepoStatus::new();
    assert!(status.staged.is_empty());
    assert!(status.unstaged.is_empty());
    assert!(status.untracked.is_empty());
    assert!(status.conflicted.is_empty());
    assert!(!status.has_changes());
    assert_eq!(status.total_count(), 0);
}

#[test]
fn test_commit_type_as_str() {
    assert_eq!(CommitType::Feat.as_str(), "feat");
    assert_eq!(CommitType::Fix.as_str(), "fix");
    assert_eq!(CommitType::Docs.as_str(), "docs");
}

#[test]
fn test_commit_suggestion_formatting() {
    let suggestion = CommitSuggestion::new(CommitType::Feat, "add new feature");
    assert_eq!(suggestion.formatted, "feat: add new feature");

    let scoped = suggestion.clone().with_scope("ui");
    assert_eq!(scoped.formatted, "feat(ui): add new feature");

    let with_body = scoped.with_body("detailed description");
    assert!(with_body.formatted.contains("feat(ui): add new feature"));
    assert!(with_body.formatted.contains("detailed description"));
}

#[test]
fn test_commit_suggestion_body_exact() {
    let s = CommitSuggestion::new(CommitType::Fix, "repair parser")
        .with_scope("core")
        .with_body("details here");
    assert_eq!(s.formatted, "fix(core): repair parser\n\ndetails here");
}

#[test]
fn test_flag_bits_match_backend() {
    assert_eq!(INDEX_NEW_BIT, git2::Status::INDEX_NEW.bits());
    assert_eq!(INDEX_MODIFIED_BIT, git2::Status::INDEX_MODIFIED.bits());
    assert_eq!(
        gat_core::classify::INDEX_DELETED_BIT,
        git2::Status::INDEX_DELETED.bits()
    );
    assert_eq!(
        gat_core::classify::INDEX_RENAMED_BIT,
        git2::Status::INDEX_RENAMED.bits()
    );
    assert_eq!(
        gat_core::classify::INDEX_TYPECHANGE_BIT,
        git2::Status::INDEX_TYPECHANGE.bits()
    );
    assert_eq!(WT_NEW_BIT, git2::Status::WT_NEW.bits());
    assert_eq!(WT_MODIFIED_BIT, git2::Status::WT_MODIFIED.bits());
    assert_eq!(gat_core::classify::WT_DELETED_BIT, git2::Status::WT_DELETED.bits());
    assert_eq!(
        gat_core::classify::WT_TYPECHANGE_BIT,
        git2::Status::WT_TYPECHANGE.bits()
    );
    assert_eq!(gat_core::classify::WT_RENAMED_BIT, git2::Status::WT_RENAMED.bits());
    assert_eq!(CONFLICTED_BIT, git2::Status::CONFLICTED.bits());
}

#[test]
fn test_classify_partially_staged_in_both() {
    let entries = vec![
        StatusEntryRaw {
            path: String::from("a.txt"),
            bits: INDEX_NEW_BIT | WT_MODIFIED_BIT,
        },
        StatusEntryRaw {
            path: String::from("b.txt"),
            bits: WT_NEW_BIT,
        },
    ];
    let r = classify_entries(&entries);
    assert_eq!(r.staged.len(), 1);
    assert_eq!(r.unstaged.len(), 1);
    assert_eq!(r.untracked.len(), 1);
    assert_eq!(r.conflicted.len(), 0);
    assert_eq!(r.staged[0].path, "a.txt");
    assert_eq!(r.unstaged[0].path, "a.txt");
    assert_eq!(r.untracked[0].path, "b.txt");
    assert!(r.staged[0].status.staged);
    assert!(r.staged[0].status.unstaged);
    assert!(!r.staged[0].status.untracked);
    assert_eq!(r.total_count(), 3);
    assert!(r.has_changes());
}

#[test]
fn test_classify_conflicted() {
    let entries = vec![StatusEntryRaw {
        path: String::from("clash.txt"),
        bits: CONFLICTED_BIT,
    }];
    let r = classify_entries(&entries);
    assert_eq!(r.staged.len(), 0);
    assert_eq!(r.unstaged.len(), 0);
    assert_eq!(r.untracked.len(), 0);
    assert_eq!(r.conflicted.len(), 1);
    assert_eq!(r.conflicted[0].path, "clash.txt");
    assert!(r.has_changes());
    assert_eq!(r.total_count(), 1);
}

#[test]
fn test_classify_preserves_order() {
    let entries = vec![
        StatusEntryRaw {
            path: String::from("z.txt"),
            bits: WT_MODIFIED_BIT,
        },
        StatusEntryRaw {
            path: String::from("a.txt"),
            bits: WT_MODIFIED_BIT,
        },
    ];
    let r = classify_entries(&entries);
    assert_eq!(r.unstaged.len(), 2);
    assert_eq!(r.unstaged[0].path, "z.txt");
    assert_eq!(r.unstaged[1].path, "a.txt");
}

#[test]
fn test_error_messages() {
    assert_eq!(
        AppError::RepoNotFound(String::from("/nope")).message(),
        "Repository not found at /nope"
    );
    assert_eq!(AppError::NothingToCommit.message(), "Nothing to commit");
    assert_eq!(
        AppError::InvalidInput(String::from("No head commit")).message(),
        "Invalid input: No head commit"
    );
    assert_eq!(AppError::Git(String::from("boom")).message(), "Git error: boom");
    assert_eq!(AppError::Io(String::from("disk")).message(), "IO error: disk");
    assert_eq!(AppError::MergeConflict.message(), "Merge conflict detected");
    assert_eq!(AppError::Http(String::from("504")).message(), "HTTP error: 504");
    assert_eq!(AppError::AiApi(String::from("quota")).message(), "AI API error: quota");
}

#[test]
fn test_repo_name_extraction() {
    assert_eq!(repo_name_of_path("/home/dev/project"), "project");
    assert_eq!(repo_name_of_path("plain"), "plain");
    assert_eq!(repo_name_of_path("/ends/with/"), "with");
    assert_eq!(repo_name_of_path("///"), "Unknown");
    assert_eq!(repo_name_of_path(""), "Unknown");
    assert_eq!(short_id_of("0123456789abcdef"), "0123456");
    assert_eq!(short_id_of("abc"), "abc");
    assert!(str_le("alpha", "beta"));
    assert!(str_le("alpha", "alpha"));
    assert!(!str_le("beta", "alpha"));
    assert!(str_le("alp", "alpha"));
    assert!(str_le("Zoo", "ant")); // case-sensitive: upper case precedes lower
}

#[test]
fn test_log_file_path() {
    assert_eq!(
        gat_core::logging::get_log_file_path("/tmp/repo"),
        "/tmp/repo/.gat/operations.log"
    );
}

#[test]
fn test_order_logs_desc_and_limit() {
    let entry = |ts: &str| OperationLogEntry {
        timestamp: String::from(ts),
        operation: String::from("commit"),
        details: String::new(),
        repo_path: String::from("/r"),
        success: true,
        error: None,
    };
    let logs = vec![
        entry("2024-01-02T00:00:00Z"),
        entry("2024-03-01T00:00:00Z"),
        entry("2024-01-01T00:00:00Z"),
    ];
    let all = order_logs(logs.clone(), None);
    assert_eq!(all.len(), 3);
    assert_eq!(all[0].timestamp, "2024-03-01T00:00:00Z");
    assert_eq!(all[1].timestamp, "2024-01-02T00:00:00Z");
    assert_eq!(all[2].timestamp, "2024-01-01T00:00:00Z");
    let two = order_logs(logs, Some(2));
    assert_eq!(two.len(), 2);
    assert_eq!(two[0].timestamp, "2024-03-01T00:00:00Z");
    assert_eq!(two[1].timestamp, "2024-01-02T00:00:00Z");
}

#[test]
fn test_list_credentials() {
    let keys = gat_core::credentials::list_credentials();
    assert_eq!(
        keys,
        vec![
            String::from("github-token"),
            String::from("gitlab-token"),
            String::from("git-username"),
            String::from("git-password"),
        ]
    );
}
