use git2::{Repository, Signature};
use std::path::PathBuf;
use tempfile::TempDir;

fn init_repo() -> (Repository, TempDir) {
    let dir = TempDir::new().expect("Failed to create temp dir");
    let repo = Repository::init(dir.path()).expect("Failed to init repo");
    let mut config = repo.config().expect("Failed to get config");
    config.set_str("user.name", "Test User").unwrap();
    config.set_str("user.email", "test@example.com").unwrap();
    config.set_bool("core.logallrefupdates", false).unwrap();
    (repo, dir)
}

fn write_file(dir: &TempDir, path: &str, content: &str) -> PathBuf {
    let file_path = dir.path().join(path);
    fs_err::write(&file_path, content).expect("Failed to write file");
    file_path
}

fn stage(repo: &Repository, path: &str) {
    let mut index = repo.index().unwrap();
    index.add_path(std::path::Path::new(path)).unwrap();
    index.write().unwrap();
}

fn commit(repo: &Repository, message: &str) -> git2::Oid {
    let mut index = repo.index().unwrap();
    let tree_id = index.write_tree().unwrap();
    let tree = repo.find_tree(tree_id).unwrap();
    let sig = Signature::now("Test User", "test@example.com").unwrap();
    let parent_commit = match repo.head() {
        Ok(head) => {
            let target = head.target().unwrap();
            vec![repo.find_commit(target).unwrap()]
        }
        Err(_) => vec![],
    };
    let parents: Vec<&git2::Commit> = parent_commit.iter().collect();
    repo.commit(Some("HEAD"), &sig, &sig, message, &tree, &parents)
        .unwrap()
}

#[test]
fn test_commit_history() {
    let (repo, dir) = init_repo();

    // Create initial commit
    write_file(&dir, "file1.txt", "content 1");
    stage(&repo, "file1.txt");
    commit(&repo, "feat: initial commit");

    // Create second commit
    write_file(&dir, "file2.txt", "content 2");
    stage(&repo, "file2.txt");
    commit(&repo, "fix: bug fix");

    // Verify log
    let mut revwalk = repo.revwalk().unwrap();
    revwalk.push_head().unwrap();
    let commits: Vec<_> = revwalk.collect::<Result<Vec<_>, _>>().unwrap();

    assert_eq!(commits.len(), 2);

    let head = repo.head().unwrap().peel_to_commit().unwrap();
    assert_eq!(head.message().unwrap(), "fix: bug fix");
    assert_eq!(head.parent_count(), 1);
}

#[test]
fn test_history_bounded_by_limit() {
    let (repo, dir) = init_repo();
    write_file(&dir, "file1.txt", "content 1");
    stage(&repo, "file1.txt");
    commit(&repo, "feat: initial commit");
    write_file(&dir, "file2.txt", "content 2");
    stage(&repo, "file2.txt");
    let second = commit(&repo, "fix: bug fix");

    let path = dir.path().to_str().unwrap().to_string();

    // Fewer reachable commits than the limit: all of them come back.
    let all = gat_core::repo::get_commit_history(&path, 10).unwrap();
    assert_eq!(all.len(), 2);
    assert_eq!(all[0].message, "fix: bug fix");
    assert_eq!(all[1].message, "feat: initial commit");
    assert_eq!(all[0].author, "Test User");
    assert_eq!(all[0].id, second.to_string());
    assert_eq!(all[0].short_id, second.to_string()[..7]);
    assert_eq!(all[0].short_id.len(), 7);

    // More reachable commits than the limit: exactly the limit come back.
    let one = gat_core::repo::get_commit_history(&path, 1).unwrap();
    assert_eq!(one.len(), 1);
    assert_eq!(one[0].message, "fix: bug fix");

    // A limit of zero returns nothing.
    let none = gat_core::repo::get_commit_history(&path, 0).unwrap();
    assert_eq!(none.len(), 0);
}
