use git2::{Repository, Signature, Status};
use std::path::PathBuf;
use tempfile::TempDir;

fn init_repo() -> (Repository, TempDir) {
    let dir = TempDir::new().expect("Failed to create temp dir");
    let repo = Repository::init(dir.path()).expect("Failed to init repo");
    let mut config = repo.config().expect("Failed to get config");
    config.set_str("user.name", "Test User").unwrap();
    config.set_str("user.email", "test@example.com").unwrap();
    config.set_bool("core.logallrefupdates", false).unwrap();
    (repo, dir)
}

fn write_file(dir: &TempDir, path: &str, content: &str) -> PathBuf {
    let file_path = dir.path().join(path);
    fs_err::write(&file_path, content).expect("Failed to write file");
    file_path
}

fn commit(repo: &Repository, message: &str) -> git2::Oid {
    let mut index = repo.index().unwrap();
    let tree_id = index.write_tree().unwrap();
    let tree = repo.find_tree(tree_id).unwrap();
    let sig = Signature::now("Test User", "test@example.com").unwrap();
    let parent_commit = match repo.head() {
        Ok(head) => {
            let target = head.target().unwrap();
            vec![repo.find_commit(target).unwrap()]
        }
        Err(_) => vec![],
    };
    let parents: Vec<&git2::Commit> = parent_commit.iter().collect();
    repo.commit(Some("HEAD"), &sig, &sig, message, &tree, &parents)
        .unwrap()
}

#[test]
fn test_status_workflow() {
    let (repo, dir) = init_repo();

    // Create a file -> Untracked
    write_file(&dir, "new_file.txt", "content");
    let status = repo.statuses(None).unwrap();
    assert_eq!(status.len(), 1);
    let entry = status.get(0).unwrap();
    assert_eq!(entry.path().unwrap(), "new_file.txt");
    assert!(entry.status().contains(Status::WT_NEW));

    // Stage file -> Added
    let mut index = repo.index().unwrap();
    index.add_path(std::path::Path::new("new_file.txt")).unwrap();
    index.write().unwrap();

    let status = repo.statuses(None).unwrap();
    assert_eq!(status.len(), 1);
    let entry = status.get(0).unwrap();
    assert!(entry.status().contains(Status::INDEX_NEW));

    // Commit -> Clean
    commit(&repo, "initial commit");
    let status = repo.statuses(None).unwrap();
    assert_eq!(status.len(), 0);

    // Modify file -> Modified
    write_file(&dir, "new_file.txt", "content changed");
    let status = repo.statuses(None).unwrap();
    assert_eq!(status.len(), 1);
    let entry = status.get(0).unwrap();
    assert!(entry.status().contains(Status::WT_MODIFIED));
}
