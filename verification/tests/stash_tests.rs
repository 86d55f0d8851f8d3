use git2::{Repository, Signature};
use std::path::PathBuf;
use tempfile::TempDir;

fn init_repo() -> (Repository, TempDir) {
    let dir = TempDir::new().expect("Failed to create temp dir");
    let repo = Repository::init(dir.path()).expect("Failed to init repo");
    let mut config = repo.config().expect("Failed to get config");
    config.set_str("user.name", "Test User").unwrap();
    config.set_str("user.email", "test@example.com").unwrap();
    // Stash entries are enumerated through the reflog of the stash
    // reference, so reference logging stays on here.
    config.set_bool("core.logallrefupdates", true).unwrap();
    (repo, dir)
}

fn write_file(dir: &TempDir, path: &str, content: &str) -> PathBuf {
    let file_path = dir.path().join(path);
    fs_err::write(&file_path, content).expect("Failed to write file");
    file_path
}

fn stage(repo: &Repository, path: &str) {
    let mut index = repo.index().unwrap();
    index.add_path(std::path::Path::new(path)).unwrap();
    index.write().unwrap();
}

fn commit(repo: &Repository, message: &str) -> git2::Oid {
    let mut index = repo.index().unwrap();
    let tree_id = index.write_tree().unwrap();
    let tree = repo.find_tree(tree_id).unwrap();
    let sig = Signature::now("Test User", "test@example.com").unwrap();
    let parent_commit = match repo.head() {
        Ok(head) => {
            let target = head.target().unwrap();
            vec![repo.find_commit(target).unwrap()]
        }
        Err(_) => vec![],
    };
    let parents: Vec<&git2::Commit> = parent_commit.iter().collect();
    repo.commit(Some("HEAD"), &sig, &sig, message, &tree, &parents)
        .unwrap()
}

#[test]
fn test_stash_operations() {
    let (mut repo, dir) = init_repo();

    // Initial commit
    write_file(&dir, "file.txt", "initial");
    stage(&repo, "file.txt");
    commit(&repo, "initial");

    // Modify file
    write_file(&dir, "file.txt", "modified");

    // Stash
    let signature = repo.signature().unwrap();
    repo.stash_save(&signature, "test stash", None).unwrap();

    // Verify working directory is clean (back to initial)
    let content = fs_err::read_to_string(dir.path().join("file.txt")).unwrap();
    assert_eq!(content, "initial");

    // Verify stash list
    let mut stash_count = 0;
    repo.stash_foreach(|_, _, _| {
        stash_count += 1;
        true
    })
    .unwrap();
    assert_eq!(stash_count, 1);

    // Apply (pop) stash
    repo.stash_pop(0, None).unwrap();
    let content_restored = fs_err::read_to_string(dir.path().join("file.txt")).unwrap();
    assert_eq!(content_restored, "modified");
}

#[test]
fn test_stash_roundtrip_with_untracked() {
    let (repo, dir) = init_repo();
    write_file(&dir, "file.txt", "initial");
    stage(&repo, "file.txt");
    commit(&repo, "initial");

    // Dirty worktree plus one untracked file.
    write_file(&dir, "file.txt", "modified");
    write_file(&dir, "extra.txt", "untracked content");

    let path = dir.path().to_str().unwrap().to_string();
    gat_core::stash::stash_save(&path, Some("work in progress"), true).unwrap();

    // The working tree reverts to the last-commit state.
    let content = fs_err::read_to_string(dir.path().join("file.txt")).unwrap();
    assert_eq!(content, "initial");
    assert!(!dir.path().join("extra.txt").exists());

    // One entry, at index 0.
    let list = gat_core::stash::get_stash_list(&path).unwrap();
    assert_eq!(list.len(), 1);
    assert_eq!(list[0].index, 0);
    assert!(list[0].message.contains("work in progress"));

    // Popping restores both the tracked modification and the untracked
    // file, and empties the list.
    gat_core::stash::stash_pop(&path, 0).unwrap();
    let restored = fs_err::read_to_string(dir.path().join("file.txt")).unwrap();
    assert_eq!(restored, "modified");
    assert_eq!(
        fs_err::read_to_string(dir.path().join("extra.txt")).unwrap(),
        "untracked content"
    );
    let list_after = gat_core::stash::get_stash_list(&path).unwrap();
    assert_eq!(list_after.len(), 0);
}

#[test]
fn test_stash_pop_failure_keeps_entry() {
    let (repo, dir) = init_repo();
    write_file(&dir, "file.txt", "initial");
    stage(&repo, "file.txt");
    commit(&repo, "initial");

    write_file(&dir, "file.txt", "stashed change");
    let path = dir.path().to_str().unwrap().to_string();
    gat_core::stash::stash_save(&path, Some("kept on failure"), false).unwrap();

    // Dirty the worktree so the apply cannot proceed.
    write_file(&dir, "file.txt", "conflicting change");

    let popped = gat_core::stash::stash_pop(&path, 0);
    assert!(popped.is_err());

    // The entry is still present: the failed pop dropped nothing.
    let list = gat_core::stash::get_stash_list(&path).unwrap();
    assert_eq!(list.len(), 1);
    assert!(list[0].message.contains("kept on failure"));
}

#[test]
fn test_stash_apply_keeps_entry() {
    let (repo, dir) = init_repo();
    write_file(&dir, "file.txt", "initial");
    stage(&repo, "file.txt");
    commit(&repo, "initial");
    write_file(&dir, "file.txt", "changed");
    let path = dir.path().to_str().unwrap().to_string();
    gat_core::stash::stash_save(&path, None, false).unwrap();

    gat_core::stash::stash_apply(&path, 0).unwrap();
    assert_eq!(
        fs_err::read_to_string(dir.path().join("file.txt")).unwrap(),
        "changed"
    );
    // Apply does not remove the entry.
    let list = gat_core::stash::get_stash_list(&path).unwrap();
    assert_eq!(list.len(), 1);

    // Drop removes it without touching the worktree.
    gat_core::stash::stash_drop(&path, 0).unwrap();
    let list_after = gat_core::stash::get_stash_list(&path).unwrap();
    assert_eq!(list_after.len(), 0);
    assert_eq!(
        fs_err::read_to_string(dir.path().join("file.txt")).unwrap(),
        "changed"
    );
}

#[test]
fn test_stash_list_positions_newest_first() {
    let (repo, dir) = init_repo();
    write_file(&dir, "file.txt", "initial");
    stage(&repo, "file.txt");
    commit(&repo, "initial");
    let path = dir.path().to_str().unwrap().to_string();

    write_file(&dir, "file.txt", "first change");
    gat_core::stash::stash_save(&path, Some("older entry"), false).unwrap();
    write_file(&dir, "file.txt", "second change");
    gat_core::stash::stash_save(&path, Some("newer entry"), false).unwrap();

    let list = gat_core::stash::get_stash_list(&path).unwrap();
    assert_eq!(list.len(), 2);
    assert_eq!(list[0].index, 0);
    assert_eq!(list[1].index, 1);
    assert!(list[0].message.contains("newer entry"));
    assert!(list[1].message.contains("older entry"));
    assert_ne!(list[0].id, list[1].id);
}

#[test]
fn test_stash_save_with_nothing_to_stash() {
    let (repo, dir) = init_repo();
    write_file(&dir, "file.txt", "initial");
    stage(&repo, "file.txt");
    commit(&repo, "initial");

    let path = dir.path().to_str().unwrap().to_string();
    let r = gat_core::stash::stash_save(&path, Some("nothing here"), false);
    assert!(r.is_err());
    assert_eq!(r.err().unwrap().message(), "Nothing to commit");
}
