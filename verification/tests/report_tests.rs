use ghstd::config::{Config, Settings};
use ghstd::github::Repo;
use ghstd::report::{apply_standard, name_column_width, plan_apply, repo_status, status_table};

fn named_repo(name: &str, private: bool) -> Repo {
    Repo {
        full_name: name.to_string(),
        private,
        delete_branch_on_merge: true,
        allow_squash_merge: true,
        allow_merge_commit: true,
        allow_rebase_merge: true,
        allow_auto_merge: false,
        allow_update_branch: false,
        has_issues: true,
        has_projects: true,
        has_wiki: true,
        has_discussions: false,
        squash_merge_commit_message: "COMMIT_MESSAGES".to_string(),
        squash_merge_commit_title: "COMMIT_OR_PR_TITLE".to_string(),
    }
}

fn small_standard() -> Config {
    let mut s = Settings::default();
    s.delete_branch_on_merge = Some(true);
    s.squash_merge = Some(true);
    s.merge_commit = Some(false);
    s.rebase_merge = Some(false);
    s.auto_merge = Some(true);
    Config { standard: Some(s), public: None, private: None }
}

fn full_standard() -> Config {
    let mut s = Settings::default();
    s.delete_branch_on_merge = Some(false);
    s.squash_merge = Some(false);
    s.merge_commit = Some(false);
    s.rebase_merge = Some(false);
    s.auto_merge = Some(true);
    s.update_branch = Some(true);
    s.issues = Some(false);
    s.projects = Some(false);
    s.wiki = Some(false);
    s.discussions = Some(true);
    s.squash_merge_message = Some("PR_BODY".to_string());
    s.squash_merge_title = Some("PR_TITLE".to_string());
    Config { standard: Some(s), public: None, private: None }
}

#[test]
fn status_without_rules() {
    assert_eq!(repo_status(&named_repo("a/b", false), &Config::default()), "no rules");
}

#[test]
fn status_counts_drift() {
    assert_eq!(repo_status(&named_repo("a/b", false), &small_standard()), "3 drift");
}

#[test]
fn status_counts_twelve_drifting_rules() {
    assert_eq!(repo_status(&named_repo("a/b", false), &full_standard()), "12 drift");
}

#[test]
fn status_ok_when_conforming() {
    let mut repo = named_repo("a/b", false);
    repo.allow_merge_commit = false;
    repo.allow_rebase_merge = false;
    repo.allow_auto_merge = true;
    assert_eq!(repo_status(&repo, &small_standard()), "ok");
}

#[test]
fn status_table_pads_names() {
    let repos = vec![named_repo("me/a", false), named_repo("me/longer", true)];
    let lines = status_table(&repos, &small_standard());
    assert_eq!(lines, vec!["me/a       3 drift".to_string(), "me/longer  3 drift".to_string()]);
}

#[test]
fn status_table_of_nothing_is_empty() {
    assert!(status_table(&Vec::new(), &small_standard()).is_empty());
}

#[test]
fn apply_standard_splits_flags_and_patches() {
    let edits = apply_standard(&named_repo("a/b", false), &full_standard());
    assert_eq!(edits.changes.len(), 12);
    assert_eq!(edits.flags.len(), 10);
    assert_eq!(edits.flags[0], "--delete-branch-on-merge=false");
    assert_eq!(edits.flags[9], "--enable-discussions");
    assert_eq!(
        edits.fields,
        vec![
            ("squash_merge_commit_message".to_string(), "PR_BODY".to_string()),
            ("squash_merge_commit_title".to_string(), "PR_TITLE".to_string()),
        ]
    );
    assert_eq!(edits.outcome(), "applied");
}

#[test]
fn apply_standard_on_conforming_repo_is_ok() {
    let mut repo = named_repo("a/b", false);
    repo.allow_merge_commit = false;
    repo.allow_rebase_merge = false;
    repo.allow_auto_merge = true;
    let edits = apply_standard(&repo, &small_standard());
    assert!(edits.changes.is_empty());
    assert!(edits.flags.is_empty());
    assert!(edits.fields.is_empty());
    assert_eq!(edits.outcome(), "ok");
}

#[test]
fn plan_apply_skips_repos_without_rules() {
    assert!(plan_apply(&named_repo("a/b", true), &Config::default()).is_none());
    let plan = plan_apply(&named_repo("a/b", true), &small_standard()).unwrap();
    assert_eq!(
        plan.flags,
        vec!["--enable-merge-commit=false", "--enable-rebase-merge=false", "--enable-auto-merge"]
    );
}

#[test]
fn name_column_is_widest_name_in_bytes() {
    let repos = vec![named_repo("me/é", false), named_repo("me/ab", false)];
    assert_eq!(name_column_width(&repos), 5);
    assert_eq!(name_column_width(&Vec::new()), 0);
}
