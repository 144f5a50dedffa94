use ghstd::config::{Config, Settings};
use ghstd::github::Repo;
use ghstd::standard::{drift, rules, Edit};

fn sample_repo() -> Repo {
    Repo {
        full_name: "octo/tool".to_string(),
        private: true,
        delete_branch_on_merge: false,
        allow_squash_merge: true,
        allow_merge_commit: true,
        allow_rebase_merge: false,
        allow_auto_merge: true,
        allow_update_branch: true,
        has_issues: true,
        has_projects: false,
        has_wiki: false,
        has_discussions: false,
        squash_merge_commit_message: "COMMIT_MESSAGES".to_string(),
        squash_merge_commit_title: "PR_TITLE".to_string(),
    }
}

fn readme_standard() -> Config {
    let mut s = Settings::default();
    s.delete_branch_on_merge = Some(true);
    s.squash_merge = Some(true);
    s.merge_commit = Some(false);
    s.rebase_merge = Some(false);
    s.auto_merge = Some(true);
    Config { standard: Some(s), public: None, private: None }
}

fn flag_of(edit: &Edit) -> String {
    match edit {
        Edit::Flag(f) => f.clone(),
        Edit::Patch { .. } => panic!("expected a flag"),
    }
}

#[test]
fn rules_follow_configured_settings_in_order() {
    let all = rules(&sample_repo(), &readme_standard());
    assert_eq!(all.len(), 5);
    assert_eq!(all[0].current_text(), "keep branches after merge");
    assert_eq!(all[0].desired_text(), "delete branches on merge");
    assert_eq!(flag_of(all[0].edit()), "--delete-branch-on-merge");
    assert_eq!(all[1].current_text(), "squash merge enabled");
    assert!(all[1].matches());
    assert_eq!(all[2].desired_text(), "merge commits disabled");
    assert_eq!(flag_of(all[2].edit()), "--enable-merge-commit=false");
    assert_eq!(all[3].current_text(), "rebase merge disabled");
    assert!(all[3].matches());
    assert_eq!(flag_of(all[4].edit()), "--enable-auto-merge");
}

#[test]
fn drift_keeps_only_unmatched_rules() {
    let changes = drift(&sample_repo(), &readme_standard());
    assert_eq!(changes.len(), 2);
    assert_eq!(flag_of(changes[0].edit()), "--delete-branch-on-merge");
    assert_eq!(flag_of(changes[1].edit()), "--enable-merge-commit=false");
    assert!(changes.iter().all(|r| !r.matches()));
}

#[test]
fn every_flag_setting_has_its_rule() {
    let mut s = Settings::default();
    s.update_branch = Some(false);
    s.issues = Some(false);
    s.projects = Some(true);
    s.wiki = Some(true);
    s.discussions = Some(true);
    let config = Config { standard: None, public: None, private: Some(s) };
    let all = rules(&sample_repo(), &config);
    let texts: Vec<(&str, &str)> = all.iter().map(|r| (r.current_text(), r.desired_text())).collect();
    assert_eq!(
        texts,
        vec![
            ("update branch suggestions enabled", "update branch suggestions disabled"),
            ("issues enabled", "issues disabled"),
            ("projects disabled", "projects enabled"),
            ("wiki disabled", "wiki enabled"),
            ("discussions disabled", "discussions enabled"),
        ]
    );
    let flags: Vec<String> = all.iter().map(|r| flag_of(r.edit())).collect();
    assert_eq!(
        flags,
        vec![
            "--allow-update-branch=false",
            "--enable-issues=false",
            "--enable-projects",
            "--enable-wiki",
            "--enable-discussions",
        ]
    );
}

#[test]
fn text_settings_become_patches() {
    let mut s = Settings::default();
    s.squash_merge_message = Some("PR_BODY".to_string());
    s.squash_merge_title = Some("PR_TITLE".to_string());
    let config = Config { standard: Some(s), public: None, private: None };
    let all = rules(&sample_repo(), &config);
    assert_eq!(all.len(), 2);
    assert_eq!(all[0].current_text(), "squash merge message COMMIT_MESSAGES");
    assert_eq!(all[0].desired_text(), "squash merge message PR_BODY");
    match all[0].edit() {
        Edit::Patch { field, value } => {
            assert_eq!(field, "squash_merge_commit_message");
            assert_eq!(value, "PR_BODY");
        }
        Edit::Flag(_) => panic!("expected a patch"),
    }
    assert!(all[1].matches());
    match all[1].edit() {
        Edit::Patch { field, value } => {
            assert_eq!(field, "squash_merge_commit_title");
            assert_eq!(value, "PR_TITLE");
        }
        Edit::Flag(_) => panic!("expected a patch"),
    }
    let changes = drift(&sample_repo(), &config);
    assert_eq!(changes.len(), 1);
    assert_eq!(changes[0].desired_text(), "squash merge message PR_BODY");
}

#[test]
fn conforming_repo_has_no_drift() {
    let mut repo = sample_repo();
    repo.delete_branch_on_merge = true;
    repo.allow_merge_commit = false;
    assert_eq!(rules(&repo, &readme_standard()).len(), 5);
    assert!(drift(&repo, &readme_standard()).is_empty());
}

#[test]
fn no_settings_no_rules() {
    assert!(rules(&sample_repo(), &Config::default()).is_empty());
    assert!(drift(&sample_repo(), &Config::default()).is_empty());
}
