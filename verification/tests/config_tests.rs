use ghstd::config::{Config, Settings};
use ghstd::github::Repo;
use ghstd::standard::{has_rules, settings_for};

fn public_repo() -> Repo {
    Repo {
        full_name: "octo/site".to_string(),
        private: false,
        delete_branch_on_merge: false,
        allow_squash_merge: true,
        allow_merge_commit: true,
        allow_rebase_merge: true,
        allow_auto_merge: false,
        allow_update_branch: false,
        has_issues: true,
        has_projects: true,
        has_wiki: true,
        has_discussions: false,
        squash_merge_commit_message: "COMMIT_MESSAGES".to_string(),
        squash_merge_commit_title: "COMMIT_OR_PR_TITLE".to_string(),
    }
}

#[test]
fn merge_overrides_only_what_other_sets() {
    let mut base = Settings::default();
    base.squash_merge = Some(true);
    base.wiki = Some(true);
    base.squash_merge_title = Some("PR_TITLE".to_string());
    let mut other = Settings::default();
    other.wiki = Some(false);
    other.issues = Some(false);
    base.merge(&other);
    assert_eq!(base.squash_merge, Some(true));
    assert_eq!(base.wiki, Some(false));
    assert_eq!(base.issues, Some(false));
    assert_eq!(base.merge_commit, None);
    assert_eq!(base.squash_merge_title, Some("PR_TITLE".to_string()));
}

#[test]
fn merge_with_empty_settings_changes_nothing() {
    let mut base = Settings::default();
    base.delete_branch_on_merge = Some(true);
    base.squash_merge_message = Some("PR_BODY".to_string());
    base.merge(&Settings::default());
    assert_eq!(base.delete_branch_on_merge, Some(true));
    assert_eq!(base.squash_merge_message, Some("PR_BODY".to_string()));
    assert!(base.has_rules());
}

#[test]
fn merge_copies_text_settings() {
    let mut base = Settings::default();
    let mut other = Settings::default();
    other.squash_merge_message = Some("BLANK".to_string());
    base.merge(&other);
    assert_eq!(base.squash_merge_message, Some("BLANK".to_string()));
    assert_eq!(base.squash_merge_title, None);
}

#[test]
fn default_settings_have_no_rules() {
    assert!(!Settings::default().has_rules());
    let mut s = Settings::default();
    s.discussions = Some(false);
    assert!(s.has_rules());
}

#[test]
fn visibility_table_layers_over_standard() {
    let mut standard = Settings::default();
    standard.squash_merge = Some(true);
    standard.wiki = Some(true);
    let mut public = Settings::default();
    public.wiki = Some(false);
    let mut private = Settings::default();
    private.issues = Some(false);
    let config = Config { standard: Some(standard), public: Some(public), private: Some(private) };
    let mut repo = public_repo();
    let s = settings_for(&repo, &config);
    assert_eq!(s.squash_merge, Some(true));
    assert_eq!(s.wiki, Some(false));
    assert_eq!(s.issues, None);
    repo.private = true;
    let s = settings_for(&repo, &config);
    assert_eq!(s.squash_merge, Some(true));
    assert_eq!(s.wiki, Some(true));
    assert_eq!(s.issues, Some(false));
}

#[test]
fn empty_config_has_no_rules() {
    let config = Config::default();
    assert!(!has_rules(&public_repo(), &config));
}

#[test]
fn private_table_does_not_reach_public_repos() {
    let mut private = Settings::default();
    private.wiki = Some(false);
    let config = Config { standard: None, public: None, private: Some(private) };
    let mut repo = public_repo();
    assert!(!has_rules(&repo, &config));
    repo.private = true;
    assert!(has_rules(&repo, &config));
}

#[test]
fn merging_twice_is_merging_once() {
    let mut other = Settings::default();
    other.projects = Some(false);
    other.squash_merge_title = Some("PR_TITLE".to_string());
    let mut once = Settings::default();
    once.projects = Some(true);
    once.merge(&other);
    let mut twice = Settings::default();
    twice.projects = Some(true);
    twice.merge(&other);
    twice.merge(&other);
    assert_eq!(once.projects, twice.projects);
    assert_eq!(once.squash_merge_title, twice.squash_merge_title);
    assert_eq!(twice.projects, Some(false));
}

#[test]
fn merging_is_associative() {
    let mut a = Settings::default();
    a.wiki = Some(true);
    a.issues = Some(true);
    let mut b = Settings::default();
    b.wiki = Some(false);
    let mut c = Settings::default();
    c.issues = Some(false);
    c.auto_merge = Some(true);
    let mut left = Settings::default();
    left.merge(&a);
    left.merge(&b);
    left.merge(&c);
    let mut bc = Settings::default();
    bc.merge(&b);
    bc.merge(&c);
    let mut right = Settings::default();
    right.merge(&a);
    right.merge(&bc);
    assert_eq!(left.wiki, right.wiki);
    assert_eq!(left.issues, right.issues);
    assert_eq!(left.auto_merge, right.auto_merge);
    assert_eq!(left.wiki, Some(false));
    assert_eq!(left.issues, Some(false));
}

#[test]
fn settings_clone_keeps_fields() {
    let mut s = Settings::default();
    s.wiki = Some(false);
    s.squash_merge_message = Some("PR_BODY".to_string());
    let c = s.clone();
    assert_eq!(c.wiki, Some(false));
    assert_eq!(c.squash_merge_message, Some("PR_BODY".to_string()));
}
