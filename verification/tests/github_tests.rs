use ghstd::github::{
    collect_page, command_output, create_repo_args, create_repo_command, current_repo,
    current_repo_args, edit_repo_args, edit_repo_command, failure_text, gh_command, graphql_args,
    normalize_repo_name, patch_repo_args, repo_path, repositories_query, user_login_args,
    CommandError, PageInfo, Paging, Repo, RepoNode,
};

fn node(name: &str, archived: bool) -> RepoNode {
    RepoNode {
        repo: Repo {
            full_name: name.to_string(),
            private: false,
            delete_branch_on_merge: false,
            allow_squash_merge: true,
            allow_merge_commit: true,
            allow_rebase_merge: true,
            allow_auto_merge: false,
            allow_update_branch: false,
            has_issues: true,
            has_projects: true,
            has_wiki: true,
            has_discussions: false,
            squash_merge_commit_message: "COMMIT_MESSAGES".to_string(),
            squash_merge_commit_title: "COMMIT_OR_PR_TITLE".to_string(),
        },
        is_archived: archived,
    }
}

fn strings(v: &[&str]) -> Vec<String> {
    v.iter().map(|s| s.to_string()).collect()
}

#[test]
fn current_repo_trims_output() {
    assert_eq!(current_repo("  octo/tool\n"), "octo/tool");
    assert_eq!(current_repo("\t\n"), "");
}

#[test]
fn normalize_keeps_full_names() {
    assert_eq!(normalize_repo_name("octo/tool", None), Some("octo/tool".to_string()));
    assert_eq!(normalize_repo_name("octo/tool", Some("me\n")), Some("octo/tool".to_string()));
}

#[test]
fn normalize_needs_login_for_bare_names() {
    assert_eq!(normalize_repo_name("tool", None), None);
    assert_eq!(normalize_repo_name("tool", Some(" me\n")), Some("me/tool".to_string()));
}

#[test]
fn create_args_pick_visibility() {
    assert_eq!(create_repo_args("me/x", false), strings(&["repo", "create", "me/x", "--private"]));
    assert_eq!(create_repo_args("me/x", true), strings(&["repo", "create", "me/x", "--public"]));
}

#[test]
fn edit_args_append_flags() {
    let flags = strings(&["--enable-wiki", "--enable-issues=false"]);
    assert_eq!(
        edit_repo_args("me/x", &flags),
        strings(&["repo", "edit", "me/x", "--enable-wiki", "--enable-issues=false"])
    );
    assert_eq!(edit_repo_args("me/x", &Vec::new()), strings(&["repo", "edit", "me/x"]));
}

#[test]
fn patch_args_set_fields() {
    let fields = vec![("squash_merge_commit_message".to_string(), "PR_BODY".to_string())];
    assert_eq!(
        patch_repo_args("me/x", &fields),
        strings(&[
            "api",
            "--method",
            "PATCH",
            "repos/me/x",
            "-f",
            "squash_merge_commit_message=PR_BODY"
        ])
    );
    assert_eq!(repo_path("me/x"), "repos/me/x");
}

#[test]
fn command_text_joins_arguments() {
    assert_eq!(gh_command(&strings(&["api", "user", "--jq", ".login"])), "gh api user --jq .login");
    assert_eq!(gh_command(&Vec::new()), "gh ");
}

fn failed_message(result: Result<String, CommandError>) -> String {
    match result {
        Err(CommandError::Failed { message }) => message,
        Err(CommandError::NotUtf8 { .. }) => panic!("expected a failure"),
        Ok(_) => panic!("expected an error"),
    }
}

#[test]
fn command_output_on_success() {
    match command_output("gh x", true, "exit status: 0", b"out\n".to_vec(), Vec::new()) {
        Ok(out) => assert_eq!(out, "out\n"),
        Err(_) => panic!("expected the output"),
    }
}

#[test]
fn command_output_rejects_non_utf8() {
    let bytes = vec![b'o', b'k', 0xff, 0xfe];
    let expected_cause = String::from_utf8(bytes.clone()).unwrap_err().to_string();
    match command_output("gh x", true, "exit status: 0", bytes, Vec::new()) {
        Err(error @ CommandError::NotUtf8 { .. }) => {
            assert_eq!(error.message(), "gh output was not utf-8");
            match error {
                CommandError::NotUtf8 { cause } => {
                    assert_eq!(cause, expected_cause);
                    assert_eq!(cause, "invalid utf-8 sequence of 1 bytes from index 2");
                }
                CommandError::Failed { .. } => unreachable!(),
            }
        }
        _ => panic!("expected a decoding error"),
    }
}

#[test]
fn command_output_prefers_stderr() {
    assert_eq!(
        failed_message(command_output("gh x", false, "exit status: 1", b"partial".to_vec(), b"  boom\n".to_vec())),
        "gh x failed: boom"
    );
}

#[test]
fn command_output_falls_back_to_stdout() {
    assert_eq!(
        failed_message(command_output("gh x", false, "exit status: 1", b" oops ".to_vec(), b" \n".to_vec())),
        "gh x failed: oops"
    );
}

#[test]
fn command_output_falls_back_to_status() {
    assert_eq!(
        failed_message(command_output("gh x", false, "exit status: 2", Vec::new(), Vec::new())),
        "gh x failed with exit status: 2"
    );
}

#[test]
fn command_output_replaces_invalid_bytes_in_messages() {
    assert_eq!(
        failed_message(command_output("gh x", false, "exit status: 1", Vec::new(), vec![b'a', 0xff, b'b'])),
        "gh x failed: a\u{fffd}b"
    );
}

#[test]
fn query_without_cursor() {
    let q = repositories_query(None);
    assert!(q.starts_with("query {\n  viewer {\n    repositories(first: 100, ownerAffiliations: OWNER, isFork: false) {\n"));
    assert!(q.contains("        hasDiscussionsEnabled\n"));
    assert!(q.ends_with("      pageInfo {\n        hasNextPage\n        endCursor\n      }\n    }\n  }\n}"));
}

#[test]
fn query_with_cursor() {
    let q = repositories_query(Some("Y3Vyc29y"));
    assert!(q.starts_with("query {\n  viewer {\n    repositories(first: 100, after: \"Y3Vyc29y\", ownerAffiliations: OWNER"));
    assert_eq!(graphql_args("q"), strings(&["api", "graphql", "-f", "query=q"]));
}

#[test]
fn collect_page_drops_archived_and_pages_on() {
    let mut repos = Vec::new();
    let step = collect_page(
        &mut repos,
        vec![node("me/a", false), node("me/old", true), node("me/b", false)],
        PageInfo { has_next_page: true, end_cursor: Some("c1".to_string()) },
    );
    let names: Vec<&str> = repos.iter().map(|r| r.full_name.as_str()).collect();
    assert_eq!(names, vec!["me/a", "me/b"]);
    match step {
        Paging::Next { cursor } => assert_eq!(cursor, Some("c1".to_string())),
        Paging::Done => panic!("expected another page"),
    }
    let step = collect_page(&mut repos, vec![node("me/c", false)], PageInfo { has_next_page: false, end_cursor: None });
    assert!(matches!(step, Paging::Done));
    assert_eq!(repos.len(), 3);
    assert_eq!(repos[2].full_name, "me/c");
}

#[test]
fn normalizing_a_normalized_name_keeps_it() {
    let full = normalize_repo_name("tool", Some("me\n")).unwrap();
    assert_eq!(normalize_repo_name(&full, None), Some(full.clone()));
}

#[test]
fn failed_error_message_is_the_message() {
    let error = CommandError::Failed { message: "gh x failed: boom".to_string() };
    assert_eq!(error.message(), "gh x failed: boom");
}

#[test]
fn failure_text_from_decoded_output() {
    assert_eq!(failure_text("c", "exit status: 1", "x", ""), "c failed: x");
    assert_eq!(failure_text("c", "exit status: 1", "x", " y\n"), "c failed: y");
    assert_eq!(failure_text("c", "exit status: 3", " ", "\t"), "c failed with exit status: 3");
}

#[test]
fn fixed_command_arguments() {
    assert_eq!(current_repo_args(), strings(&["repo", "view", "--json", "nameWithOwner", "--jq", ".nameWithOwner"]));
    assert_eq!(user_login_args(), strings(&["api", "user", "--jq", ".login"]));
    assert_eq!(create_repo_command("me/x"), "gh repo create me/x");
    assert_eq!(edit_repo_command("me/x"), "gh repo edit me/x");
}
