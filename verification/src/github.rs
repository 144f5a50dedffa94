//! Repositories as GitHub reports them, and the pieces of the `gh` calls
//! that are computed rather than performed.

use vstd::prelude::*;
use vstd::string::*;
use vstd::utf8::{decode_utf8, valid_utf8};

use crate::text::{contains_char, join, joined, str_views, trim, trimmed};

verus! {

broadcast use vstd::string::group_string_axioms;

/// A repository's current settings, as GitHub reports them.
#[derive(Debug)]
pub struct Repo {
    pub full_name: String,
    pub private: bool,
    pub delete_branch_on_merge: bool,
    pub allow_squash_merge: bool,
    pub allow_merge_commit: bool,
    pub allow_rebase_merge: bool,
    pub allow_auto_merge: bool,
    pub allow_update_branch: bool,
    pub has_issues: bool,
    pub has_projects: bool,
    pub has_wiki: bool,
    pub has_discussions: bool,
    pub squash_merge_commit_message: String,
    pub squash_merge_commit_title: String,
}

/// The name of the current repository, from the output of
/// `gh repo view --json nameWithOwner --jq .nameWithOwner`.
pub fn current_repo(gh_output: &str) -> (res: String)
    ensures
        res@ == trimmed(gh_output@),
{
    trim(gh_output).to_string()
}

/// The arguments of `gh` that print the full name of the current
/// repository.
pub fn current_repo_args() -> (res: Vec<String>)
    ensures
        str_views(res@) == seq![
            "repo"@,
            "view"@,
            "--json"@,
            "nameWithOwner"@,
            "--jq"@,
            ".nameWithOwner"@,
        ],
{
    let mut args: Vec<String> = Vec::new();
    args.push("repo".to_string());
    args.push("view".to_string());
    args.push("--json".to_string());
    args.push("nameWithOwner".to_string());
    args.push("--jq".to_string());
    args.push(".nameWithOwner".to_string());
    assert(str_views(args@) =~= seq![
        "repo"@,
        "view"@,
        "--json"@,
        "nameWithOwner"@,
        "--jq"@,
        ".nameWithOwner"@,
    ]);
    args
}

/// The arguments of `gh` that print the login of the authenticated user.
pub fn user_login_args() -> (res: Vec<String>)
    ensures
        str_views(res@) == seq!["api"@, "user"@, "--jq"@, ".login"@],
{
    let mut args: Vec<String> = Vec::new();
    args.push("api".to_string());
    args.push("user".to_string());
    args.push("--jq".to_string());
    args.push(".login".to_string());
    assert(str_views(args@) =~= seq!["api"@, "user"@, "--jq"@, ".login"@]);
    args
}

/// The full name of a repository given as `NAME` or `OWNER/NAME`. A name
/// with a `/` is already full; otherwise it needs the login of the
/// authenticated user (the output of `gh api user --jq .login`): without it
/// the result is `None`, with it `LOGIN/NAME`.
pub fn normalize_repo_name(name: &str, login_output: Option<&str>) -> (res: Option<String>)
    ensures
        name@.contains('/') ==> (res matches Some(full) && full@ == name@),
        !name@.contains('/') && login_output is None ==> res is None,
        !name@.contains('/') ==> (login_output matches Some(login) ==> (res matches Some(full)
            && full@ == trimmed(login@) + "/"@ + name@)),
{
    if contains_char(name, '/') {
        return Some(name.to_string());
    }
    match login_output {
        None => None,
        Some(login) => {
            let mut full = trim(login).to_string();
            full.append("/");
            full.append(name);
            Some(full)
        },
    }
}

/// A name that normalizing completes holds a `/`, so normalizing it again
/// gives it back unchanged.
pub proof fn lemma_normalized_name_is_full(login: Seq<char>, name: Seq<char>)
    ensures
        (trimmed(login) + "/"@ + name).contains('/'),
{
    reveal_strlit("/");
    let full = trimmed(login) + "/"@ + name;
    assert(full[trimmed(login).len() as int] == '/');
}

/// The REST API path of a repository.
pub fn repo_path(repo: &str) -> (res: String)
    ensures
        res@ == "repos/"@ + repo@,
{
    let mut res = "repos/".to_string();
    res.append(repo);
    res
}

/// The arguments of `gh` that create a repository, private unless `public`.
pub fn create_repo_args(repo: &str, public: bool) -> (res: Vec<String>)
    ensures
        str_views(res@) == seq![
            "repo"@,
            "create"@,
            repo@,
            if public {
                "--public"@
            } else {
                "--private"@
            },
        ],
{
    let visibility = if public {
        "--public"
    } else {
        "--private"
    };
    let mut args: Vec<String> = Vec::new();
    args.push("repo".to_string());
    args.push("create".to_string());
    args.push(repo.to_string());
    args.push(visibility.to_string());
    assert(str_views(args@) =~= seq!["repo"@, "create"@, repo@, visibility@]);
    args
}

/// How the command that creates a repository is named in messages.
pub fn create_repo_command(repo: &str) -> (res: String)
    ensures
        res@ == "gh repo create "@ + repo@,
{
    let mut res = "gh repo create ".to_string();
    res.append(repo);
    res
}

/// How the command that edits a repository is named in messages.
pub fn edit_repo_command(repo: &str) -> (res: String)
    ensures
        res@ == "gh repo edit "@ + repo@,
{
    let mut res = "gh repo edit ".to_string();
    res.append(repo);
    res
}

/// The arguments of `gh` that set the given `gh repo edit` flags.
pub fn edit_repo_args(repo: &str, flags: &Vec<String>) -> (res: Vec<String>)
    ensures
        str_views(res@) == seq!["repo"@, "edit"@, repo@] + str_views(flags@),
{
    let mut args: Vec<String> = Vec::new();
    args.push("repo".to_string());
    args.push("edit".to_string());
    args.push(repo.to_string());
    let ghost head = str_views(args@);
    assert(head =~= seq!["repo"@, "edit"@, repo@]);
    let mut i: usize = 0;
    while i < flags.len()
        invariant
            i <= flags.len(),
            head == seq!["repo"@, "edit"@, repo@],
            str_views(args@) == head + str_views(flags@).take(i as int),
        decreases flags.len() - i,
    {
        let ghost before = args@;
        args.push(flags[i].clone());
        assert(str_views(flags@).take(i + 1) =~= str_views(flags@).take(i as int).push(
            flags@[i as int]@,
        ));
        assert(str_views(args@) =~= str_views(before).push(flags@[i as int]@));
        i = i + 1;
    }
    assert(str_views(flags@).take(flags.len() as int) =~= str_views(flags@));
    args
}

/// `-f FIELD=VALUE` for each field patch, in order.
pub open spec fn field_args(fields: Seq<(Seq<char>, Seq<char>)>) -> Seq<Seq<char>>
    decreases fields.len(),
{
    if fields.len() == 0 {
        Seq::empty()
    } else {
        field_args(fields.drop_last()) + seq![
            "-f"@,
            fields.last().0 + "="@ + fields.last().1,
        ]
    }
}

/// The values of a sequence of field patches.
pub open spec fn pair_views(v: Seq<(String, String)>) -> Seq<(Seq<char>, Seq<char>)> {
    v.map_values(|p: (String, String)| (p.0@, p.1@))
}

/// The arguments of `gh` that set the given fields of a repository through
/// the REST API.
pub fn patch_repo_args(repo: &str, fields: &Vec<(String, String)>) -> (res: Vec<String>)
    ensures
        str_views(res@) == seq!["api"@, "--method"@, "PATCH"@, "repos/"@ + repo@] + field_args(
            pair_views(fields@),
        ),
{
    let mut args: Vec<String> = Vec::new();
    args.push("api".to_string());
    args.push("--method".to_string());
    args.push("PATCH".to_string());
    args.push(repo_path(repo));
    let ghost head = str_views(args@);
    let ghost all = pair_views(fields@);
    assert(head =~= seq!["api"@, "--method"@, "PATCH"@, "repos/"@ + repo@]);
    assert(all.take(0) =~= Seq::<(Seq<char>, Seq<char>)>::empty());
    assert(head =~= head + field_args(all.take(0)));
    let mut i: usize = 0;
    while i < fields.len()
        invariant
            i <= fields.len(),
            all == pair_views(fields@),
            head == seq!["api"@, "--method"@, "PATCH"@, "repos/"@ + repo@],
            str_views(args@) == head + field_args(all.take(i as int)),
        decreases fields.len() - i,
    {
        let ghost before = args@;
        let (field, value) = &fields[i];
        let mut assignment = field.clone();
        assignment.append("=");
        assignment.append(value.as_str());
        args.push("-f".to_string());
        args.push(assignment);
        assert(all.take(i + 1).drop_last() =~= all.take(i as int));
        assert(all.take(i + 1).last() == (field@, value@));
        assert(str_views(args@) =~= str_views(before) + seq!["-f"@, field@ + "="@ + value@]);
        i = i + 1;
    }
    assert(all.take(fields.len() as int) =~= all);
    args
}

/// How a `gh` command is named in messages: `gh` and its arguments.
pub fn gh_command(args: &Vec<String>) -> (res: String)
    ensures
        res@ == "gh "@ + joined(str_views(args@), " "@),
{
    let mut res = "gh ".to_string();
    let tail = join(args, " ");
    res.append(tail.as_str());
    res
}

/// What `String::from_utf8_lossy` makes of a byte sequence: its UTF-8
/// decoding, with each invalid sequence replaced by U+FFFD.
pub uninterp spec fn utf8_lossy(bytes: Seq<u8>) -> Seq<char>;

/// What `String::from_utf8` reports of bytes that are not UTF-8: the
/// `Display` text of its error, which says where the first invalid
/// sequence starts.
pub uninterp spec fn utf8_error_text(bytes: Seq<u8>) -> Seq<char>;

/// `String::from_utf8`: the text of `bytes` when they are valid UTF-8,
/// otherwise the text of its error.
#[verifier::external_body]
fn string_from_utf8(bytes: Vec<u8>) -> (res: Result<String, String>)
    ensures
        res is Ok <==> valid_utf8(bytes@),
        res matches Ok(s) ==> s@ == decode_utf8(bytes@),
        res matches Err(e) ==> e@ == utf8_error_text(bytes@),
{
    match String::from_utf8(bytes) {
        Ok(s) => Ok(s),
        Err(e) => Err(e.to_string()),
    }
}

/// `String::from_utf8_lossy`: the text of `bytes`, with invalid sequences
/// replaced; on valid UTF-8 it is the plain decoding.
#[verifier::external_body]
fn string_from_utf8_lossy(bytes: &[u8]) -> (res: String)
    ensures
        res@ == utf8_lossy(bytes@),
        valid_utf8(bytes@) ==> res@ == decode_utf8(bytes@),
{
    String::from_utf8_lossy(bytes).into_owned()
}

/// The message of a command that exited with a failure, from the text of
/// its standard output and standard error: the trimmed standard error, or
/// else the trimmed standard output, or else the exit status.
pub open spec fn failure_text_of(
    command: Seq<char>,
    status: Seq<char>,
    stdout_text: Seq<char>,
    stderr_text: Seq<char>,
) -> Seq<char> {
    let err = trimmed(stderr_text);
    let out = trimmed(stdout_text);
    let message = if err.len() == 0 {
        out
    } else {
        err
    };
    if message.len() == 0 {
        command + " failed with "@ + status
    } else {
        command + " failed: "@ + message
    }
}

/// The message of a command that exited with a failure, from the bytes of
/// its output, decoded as `String::from_utf8_lossy` does.
pub open spec fn failure_message(
    command: Seq<char>,
    status: Seq<char>,
    stdout: Seq<u8>,
    stderr: Seq<u8>,
) -> Seq<char> {
    failure_text_of(command, status, utf8_lossy(stdout), utf8_lossy(stderr))
}

/// The message of a command that exited with a failure, from the text of
/// its standard output and standard error.
pub fn failure_text(command: &str, status: &str, stdout_text: &str, stderr_text: &str) -> (res:
    String)
    ensures
        res@ == failure_text_of(command@, status@, stdout_text@, stderr_text@),
{
    let stderr_trimmed = trim(stderr_text);
    let stdout_trimmed = trim(stdout_text);
    let message = if stderr_trimmed.is_empty() {
        stdout_trimmed
    } else {
        stderr_trimmed
    };
    let mut res = command.to_string();
    if message.is_empty() {
        res.append(" failed with ");
        res.append(status);
    } else {
        res.append(" failed: ");
        res.append(message);
    }
    res
}

/// Why a finished `gh` command gives no output to use.
pub enum CommandError {
    /// The command succeeded but its output is not UTF-8; `cause` is the
    /// text of the decoding error.
    NotUtf8 { cause: String },
    /// The command failed; `message` says how.
    Failed { message: String },
}

/// The message of [`CommandError::NotUtf8`], above its cause.
pub open spec fn not_utf8_message() -> Seq<char> {
    "gh output was not utf-8"@
}

impl CommandError {
    /// The message of the error, as the command line prints it first.
    pub fn message(&self) -> (res: String)
        ensures
            res@ == (match self {
                CommandError::NotUtf8 { .. } => not_utf8_message(),
                CommandError::Failed { message } => message@,
            }),
    {
        match self {
            CommandError::NotUtf8 { .. } => "gh output was not utf-8".to_string(),
            CommandError::Failed { message } => message.clone(),
        }
    }
}

/// The result of a finished `gh` command: its standard output when it
/// succeeded and that output is UTF-8; otherwise what went wrong.
pub fn command_output(
    command: &str,
    success: bool,
    status: &str,
    stdout: Vec<u8>,
    stderr: Vec<u8>,
) -> (res: Result<String, CommandError>)
    ensures
        success && valid_utf8(stdout@) ==> (res matches Ok(out) && out@ == decode_utf8(stdout@)),
        success && !valid_utf8(stdout@) ==> (res matches Err(CommandError::NotUtf8 { cause })
            && cause@ == utf8_error_text(stdout@)),
        !success ==> (res matches Err(CommandError::Failed { message }) && message@
            == failure_message(command@, status@, stdout@, stderr@)),
        !success && valid_utf8(stdout@) && valid_utf8(stderr@) ==> (res matches Err(
            CommandError::Failed { message },
        ) && message@ == failure_text_of(
            command@,
            status@,
            decode_utf8(stdout@),
            decode_utf8(stderr@),
        )),
{
    if success {
        return match string_from_utf8(stdout) {
            Ok(out) => Ok(out),
            Err(cause) => Err(CommandError::NotUtf8 { cause }),
        };
    }
    let stderr_text = string_from_utf8_lossy(stderr.as_slice());
    let stdout_text = string_from_utf8_lossy(stdout.as_slice());
    let message = failure_text(command, status, stdout_text.as_str(), stderr_text.as_str());
    Err(CommandError::Failed { message })
}

/// The GraphQL query for the user's repositories, up to where the page
/// cursor goes.
pub const QUERY_HEAD: &'static str = "query {\n  viewer {\n    repositories(first: 100";

/// The GraphQL query for the user's repositories, after the page cursor.
pub const QUERY_TAIL: &'static str = ", ownerAffiliations: OWNER, isFork: false) {\n      nodes {\n        nameWithOwner\n        isArchived\n        isPrivate\n        deleteBranchOnMerge\n        squashMergeAllowed\n        mergeCommitAllowed\n        rebaseMergeAllowed\n        autoMergeAllowed\n        allowUpdateBranch\n        hasIssuesEnabled\n        hasProjectsEnabled\n        hasWikiEnabled\n        hasDiscussionsEnabled\n        squashMergeCommitMessage\n        squashMergeCommitTitle\n      }\n      pageInfo {\n        hasNextPage\n        endCursor\n      }\n    }\n  }\n}";

/// The start of the GraphQL query for the user's repositories, up to where
/// the page cursor goes.
pub open spec fn query_head() -> Seq<char> {
    QUERY_HEAD@
}

/// The rest of the GraphQL query for the user's repositories, after the
/// page cursor.
pub open spec fn query_tail() -> Seq<char> {
    QUERY_TAIL@
}

/// The argument that asks for the page after `cursor`, or nothing.
pub open spec fn after_clause(cursor: Option<Seq<char>>) -> Seq<char> {
    match cursor {
        Some(c) => ", after: \""@ + c + "\""@,
        None => Seq::empty(),
    }
}

/// The GraphQL query for one page of the non-fork repositories that the
/// authenticated user owns, starting after `cursor` when there is one.
pub fn repositories_query(cursor: Option<&str>) -> (res: String)
    ensures
        res@ == query_head() + after_clause(
            match cursor {
                Some(c) => Some(c@),
                None => None,
            },
        ) + query_tail(),
{
    let mut res = QUERY_HEAD.to_string();
    match cursor {
        Some(c) => {
            res.append(", after: \"");
            res.append(c);
            res.append("\"");
        },
        None => {},
    }
    res.append(QUERY_TAIL);
    res
}

/// The arguments of `gh` that run a GraphQL query.
pub fn graphql_args(query: &str) -> (res: Vec<String>)
    ensures
        str_views(res@) == seq!["api"@, "graphql"@, "-f"@, "query="@ + query@],
{
    let mut assignment = "query=".to_string();
    assignment.append(query);
    let mut args: Vec<String> = Vec::new();
    args.push("api".to_string());
    args.push("graphql".to_string());
    args.push("-f".to_string());
    args.push(assignment);
    assert(str_views(args@) =~= seq!["api"@, "graphql"@, "-f"@, "query="@ + query@]);
    args
}

/// A repository of a page of the GraphQL answer.
pub struct RepoNode {
    pub repo: Repo,
    pub is_archived: bool,
}

/// Where a page of the GraphQL answer stands in the whole list.
pub struct PageInfo {
    pub has_next_page: bool,
    pub end_cursor: Option<String>,
}

/// What to do after a page: stop, or ask for the page after `cursor`.
pub enum Paging {
    Done,
    Next { cursor: Option<String> },
}

/// The repositories of `nodes` that are not archived, in order.
pub open spec fn unarchived(nodes: Seq<RepoNode>) -> Seq<Repo>
    decreases nodes.len(),
{
    if nodes.len() == 0 {
        Seq::empty()
    } else if nodes.last().is_archived {
        unarchived(nodes.drop_last())
    } else {
        unarchived(nodes.drop_last()).push(nodes.last().repo)
    }
}

/// Adds the repositories of a page that are not archived to `repos`, and
/// says whether another page follows.
pub fn collect_page(repos: &mut Vec<Repo>, nodes: Vec<RepoNode>, page: PageInfo) -> (res: Paging)
    ensures
        final(repos)@ == old(repos)@ + unarchived(nodes@),
        !page.has_next_page ==> res is Done,
        page.has_next_page ==> res == (Paging::Next { cursor: page.end_cursor }),
{
    let ghost start = repos@;
    let ghost all = nodes@;
    let mut rest = nodes;
    let ghost mut taken: int = 0;
    assert(all.take(0) =~= Seq::<RepoNode>::empty());
    assert(repos@ =~= start + unarchived(all.take(0)));
    while rest.len() > 0
        invariant
            0 <= taken <= all.len(),
            rest@ == all.skip(taken),
            repos@ == start + unarchived(all.take(taken)),
        decreases rest.len(),
    {
        let node = rest.remove(0);
        assert(node == all[taken]);
        assert(rest@ =~= all.skip(taken + 1));
        assert(all.take(taken + 1).drop_last() =~= all.take(taken));
        if !node.is_archived {
            repos.push(node.repo);
        }
        proof {
            taken = taken + 1;
        }
    }
    assert(all.take(taken) =~= all);
    if page.has_next_page {
        Paging::Next { cursor: page.end_cursor }
    } else {
        Paging::Done
    }
}

/// The repositories that a page adds are exactly those of its nodes that
/// are not archived, in the order of the nodes.
pub proof fn lemma_unarchived_is_filter(nodes: Seq<RepoNode>)
    ensures
        unarchived(nodes) == nodes.filter(|n: RepoNode| !n.is_archived).map_values(
            |n: RepoNode| n.repo,
        ),
    decreases nodes.len(),
{
    let keep = |n: RepoNode| !n.is_archived;
    let repo_of = |n: RepoNode| n.repo;
    if nodes.len() == 0 {
        reveal(Seq::filter);
        assert(nodes.filter(keep) =~= Seq::<RepoNode>::empty());
        assert(nodes.filter(keep).map_values(repo_of) =~= Seq::<Repo>::empty());
    } else {
        let rest = nodes.drop_last();
        lemma_unarchived_is_filter(rest);
        assert(nodes =~= rest.push(nodes.last()));
        rest.lemma_filter_push(nodes.last(), keep);
        if nodes.last().is_archived {
            assert(nodes.filter(keep) == rest.filter(keep));
        } else {
            assert(nodes.filter(keep) == rest.filter(keep).push(nodes.last()));
            assert(rest.filter(keep).push(nodes.last()).map_values(repo_of) =~= rest.filter(
                keep,
            ).map_values(repo_of).push(nodes.last().repo));
        }
    }
}

proof fn lemma_field_args_at(fields: Seq<(Seq<char>, Seq<char>)>, i: int)
    requires
        0 <= i < fields.len(),
    ensures
        field_args(fields).len() == 2 * fields.len(),
        field_args(fields)[2 * i] == "-f"@,
        field_args(fields)[2 * i + 1] == fields[i].0 + "="@ + fields[i].1,
    decreases fields.len(),
{
    let rest = fields.drop_last();
    let pair = seq!["-f"@, fields.last().0 + "="@ + fields.last().1];
    assert(field_args(fields) == field_args(rest) + pair);
    if i < fields.len() - 1 {
        lemma_field_args_at(rest, i);
        assert(fields[i] == rest[i]);
    } else {
        lemma_field_args_len(rest);
    }
}

proof fn lemma_field_args_len(fields: Seq<(Seq<char>, Seq<char>)>)
    ensures
        field_args(fields).len() == 2 * fields.len(),
    decreases fields.len(),
{
    if fields.len() > 0 {
        lemma_field_args_len(fields.drop_last());
    }
}

/// The field arguments of a PATCH come in pairs, one pair per field in
/// order: `-f`, then the field's name, `=` and its value.
pub proof fn lemma_field_args_pairs(fields: Seq<(Seq<char>, Seq<char>)>)
    ensures
        field_args(fields).len() == 2 * fields.len(),
        forall|j: int|
            0 <= j < field_args(fields).len() ==> #[trigger] field_args(fields)[j] == (if j % 2
                == 0 {
                "-f"@
            } else {
                fields[j / 2].0 + "="@ + fields[j / 2].1
            }),
{
    lemma_field_args_len(fields);
    assert forall|j: int| 0 <= j < field_args(fields).len() implies #[trigger] field_args(
        fields,
    )[j] == (if j % 2 == 0 {
        "-f"@
    } else {
        fields[j / 2].0 + "="@ + fields[j / 2].1
    }) by {
        let i = j / 2;
        lemma_field_args_at(fields, i);
        assert(j == 2 * i || j == 2 * i + 1);
    }
}

} // verus!
