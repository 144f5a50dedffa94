//! The standard as rules: for each configured setting, what the repository
//! has now, what the standard asks for, and the edit that gets it there.

use vstd::prelude::*;
use vstd::string::*;

use crate::config::{layered_settings, opt_str, Config, Settings, SettingsView};
use crate::github::Repo;

verus! {

broadcast use vstd::string::group_string_axioms;

/// One configured setting checked against a repository.
#[derive(Debug)]
pub struct Rule {
    current_text: String,
    desired_text: String,
    edit: Edit,
}

/// The change that makes a repository follow a rule.
#[derive(Debug)]
pub enum Edit {
    /// A flag for `gh repo edit`.
    Flag(String),
    /// A field of the repository to set through the REST API.
    Patch { field: String, value: String },
}

/// The mathematical value of an [`Edit`].
pub enum EditView {
    Flag(Seq<char>),
    Patch { field: Seq<char>, value: Seq<char> },
}

/// The mathematical value of a [`Rule`].
pub struct RuleView {
    pub current_text: Seq<char>,
    pub desired_text: Seq<char>,
    pub edit: EditView,
}

impl View for Edit {
    type V = EditView;

    open spec fn view(&self) -> EditView {
        match self {
            Edit::Flag(flag) => EditView::Flag(flag@),
            Edit::Patch { field, value } => EditView::Patch { field: field@, value: value@ },
        }
    }
}

impl View for Rule {
    type V = RuleView;

    closed spec fn view(&self) -> RuleView {
        RuleView {
            current_text: self.current_text@,
            desired_text: self.desired_text@,
            edit: self.edit@,
        }
    }
}

impl RuleView {
    /// The repository already has what the rule asks for.
    pub open spec fn followed(self) -> bool {
        self.current_text == self.desired_text
    }
}

/// The values of a sequence of rules.
pub open spec fn rule_views(rules: Seq<Rule>) -> Seq<RuleView> {
    rules.map_values(|r: Rule| r@)
}

/// The flags and descriptions of a setting that is either on or off.
struct RuleSpec {
    enable_flag: &'static str,
    disable_flag: &'static str,
    enabled_text: &'static str,
    disabled_text: &'static str,
}

/// The mathematical value of a `RuleSpec`.
pub struct FlagTexts {
    pub enable_flag: Seq<char>,
    pub disable_flag: Seq<char>,
    pub enabled_text: Seq<char>,
    pub disabled_text: Seq<char>,
}

impl View for RuleSpec {
    type V = FlagTexts;

    closed spec fn view(&self) -> FlagTexts {
        FlagTexts {
            enable_flag: self.enable_flag@,
            disable_flag: self.disable_flag@,
            enabled_text: self.enabled_text@,
            disabled_text: self.disabled_text@,
        }
    }
}

/// The texts of an on/off setting, from its four literals.
pub open spec fn flag_texts(
    enable_flag: &str,
    disable_flag: &str,
    enabled_text: &str,
    disabled_text: &str,
) -> FlagTexts {
    FlagTexts {
        enable_flag: enable_flag@,
        disable_flag: disable_flag@,
        enabled_text: enabled_text@,
        disabled_text: disabled_text@,
    }
}

/// The flags and descriptions of the `delete_branch_on_merge` setting.
pub open spec fn delete_branch_on_merge_texts() -> FlagTexts {
    flag_texts(
        "--delete-branch-on-merge",
        "--delete-branch-on-merge=false",
        "delete branches on merge",
        "keep branches after merge",
    )
}

/// The flags and descriptions of the `squash_merge` setting.
pub open spec fn squash_merge_texts() -> FlagTexts {
    flag_texts(
        "--enable-squash-merge",
        "--enable-squash-merge=false",
        "squash merge enabled",
        "squash merge disabled",
    )
}

/// The flags and descriptions of the `merge_commit` setting.
pub open spec fn merge_commit_texts() -> FlagTexts {
    flag_texts(
        "--enable-merge-commit",
        "--enable-merge-commit=false",
        "merge commits enabled",
        "merge commits disabled",
    )
}

/// The flags and descriptions of the `rebase_merge` setting.
pub open spec fn rebase_merge_texts() -> FlagTexts {
    flag_texts(
        "--enable-rebase-merge",
        "--enable-rebase-merge=false",
        "rebase merge enabled",
        "rebase merge disabled",
    )
}

/// The flags and descriptions of the `auto_merge` setting.
pub open spec fn auto_merge_texts() -> FlagTexts {
    flag_texts(
        "--enable-auto-merge",
        "--enable-auto-merge=false",
        "auto-merge enabled",
        "auto-merge disabled",
    )
}

/// The flags and descriptions of the `update_branch` setting.
pub open spec fn update_branch_texts() -> FlagTexts {
    flag_texts(
        "--allow-update-branch",
        "--allow-update-branch=false",
        "update branch suggestions enabled",
        "update branch suggestions disabled",
    )
}

/// The flags and descriptions of the `issues` setting.
pub open spec fn issues_texts() -> FlagTexts {
    flag_texts(
        "--enable-issues",
        "--enable-issues=false",
        "issues enabled",
        "issues disabled",
    )
}

/// The flags and descriptions of the `projects` setting.
pub open spec fn projects_texts() -> FlagTexts {
    flag_texts(
        "--enable-projects",
        "--enable-projects=false",
        "projects enabled",
        "projects disabled",
    )
}

/// The flags and descriptions of the `wiki` setting.
pub open spec fn wiki_texts() -> FlagTexts {
    flag_texts(
        "--enable-wiki",
        "--enable-wiki=false",
        "wiki enabled",
        "wiki disabled",
    )
}

/// The flags and descriptions of the `discussions` setting.
pub open spec fn discussions_texts() -> FlagTexts {
    flag_texts(
        "--enable-discussions",
        "--enable-discussions=false",
        "discussions enabled",
        "discussions disabled",
    )
}

/// The rule for an on/off setting: none when the standard leaves it open,
/// otherwise one that describes the current and desired state and sets the
/// desired one.
pub open spec fn flag_rule(desired: Option<bool>, current: bool, texts: FlagTexts) -> Seq<
    RuleView,
> {
    match desired {
        None => Seq::empty(),
        Some(d) => seq![
            RuleView {
                current_text: if current {
                    texts.enabled_text
                } else {
                    texts.disabled_text
                },
                desired_text: if d {
                    texts.enabled_text
                } else {
                    texts.disabled_text
                },
                edit: EditView::Flag(
                    if d {
                        texts.enable_flag
                    } else {
                        texts.disable_flag
                    },
                ),
            },
        ],
    }
}

/// `label`, a space and `value`.
pub open spec fn labelled(label: Seq<char>, value: Seq<char>) -> Seq<char> {
    label + " "@ + value
}

/// The rule for a text setting: none when the standard leaves it open,
/// otherwise one that patches `field` to the desired text.
pub open spec fn text_rule(
    desired: Option<Seq<char>>,
    current: Seq<char>,
    label: Seq<char>,
    field: Seq<char>,
) -> Seq<RuleView> {
    match desired {
        None => Seq::empty(),
        Some(d) => seq![
            RuleView {
                current_text: labelled(label, current),
                desired_text: labelled(label, d),
                edit: EditView::Patch { field: field, value: d },
            },
        ],
    }
}

/// The rules of settings `s` for `repo`, in a fixed order.
pub open spec fn standard_rules(s: SettingsView, repo: &Repo) -> Seq<RuleView> {
    flag_rule(
        s.delete_branch_on_merge,
        repo.delete_branch_on_merge,
        delete_branch_on_merge_texts(),
    ) + flag_rule(
        s.squash_merge,
        repo.allow_squash_merge,
        squash_merge_texts(),
    ) + flag_rule(
        s.merge_commit,
        repo.allow_merge_commit,
        merge_commit_texts(),
    ) + flag_rule(
        s.rebase_merge,
        repo.allow_rebase_merge,
        rebase_merge_texts(),
    ) + flag_rule(
        s.auto_merge,
        repo.allow_auto_merge,
        auto_merge_texts(),
    ) + flag_rule(
        s.update_branch,
        repo.allow_update_branch,
        update_branch_texts(),
    ) + flag_rule(
        s.issues,
        repo.has_issues,
        issues_texts(),
    ) + flag_rule(
        s.projects,
        repo.has_projects,
        projects_texts(),
    ) + flag_rule(
        s.wiki,
        repo.has_wiki,
        wiki_texts(),
    ) + flag_rule(
        s.discussions,
        repo.has_discussions,
        discussions_texts(),
    ) + text_rule(
        s.squash_merge_message,
        repo.squash_merge_commit_message@,
        "squash merge message"@,
        "squash_merge_commit_message"@,
    ) + text_rule(
        s.squash_merge_title,
        repo.squash_merge_commit_title@,
        "squash merge title"@,
        "squash_merge_commit_title"@,
    )
}

/// The rules that the configuration sets for `repo`.
pub open spec fn spec_rules(repo: &Repo, config: &Config) -> Seq<RuleView> {
    standard_rules(layered_settings(config, repo.private), repo)
}

/// The rules that `repo` does not follow yet, in order.
pub open spec fn spec_drift(repo: &Repo, config: &Config) -> Seq<RuleView> {
    spec_rules(repo, config).filter(unmatched())
}

/// Holds of the rules that the repository does not follow.
pub open spec fn unmatched() -> spec_fn(RuleView) -> bool {
    |r: RuleView| !r.followed()
}

fn push_rule(rules: &mut Vec<Rule>, desired: Option<bool>, current: bool, kind: RuleSpec)
    ensures
        rule_views(final(rules)@) == rule_views(old(rules)@) + flag_rule(desired, current, kind@),
{
    let Some(desired) = desired else {
        assert(rule_views(rules@) =~= rule_views(rules@) + Seq::<RuleView>::empty());
        return ;
    };
    let rule = Rule {
        current_text: if current {
            kind.enabled_text.to_string()
        } else {
            kind.disabled_text.to_string()
        },
        desired_text: if desired {
            kind.enabled_text.to_string()
        } else {
            kind.disabled_text.to_string()
        },
        edit: Edit::Flag(
            if desired {
                kind.enable_flag.to_string()
            } else {
                kind.disable_flag.to_string()
            },
        ),
    };
    let ghost before = rules@;
    rules.push(rule);
    assert(rule_views(rules@) =~= rule_views(before) + flag_rule(Some(desired), current, kind@));
}

fn push_text_rule(
    rules: &mut Vec<Rule>,
    desired: Option<String>,
    current: &str,
    label: &'static str,
    field: &'static str,
)
    ensures
        rule_views(final(rules)@) == rule_views(old(rules)@) + text_rule(
            opt_str(desired),
            current@,
            label@,
            field@,
        ),
{
    let Some(desired) = desired else {
        assert(rule_views(rules@) =~= rule_views(rules@) + Seq::<RuleView>::empty());
        return ;
    };
    let mut current_text = label.to_string();
    current_text.append(" ");
    current_text.append(current);
    let mut desired_text = label.to_string();
    desired_text.append(" ");
    desired_text.append(desired.as_str());
    let ghost desired_view = desired@;
    let rule = Rule {
        current_text,
        desired_text,
        edit: Edit::Patch { field: field.to_string(), value: desired },
    };
    let ghost before = rules@;
    rules.push(rule);
    assert(rule_views(rules@) =~= rule_views(before) + text_rule(
        Some(desired_view),
        current@,
        label@,
        field@,
    ));
}

/// The settings that apply to `repo`: the base standard, then the table for
/// its visibility.
pub fn settings_for(repo: &Repo, config: &Config) -> (res: Settings)
    ensures
        res@ == layered_settings(config, repo.private),
{
    let mut settings = Settings::default();
    if let Some(base) = &config.standard {
        settings.merge(base);
    }
    if repo.private {
        if let Some(private) = &config.private {
            settings.merge(private);
        }
    } else if let Some(public) = &config.public {
        settings.merge(public);
    }
    settings
}

/// The rules that the configuration sets for `repo`, one for each setting
/// that its layered standard sets, in a fixed order.
pub fn rules(repo: &Repo, config: &Config) -> (res: Vec<Rule>)
    ensures
        rule_views(res@) == spec_rules(repo, config),
{
    let settings = settings_for(repo, config);
    let mut rules: Vec<Rule> = Vec::new();
    assert(rule_views(rules@) =~= Seq::<RuleView>::empty());
    push_rule(
        &mut rules,
        settings.delete_branch_on_merge,
        repo.delete_branch_on_merge,
        RuleSpec {
            enable_flag: "--delete-branch-on-merge",
            disable_flag: "--delete-branch-on-merge=false",
            enabled_text: "delete branches on merge",
            disabled_text: "keep branches after merge",
        },
    );
    push_rule(
        &mut rules,
        settings.squash_merge,
        repo.allow_squash_merge,
        RuleSpec {
            enable_flag: "--enable-squash-merge",
            disable_flag: "--enable-squash-merge=false",
            enabled_text: "squash merge enabled",
            disabled_text: "squash merge disabled",
        },
    );
    push_rule(
        &mut rules,
        settings.merge_commit,
        repo.allow_merge_commit,
        RuleSpec {
            enable_flag: "--enable-merge-commit",
            disable_flag: "--enable-merge-commit=false",
            enabled_text: "merge commits enabled",
            disabled_text: "merge commits disabled",
        },
    );
    push_rule(
        &mut rules,
        settings.rebase_merge,
        repo.allow_rebase_merge,
        RuleSpec {
            enable_flag: "--enable-rebase-merge",
            disable_flag: "--enable-rebase-merge=false",
            enabled_text: "rebase merge enabled",
            disabled_text: "rebase merge disabled",
        },
    );
    push_rule(
        &mut rules,
        settings.auto_merge,
        repo.allow_auto_merge,
        RuleSpec {
            enable_flag: "--enable-auto-merge",
            disable_flag: "--enable-auto-merge=false",
            enabled_text: "auto-merge enabled",
            disabled_text: "auto-merge disabled",
        },
    );
    push_rule(
        &mut rules,
        settings.update_branch,
        repo.allow_update_branch,
        RuleSpec {
            enable_flag: "--allow-update-branch",
            disable_flag: "--allow-update-branch=false",
            enabled_text: "update branch suggestions enabled",
            disabled_text: "update branch suggestions disabled",
        },
    );
    push_rule(
        &mut rules,
        settings.issues,
        repo.has_issues,
        RuleSpec {
            enable_flag: "--enable-issues",
            disable_flag: "--enable-issues=false",
            enabled_text: "issues enabled",
            disabled_text: "issues disabled",
        },
    );
    push_rule(
        &mut rules,
        settings.projects,
        repo.has_projects,
        RuleSpec {
            enable_flag: "--enable-projects",
            disable_flag: "--enable-projects=false",
            enabled_text: "projects enabled",
            disabled_text: "projects disabled",
        },
    );
    push_rule(
        &mut rules,
        settings.wiki,
        repo.has_wiki,
        RuleSpec {
            enable_flag: "--enable-wiki",
            disable_flag: "--enable-wiki=false",
            enabled_text: "wiki enabled",
            disabled_text: "wiki disabled",
        },
    );
    push_rule(
        &mut rules,
        settings.discussions,
        repo.has_discussions,
        RuleSpec {
            enable_flag: "--enable-discussions",
            disable_flag: "--enable-discussions=false",
            enabled_text: "discussions enabled",
            disabled_text: "discussions disabled",
        },
    );
    push_text_rule(
        &mut rules,
        settings.squash_merge_message,
        repo.squash_merge_commit_message.as_str(),
        "squash merge message",
        "squash_merge_commit_message",
    );
    push_text_rule(
        &mut rules,
        settings.squash_merge_title,
        repo.squash_merge_commit_title.as_str(),
        "squash merge title",
        "squash_merge_commit_title",
    );
    rules
}

/// The rules that `repo` does not follow yet, in the order of [`rules`].
pub fn drift(repo: &Repo, config: &Config) -> (res: Vec<Rule>)
    ensures
        rule_views(res@) == spec_drift(repo, config),
{
    let mut rest = rules(repo, config);
    let ghost all = rule_views(rest@);
    let mut out: Vec<Rule> = Vec::new();
    let ghost mut taken: int = 0;
    assert(all.take(0) =~= Seq::<RuleView>::empty());
    while rest.len() > 0
        invariant
            0 <= taken <= all.len(),
            rest@.len() + taken == all.len(),
            rule_views(rest@) == all.skip(taken),
            rule_views(out@) == all.take(taken).filter(unmatched()),
        decreases rest.len(),
    {
        let ghost before = out@;
        let ghost old_rest = rest@;
        assert(rule_views(old_rest)[0] == all.skip(taken)[0]);
        let rule = rest.remove(0);
        assert(rule@ == all[taken]);
        assert forall|i: int| 0 <= i < rest@.len() implies rule_views(rest@)[i] == all.skip(
            taken + 1,
        )[i] by {
            assert(rest@[i] == old_rest[i + 1]);
            assert(rule_views(old_rest)[i + 1] == all.skip(taken)[i + 1]);
        }
        assert(rule_views(rest@) =~= all.skip(taken + 1));
        assert(all.take(taken + 1) =~= all.take(taken).push(all[taken]));
        proof {
            all.take(taken).lemma_filter_push(all[taken], unmatched());
        }
        if !rule.matches() {
            out.push(rule);
            assert(rule_views(out@) =~= rule_views(before).push(all[taken]));
        } else {
            assert(rule_views(out@) =~= rule_views(before));
        }
        proof {
            taken = taken + 1;
        }
    }
    assert(all.take(taken) =~= all);
    out
}

/// Whether the standard sets anything for `repo`.
pub fn has_rules(repo: &Repo, config: &Config) -> (res: bool)
    ensures
        res == layered_settings(config, repo.private).has_rules(),
{
    settings_for(repo, config).has_rules()
}

impl Rule {
    /// The repository already has what the rule asks for.
    pub fn matches(&self) -> (res: bool)
        ensures
            res == self@.followed(),
    {
        self.current_text == self.desired_text
    }

    /// How the repository stands now, described in words.
    pub fn current_text(&self) -> (res: &str)
        ensures
            res@ == self@.current_text,
    {
        self.current_text.as_str()
    }

    /// What the standard asks for, described in words.
    pub fn desired_text(&self) -> (res: &str)
        ensures
            res@ == self@.desired_text,
    {
        self.desired_text.as_str()
    }

    /// The change that makes the repository follow the rule.
    pub fn edit(&self) -> (res: &Edit)
        ensures
            res@ == self@.edit,
    {
        &self.edit
    }
}

/// The repository already has the value that the standard sets, or the
/// standard leaves it open.
pub open spec fn holds<T>(desired: Option<T>, current: T) -> bool {
    match desired {
        Some(d) => d == current,
        None => true,
    }
}

/// `repo` already has every setting that `s` sets.
pub open spec fn conforms(s: SettingsView, repo: &Repo) -> bool {
    &&& holds(s.delete_branch_on_merge, repo.delete_branch_on_merge)
    &&& holds(s.squash_merge, repo.allow_squash_merge)
    &&& holds(s.merge_commit, repo.allow_merge_commit)
    &&& holds(s.rebase_merge, repo.allow_rebase_merge)
    &&& holds(s.auto_merge, repo.allow_auto_merge)
    &&& holds(s.update_branch, repo.allow_update_branch)
    &&& holds(s.issues, repo.has_issues)
    &&& holds(s.projects, repo.has_projects)
    &&& holds(s.wiki, repo.has_wiki)
    &&& holds(s.discussions, repo.has_discussions)
    &&& holds(s.squash_merge_message, repo.squash_merge_commit_message@)
    &&& holds(s.squash_merge_title, repo.squash_merge_commit_title@)
}

proof fn lemma_single_filter(r: RuleView)
    ensures
        seq![r].filter(unmatched()) == (if r.followed() {
            Seq::<RuleView>::empty()
        } else {
            seq![r]
        }),
{
    Seq::<RuleView>::empty().lemma_filter_push(r, unmatched());
    assert(Seq::<RuleView>::empty().push(r) =~= seq![r]);
    reveal(Seq::filter);
    assert(Seq::<RuleView>::empty().filter(unmatched()) =~= Seq::<RuleView>::empty());
}

proof fn lemma_flag_rule_drift(desired: Option<bool>, current: bool, texts: FlagTexts)
    requires
        texts.enabled_text != texts.disabled_text,
    ensures
        flag_rule(desired, current, texts).len() == (if desired is Some {
            1int
        } else {
            0
        }),
        flag_rule(desired, current, texts).filter(unmatched()).len() == (if holds(
            desired,
            current,
        ) {
            0int
        } else {
            1
        }),
{
    match desired {
        Some(d) => {
            let r = flag_rule(desired, current, texts)[0];
            lemma_single_filter(r);
            assert(flag_rule(desired, current, texts) =~= seq![r]);
        },
        None => {
            reveal(Seq::filter);
        },
    }
}

proof fn lemma_labelled_injective(label: Seq<char>, a: Seq<char>, b: Seq<char>)
    ensures
        labelled(label, a) == labelled(label, b) <==> a == b,
{
    reveal_strlit(" ");
    if labelled(label, a) == labelled(label, b) {
        let n: int = label.len() as int + 1;
        assert(a =~= labelled(label, a).subrange(n, labelled(label, a).len() as int));
        assert(b =~= labelled(label, b).subrange(n, labelled(label, b).len() as int));
    }
}

proof fn lemma_text_rule_drift(
    desired: Option<Seq<char>>,
    current: Seq<char>,
    label: Seq<char>,
    field: Seq<char>,
)
    ensures
        text_rule(desired, current, label, field).len() == (if desired is Some {
            1int
        } else {
            0
        }),
        text_rule(desired, current, label, field).filter(unmatched()).len() == (if holds(
            desired,
            current,
        ) {
            0int
        } else {
            1
        }),
{
    match desired {
        Some(d) => {
            let r = text_rule(desired, current, label, field)[0];
            lemma_single_filter(r);
            lemma_labelled_injective(label, current, d);
            assert(text_rule(desired, current, label, field) =~= seq![r]);
        },
        None => {
            reveal(Seq::filter);
        },
    }
}

proof fn lemma_flag_texts_differ()
    ensures
        delete_branch_on_merge_texts().enabled_text != delete_branch_on_merge_texts().disabled_text,
        squash_merge_texts().enabled_text != squash_merge_texts().disabled_text,
        merge_commit_texts().enabled_text != merge_commit_texts().disabled_text,
        rebase_merge_texts().enabled_text != rebase_merge_texts().disabled_text,
        auto_merge_texts().enabled_text != auto_merge_texts().disabled_text,
        update_branch_texts().enabled_text != update_branch_texts().disabled_text,
        issues_texts().enabled_text != issues_texts().disabled_text,
        projects_texts().enabled_text != projects_texts().disabled_text,
        wiki_texts().enabled_text != wiki_texts().disabled_text,
        discussions_texts().enabled_text != discussions_texts().disabled_text,
{
    reveal_strlit("delete branches on merge");
    reveal_strlit("keep branches after merge");
    assert("delete branches on merge"@[0] != "keep branches after merge"@[0]);
    reveal_strlit("squash merge enabled");
    reveal_strlit("squash merge disabled");
    assert("squash merge enabled"@.len() != "squash merge disabled"@.len());
    reveal_strlit("merge commits enabled");
    reveal_strlit("merge commits disabled");
    assert("merge commits enabled"@.len() != "merge commits disabled"@.len());
    reveal_strlit("rebase merge enabled");
    reveal_strlit("rebase merge disabled");
    assert("rebase merge enabled"@.len() != "rebase merge disabled"@.len());
    reveal_strlit("auto-merge enabled");
    reveal_strlit("auto-merge disabled");
    assert("auto-merge enabled"@.len() != "auto-merge disabled"@.len());
    reveal_strlit("update branch suggestions enabled");
    reveal_strlit("update branch suggestions disabled");
    assert("update branch suggestions enabled"@.len() != "update branch suggestions disabled"@.len());
    reveal_strlit("issues enabled");
    reveal_strlit("issues disabled");
    assert("issues enabled"@.len() != "issues disabled"@.len());
    reveal_strlit("projects enabled");
    reveal_strlit("projects disabled");
    assert("projects enabled"@.len() != "projects disabled"@.len());
    reveal_strlit("wiki enabled");
    reveal_strlit("wiki disabled");
    assert("wiki enabled"@.len() != "wiki disabled"@.len());
    reveal_strlit("discussions enabled");
    reveal_strlit("discussions disabled");
    assert("discussions enabled"@.len() != "discussions disabled"@.len());
}

/// The standard sets some rule for a repository exactly when its layered
/// settings set something.
pub proof fn lemma_rules_exist_iff_settings_set(s: SettingsView, repo: &Repo)
    ensures
        standard_rules(s, repo).len() > 0 <==> s.has_rules(),
{
    lemma_drift_counts(s, repo);
}

/// A repository shows no drift exactly when it already has every setting
/// that its layered standard sets.
pub proof fn lemma_no_drift_iff_conforms(s: SettingsView, repo: &Repo)
    ensures
        standard_rules(s, repo).filter(unmatched()).len() == 0 <==> conforms(s, repo),
{
    lemma_drift_counts(s, repo);
}

proof fn lemma_concat_drift(a: Seq<RuleView>, b: Seq<RuleView>)
    ensures
        (a + b).filter(unmatched()).len() == a.filter(unmatched()).len() + b.filter(
            unmatched(),
        ).len(),
{
    Seq::filter_distributes_over_add(a, b, unmatched());
}

proof fn lemma_drift_counts(s: SettingsView, repo: &Repo)
    ensures
        standard_rules(s, repo).len() > 0 <==> s.has_rules(),
        standard_rules(s, repo).filter(unmatched()).len() == 0 <==> conforms(s, repo),
{
    lemma_flag_texts_differ();
    let g0 = flag_rule(
        s.delete_branch_on_merge,
        repo.delete_branch_on_merge,
        delete_branch_on_merge_texts(),
    );
    let g1 = flag_rule(s.squash_merge, repo.allow_squash_merge, squash_merge_texts());
    let g2 = flag_rule(s.merge_commit, repo.allow_merge_commit, merge_commit_texts());
    let g3 = flag_rule(s.rebase_merge, repo.allow_rebase_merge, rebase_merge_texts());
    let g4 = flag_rule(s.auto_merge, repo.allow_auto_merge, auto_merge_texts());
    let g5 = flag_rule(s.update_branch, repo.allow_update_branch, update_branch_texts());
    let g6 = flag_rule(s.issues, repo.has_issues, issues_texts());
    let g7 = flag_rule(s.projects, repo.has_projects, projects_texts());
    let g8 = flag_rule(s.wiki, repo.has_wiki, wiki_texts());
    let g9 = flag_rule(s.discussions, repo.has_discussions, discussions_texts());
    let g10 = text_rule(
        s.squash_merge_message,
        repo.squash_merge_commit_message@,
        "squash merge message"@,
        "squash_merge_commit_message"@,
    );
    let g11 = text_rule(
        s.squash_merge_title,
        repo.squash_merge_commit_title@,
        "squash merge title"@,
        "squash_merge_commit_title"@,
    );
    lemma_flag_rule_drift(
        s.delete_branch_on_merge,
        repo.delete_branch_on_merge,
        delete_branch_on_merge_texts(),
    );
    lemma_flag_rule_drift(s.squash_merge, repo.allow_squash_merge, squash_merge_texts());
    lemma_flag_rule_drift(s.merge_commit, repo.allow_merge_commit, merge_commit_texts());
    lemma_flag_rule_drift(s.rebase_merge, repo.allow_rebase_merge, rebase_merge_texts());
    lemma_flag_rule_drift(s.auto_merge, repo.allow_auto_merge, auto_merge_texts());
    lemma_flag_rule_drift(s.update_branch, repo.allow_update_branch, update_branch_texts());
    lemma_flag_rule_drift(s.issues, repo.has_issues, issues_texts());
    lemma_flag_rule_drift(s.projects, repo.has_projects, projects_texts());
    lemma_flag_rule_drift(s.wiki, repo.has_wiki, wiki_texts());
    lemma_flag_rule_drift(s.discussions, repo.has_discussions, discussions_texts());
    lemma_text_rule_drift(
        s.squash_merge_message,
        repo.squash_merge_commit_message@,
        "squash merge message"@,
        "squash_merge_commit_message"@,
    );
    lemma_text_rule_drift(
        s.squash_merge_title,
        repo.squash_merge_commit_title@,
        "squash merge title"@,
        "squash_merge_commit_title"@,
    );
    let p1 = g0 + g1;
    let p2 = p1 + g2;
    let p3 = p2 + g3;
    let p4 = p3 + g4;
    let p5 = p4 + g5;
    let p6 = p5 + g6;
    let p7 = p6 + g7;
    let p8 = p7 + g8;
    let p9 = p8 + g9;
    let p10 = p9 + g10;
    let p11 = p10 + g11;
    lemma_concat_drift(g0, g1);
    lemma_concat_drift(p1, g2);
    lemma_concat_drift(p2, g3);
    lemma_concat_drift(p3, g4);
    lemma_concat_drift(p4, g5);
    lemma_concat_drift(p5, g6);
    lemma_concat_drift(p6, g7);
    lemma_concat_drift(p7, g8);
    lemma_concat_drift(p8, g9);
    lemma_concat_drift(p9, g10);
    lemma_concat_drift(p10, g11);
    assert(standard_rules(s, repo) == p11);
}

/// A private repository's rules do not depend on the `public` table, and a
/// public repository's rules do not depend on the `private` table.
pub proof fn lemma_visibility_tables_apart(repo: &Repo, c1: &Config, c2: &Config)
    requires
        c1.standard == c2.standard,
        repo.private ==> c1.private == c2.private,
        !repo.private ==> c1.public == c2.public,
    ensures
        spec_rules(repo, c1) == spec_rules(repo, c2),
        spec_drift(repo, c1) == spec_drift(repo, c2),
{
}

/// The rule that the setting numbered `k` makes for `repo`, numbering the
/// settings in the order of [`standard_rules`] from 0 to 11: none when `s`
/// leaves the setting open.
pub open spec fn setting_rule(s: SettingsView, repo: &Repo, k: int) -> Seq<RuleView> {
    if k == 0 {
        flag_rule(
            s.delete_branch_on_merge,
            repo.delete_branch_on_merge,
            delete_branch_on_merge_texts(),
        )
    } else if k == 1 {
        flag_rule(s.squash_merge, repo.allow_squash_merge, squash_merge_texts())
    } else if k == 2 {
        flag_rule(s.merge_commit, repo.allow_merge_commit, merge_commit_texts())
    } else if k == 3 {
        flag_rule(s.rebase_merge, repo.allow_rebase_merge, rebase_merge_texts())
    } else if k == 4 {
        flag_rule(s.auto_merge, repo.allow_auto_merge, auto_merge_texts())
    } else if k == 5 {
        flag_rule(s.update_branch, repo.allow_update_branch, update_branch_texts())
    } else if k == 6 {
        flag_rule(s.issues, repo.has_issues, issues_texts())
    } else if k == 7 {
        flag_rule(s.projects, repo.has_projects, projects_texts())
    } else if k == 8 {
        flag_rule(s.wiki, repo.has_wiki, wiki_texts())
    } else if k == 9 {
        flag_rule(s.discussions, repo.has_discussions, discussions_texts())
    } else if k == 10 {
        text_rule(
            s.squash_merge_message,
            repo.squash_merge_commit_message@,
            "squash merge message"@,
            "squash_merge_commit_message"@,
        )
    } else if k == 11 {
        text_rule(
            s.squash_merge_title,
            repo.squash_merge_commit_title@,
            "squash merge title"@,
            "squash_merge_commit_title"@,
        )
    } else {
        Seq::empty()
    }
}

/// Whether `s` sets the setting numbered `k`.
pub open spec fn setting_is_set(s: SettingsView, k: int) -> bool {
    if k == 0 {
        s.delete_branch_on_merge is Some
    } else if k == 1 {
        s.squash_merge is Some
    } else if k == 2 {
        s.merge_commit is Some
    } else if k == 3 {
        s.rebase_merge is Some
    } else if k == 4 {
        s.auto_merge is Some
    } else if k == 5 {
        s.update_branch is Some
    } else if k == 6 {
        s.issues is Some
    } else if k == 7 {
        s.projects is Some
    } else if k == 8 {
        s.wiki is Some
    } else if k == 9 {
        s.discussions is Some
    } else if k == 10 {
        s.squash_merge_message is Some
    } else if k == 11 {
        s.squash_merge_title is Some
    } else {
        false
    }
}

/// Whether `repo` already has the value that `s` sets for the setting
/// numbered `k` (or `s` leaves it open).
pub open spec fn setting_is_held(s: SettingsView, repo: &Repo, k: int) -> bool {
    if k == 0 {
        holds(s.delete_branch_on_merge, repo.delete_branch_on_merge)
    } else if k == 1 {
        holds(s.squash_merge, repo.allow_squash_merge)
    } else if k == 2 {
        holds(s.merge_commit, repo.allow_merge_commit)
    } else if k == 3 {
        holds(s.rebase_merge, repo.allow_rebase_merge)
    } else if k == 4 {
        holds(s.auto_merge, repo.allow_auto_merge)
    } else if k == 5 {
        holds(s.update_branch, repo.allow_update_branch)
    } else if k == 6 {
        holds(s.issues, repo.has_issues)
    } else if k == 7 {
        holds(s.projects, repo.has_projects)
    } else if k == 8 {
        holds(s.wiki, repo.has_wiki)
    } else if k == 9 {
        holds(s.discussions, repo.has_discussions)
    } else if k == 10 {
        holds(s.squash_merge_message, repo.squash_merge_commit_message@)
    } else if k == 11 {
        holds(s.squash_merge_title, repo.squash_merge_commit_title@)
    } else {
        true
    }
}

/// The rules of the settings numbered below `n`, in order.
pub open spec fn rules_upto(s: SettingsView, repo: &Repo, n: nat) -> Seq<RuleView>
    decreases n,
{
    if n == 0 {
        Seq::empty()
    } else {
        rules_upto(s, repo, (n - 1) as nat) + setting_rule(s, repo, n - 1)
    }
}

proof fn lemma_setting_rule(s: SettingsView, repo: &Repo, k: int)
    requires
        0 <= k < 12,
    ensures
        setting_rule(s, repo, k).len() == (if setting_is_set(s, k) {
            1int
        } else {
            0
        }),
        setting_is_set(s, k) ==> (setting_rule(s, repo, k)[0].followed() <==> setting_is_held(
            s,
            repo,
            k,
        )),
{
    lemma_flag_texts_differ();
    if k < 10 {
        let (desired, current, texts) = if k == 0 {
            (
                s.delete_branch_on_merge,
                repo.delete_branch_on_merge,
                delete_branch_on_merge_texts(),
            )
        } else if k == 1 {
            (s.squash_merge, repo.allow_squash_merge, squash_merge_texts())
        } else if k == 2 {
            (s.merge_commit, repo.allow_merge_commit, merge_commit_texts())
        } else if k == 3 {
            (s.rebase_merge, repo.allow_rebase_merge, rebase_merge_texts())
        } else if k == 4 {
            (s.auto_merge, repo.allow_auto_merge, auto_merge_texts())
        } else if k == 5 {
            (s.update_branch, repo.allow_update_branch, update_branch_texts())
        } else if k == 6 {
            (s.issues, repo.has_issues, issues_texts())
        } else if k == 7 {
            (s.projects, repo.has_projects, projects_texts())
        } else if k == 8 {
            (s.wiki, repo.has_wiki, wiki_texts())
        } else {
            (s.discussions, repo.has_discussions, discussions_texts())
        };
        assert(setting_rule(s, repo, k) == flag_rule(desired, current, texts));
    } else if k == 10 {
        lemma_labelled_injective(
            "squash merge message"@,
            repo.squash_merge_commit_message@,
            s.squash_merge_message->0,
        );
    } else {
        lemma_labelled_injective(
            "squash merge title"@,
            repo.squash_merge_commit_title@,
            s.squash_merge_title->0,
        );
    }
}

proof fn lemma_rules_upto_index(s: SettingsView, repo: &Repo, n: nat, k: int)
    requires
        0 <= k < n <= 12,
        setting_is_set(s, k),
    ensures
        rules_upto(s, repo, k as nat).len() < rules_upto(s, repo, n).len(),
        rules_upto(s, repo, n)[rules_upto(s, repo, k as nat).len() as int] == setting_rule(
            s,
            repo,
            k,
        )[0],
    decreases n,
{
    lemma_setting_rule(s, repo, k);
    if n == k + 1 {
        assert(rules_upto(s, repo, n) == rules_upto(s, repo, k as nat) + setting_rule(s, repo, k));
    } else {
        lemma_rules_upto_index(s, repo, (n - 1) as nat, k);
    }
}

/// The rules of [`standard_rules`] are those of the twelve settings, one
/// after the other.
pub proof fn lemma_standard_rules_by_setting(s: SettingsView, repo: &Repo)
    ensures
        standard_rules(s, repo) == rules_upto(s, repo, 12),
        conforms(s, repo) <==> forall|k: int| 0 <= k < 12 ==> #[trigger] setting_is_held(s, repo, k),
        s.has_rules() <==> exists|k: int| 0 <= k < 12 && #[trigger] setting_is_set(s, k),
{
    reveal_with_fuel(rules_upto, 13);
    assert(standard_rules(s, repo) =~= rules_upto(s, repo, 12));
    if conforms(s, repo) {
        assert forall|k: int| 0 <= k < 12 implies #[trigger] setting_is_held(s, repo, k) by {}
    }
    if forall|k: int| 0 <= k < 12 ==> #[trigger] setting_is_held(s, repo, k) {
        assert(setting_is_held(s, repo, 0) && setting_is_held(s, repo, 1) && setting_is_held(
            s,
            repo,
            2,
        ) && setting_is_held(s, repo, 3) && setting_is_held(s, repo, 4) && setting_is_held(
            s,
            repo,
            5,
        ) && setting_is_held(s, repo, 6) && setting_is_held(s, repo, 7) && setting_is_held(
            s,
            repo,
            8,
        ) && setting_is_held(s, repo, 9) && setting_is_held(s, repo, 10) && setting_is_held(
            s,
            repo,
            11,
        ));
    }
    if s.has_rules() {
        assert(setting_is_set(s, 0) || setting_is_set(s, 1) || setting_is_set(s, 2)
            || setting_is_set(s, 3) || setting_is_set(s, 4) || setting_is_set(s, 5)
            || setting_is_set(s, 6) || setting_is_set(s, 7) || setting_is_set(s, 8)
            || setting_is_set(s, 9) || setting_is_set(s, 10) || setting_is_set(s, 11));
    }
}

/// Each setting that the standard sets has its own rule among the rules,
/// after the rules of the settings before it; that rule is followed exactly
/// when the repository already has the value that the setting asks for.
pub proof fn lemma_rule_of_setting(s: SettingsView, repo: &Repo, k: int)
    requires
        0 <= k < 12,
        setting_is_set(s, k),
    ensures
        rules_upto(s, repo, k as nat).len() < standard_rules(s, repo).len(),
        standard_rules(s, repo)[rules_upto(s, repo, k as nat).len() as int] == setting_rule(
            s,
            repo,
            k,
        )[0],
        standard_rules(s, repo)[rules_upto(s, repo, k as nat).len() as int].followed()
            <==> setting_is_held(s, repo, k),
{
    lemma_standard_rules_by_setting(s, repo);
    lemma_rules_upto_index(s, repo, 12, k);
    lemma_setting_rule(s, repo, k);
}

/// The `gh repo edit` flag of the on/off setting numbered `k` (0 to 9):
/// given alone it turns the setting on, followed by `=false` it turns it
/// off.
pub open spec fn gh_flag(k: int) -> Seq<char> {
    if k == 0 {
        "--delete-branch-on-merge"@
    } else if k == 1 {
        "--enable-squash-merge"@
    } else if k == 2 {
        "--enable-merge-commit"@
    } else if k == 3 {
        "--enable-rebase-merge"@
    } else if k == 4 {
        "--enable-auto-merge"@
    } else if k == 5 {
        "--allow-update-branch"@
    } else if k == 6 {
        "--enable-issues"@
    } else if k == 7 {
        "--enable-projects"@
    } else if k == 8 {
        "--enable-wiki"@
    } else if k == 9 {
        "--enable-discussions"@
    } else {
        Seq::empty()
    }
}

/// The value that `s` sets for the on/off setting numbered `k` (0 to 9).
pub open spec fn flag_desired(s: SettingsView, k: int) -> Option<bool> {
    if k == 0 {
        s.delete_branch_on_merge
    } else if k == 1 {
        s.squash_merge
    } else if k == 2 {
        s.merge_commit
    } else if k == 3 {
        s.rebase_merge
    } else if k == 4 {
        s.auto_merge
    } else if k == 5 {
        s.update_branch
    } else if k == 6 {
        s.issues
    } else if k == 7 {
        s.projects
    } else if k == 8 {
        s.wiki
    } else if k == 9 {
        s.discussions
    } else {
        None
    }
}

proof fn lemma_flag_literals()
    ensures
        delete_branch_on_merge_texts().enable_flag == gh_flag(0),
        delete_branch_on_merge_texts().disable_flag == gh_flag(0) + "=false"@,
        squash_merge_texts().enable_flag == gh_flag(1),
        squash_merge_texts().disable_flag == gh_flag(1) + "=false"@,
        merge_commit_texts().enable_flag == gh_flag(2),
        merge_commit_texts().disable_flag == gh_flag(2) + "=false"@,
        rebase_merge_texts().enable_flag == gh_flag(3),
        rebase_merge_texts().disable_flag == gh_flag(3) + "=false"@,
        auto_merge_texts().enable_flag == gh_flag(4),
        auto_merge_texts().disable_flag == gh_flag(4) + "=false"@,
        update_branch_texts().enable_flag == gh_flag(5),
        update_branch_texts().disable_flag == gh_flag(5) + "=false"@,
        issues_texts().enable_flag == gh_flag(6),
        issues_texts().disable_flag == gh_flag(6) + "=false"@,
        projects_texts().enable_flag == gh_flag(7),
        projects_texts().disable_flag == gh_flag(7) + "=false"@,
        wiki_texts().enable_flag == gh_flag(8),
        wiki_texts().disable_flag == gh_flag(8) + "=false"@,
        discussions_texts().enable_flag == gh_flag(9),
        discussions_texts().disable_flag == gh_flag(9) + "=false"@,
{
    reveal_strlit("=false");
    reveal_strlit("--delete-branch-on-merge");
    reveal_strlit("--delete-branch-on-merge=false");
    assert("--delete-branch-on-merge=false"@ =~= "--delete-branch-on-merge"@ + "=false"@);
    reveal_strlit("--enable-squash-merge");
    reveal_strlit("--enable-squash-merge=false");
    assert("--enable-squash-merge=false"@ =~= "--enable-squash-merge"@ + "=false"@);
    reveal_strlit("--enable-merge-commit");
    reveal_strlit("--enable-merge-commit=false");
    assert("--enable-merge-commit=false"@ =~= "--enable-merge-commit"@ + "=false"@);
    reveal_strlit("--enable-rebase-merge");
    reveal_strlit("--enable-rebase-merge=false");
    assert("--enable-rebase-merge=false"@ =~= "--enable-rebase-merge"@ + "=false"@);
    reveal_strlit("--enable-auto-merge");
    reveal_strlit("--enable-auto-merge=false");
    assert("--enable-auto-merge=false"@ =~= "--enable-auto-merge"@ + "=false"@);
    reveal_strlit("--allow-update-branch");
    reveal_strlit("--allow-update-branch=false");
    assert("--allow-update-branch=false"@ =~= "--allow-update-branch"@ + "=false"@);
    reveal_strlit("--enable-issues");
    reveal_strlit("--enable-issues=false");
    assert("--enable-issues=false"@ =~= "--enable-issues"@ + "=false"@);
    reveal_strlit("--enable-projects");
    reveal_strlit("--enable-projects=false");
    assert("--enable-projects=false"@ =~= "--enable-projects"@ + "=false"@);
    reveal_strlit("--enable-wiki");
    reveal_strlit("--enable-wiki=false");
    assert("--enable-wiki=false"@ =~= "--enable-wiki"@ + "=false"@);
    reveal_strlit("--enable-discussions");
    reveal_strlit("--enable-discussions=false");
    assert("--enable-discussions=false"@ =~= "--enable-discussions"@ + "=false"@);
}

/// The rule of an on/off setting that the standard sets edits the
/// repository with that setting's `gh` flag, alone when the standard wants
/// it on and followed by `=false` when it wants it off.
pub proof fn lemma_flag_edit_sets_desired(s: SettingsView, repo: &Repo, k: int)
    requires
        0 <= k < 10,
        flag_desired(s, k) is Some,
    ensures
        rules_upto(s, repo, k as nat).len() < standard_rules(s, repo).len(),
        standard_rules(s, repo)[rules_upto(s, repo, k as nat).len() as int].edit == EditView::Flag(
            if flag_desired(s, k)->0 {
                gh_flag(k)
            } else {
                gh_flag(k) + "=false"@
            },
        ),
{
    assert(setting_is_set(s, k));
    lemma_rule_of_setting(s, repo, k);
    lemma_flag_literals();
}

/// The rule of a text setting that the standard sets patches the
/// repository's REST API field `squash_merge_commit_message` (setting 10)
/// or `squash_merge_commit_title` (setting 11) to the desired text.
pub proof fn lemma_text_edit_sets_desired(s: SettingsView, repo: &Repo, k: int)
    requires
        k == 10 || k == 11,
        setting_is_set(s, k),
    ensures
        rules_upto(s, repo, k as nat).len() < standard_rules(s, repo).len(),
        standard_rules(s, repo)[rules_upto(s, repo, k as nat).len() as int].edit == (if k == 10 {
            EditView::Patch {
                field: "squash_merge_commit_message"@,
                value: s.squash_merge_message->0,
            }
        } else {
            EditView::Patch { field: "squash_merge_commit_title"@, value: s.squash_merge_title->0 }
        }),
{
    lemma_rule_of_setting(s, repo, k);
}

/// How the state of the on/off setting numbered `k` (0 to 9) is described:
/// `on` tells whether it is turned on.
pub open spec fn flag_words(k: int, on: bool) -> Seq<char> {
    if k == 0 {
        if on {
            "delete branches on merge"@
        } else {
            "keep branches after merge"@
        }
    } else if k == 1 {
        if on {
            "squash merge enabled"@
        } else {
            "squash merge disabled"@
        }
    } else if k == 2 {
        if on {
            "merge commits enabled"@
        } else {
            "merge commits disabled"@
        }
    } else if k == 3 {
        if on {
            "rebase merge enabled"@
        } else {
            "rebase merge disabled"@
        }
    } else if k == 4 {
        if on {
            "auto-merge enabled"@
        } else {
            "auto-merge disabled"@
        }
    } else if k == 5 {
        if on {
            "update branch suggestions enabled"@
        } else {
            "update branch suggestions disabled"@
        }
    } else if k == 6 {
        if on {
            "issues enabled"@
        } else {
            "issues disabled"@
        }
    } else if k == 7 {
        if on {
            "projects enabled"@
        } else {
            "projects disabled"@
        }
    } else if k == 8 {
        if on {
            "wiki enabled"@
        } else {
            "wiki disabled"@
        }
    } else if k == 9 {
        if on {
            "discussions enabled"@
        } else {
            "discussions disabled"@
        }
    } else {
        Seq::empty()
    }
}

/// Whether `repo` has the on/off setting numbered `k` (0 to 9) turned on.
pub open spec fn flag_current(repo: &Repo, k: int) -> bool {
    if k == 0 {
        repo.delete_branch_on_merge
    } else if k == 1 {
        repo.allow_squash_merge
    } else if k == 2 {
        repo.allow_merge_commit
    } else if k == 3 {
        repo.allow_rebase_merge
    } else if k == 4 {
        repo.allow_auto_merge
    } else if k == 5 {
        repo.allow_update_branch
    } else if k == 6 {
        repo.has_issues
    } else if k == 7 {
        repo.has_projects
    } else if k == 8 {
        repo.has_wiki
    } else if k == 9 {
        repo.has_discussions
    } else {
        false
    }
}

/// The rule of an on/off setting that the standard sets describes how the
/// repository stands and what the standard asks for in that setting's
/// words.
pub proof fn lemma_flag_rule_describes(s: SettingsView, repo: &Repo, k: int)
    requires
        0 <= k < 10,
        flag_desired(s, k) is Some,
    ensures
        rules_upto(s, repo, k as nat).len() < standard_rules(s, repo).len(),
        standard_rules(s, repo)[rules_upto(s, repo, k as nat).len() as int].current_text
            == flag_words(k, flag_current(repo, k)),
        standard_rules(s, repo)[rules_upto(s, repo, k as nat).len() as int].desired_text
            == flag_words(k, flag_desired(s, k)->0),
{
    assert(setting_is_set(s, k));
    lemma_rule_of_setting(s, repo, k);
}

/// The rule of a text setting that the standard sets describes the
/// repository's current text and the desired one, each after the
/// setting's label and a space.
pub proof fn lemma_text_rule_describes(s: SettingsView, repo: &Repo, k: int)
    requires
        k == 10 || k == 11,
        setting_is_set(s, k),
    ensures
        rules_upto(s, repo, k as nat).len() < standard_rules(s, repo).len(),
        k == 10 ==> standard_rules(s, repo)[rules_upto(s, repo, k as nat).len() as int]
            == (RuleView {
            current_text: "squash merge message "@ + repo.squash_merge_commit_message@,
            desired_text: "squash merge message "@ + s.squash_merge_message->0,
            edit: EditView::Patch {
                field: "squash_merge_commit_message"@,
                value: s.squash_merge_message->0,
            },
        }),
        k == 11 ==> standard_rules(s, repo)[rules_upto(s, repo, k as nat).len() as int]
            == (RuleView {
            current_text: "squash merge title "@ + repo.squash_merge_commit_title@,
            desired_text: "squash merge title "@ + s.squash_merge_title->0,
            edit: EditView::Patch {
                field: "squash_merge_commit_title"@,
                value: s.squash_merge_title->0,
            },
        }),
{
    lemma_rule_of_setting(s, repo, k);
    reveal_strlit("squash merge message ");
    reveal_strlit("squash merge message");
    reveal_strlit("squash merge title ");
    reveal_strlit("squash merge title");
    reveal_strlit(" ");
    assert("squash merge message "@ =~= "squash merge message"@ + " "@);
    assert("squash merge title "@ =~= "squash merge title"@ + " "@);
}

} // verus!
