//! What the commands report and do: a repository's status line, the table
//! of statuses, and the edits that applying the standard makes.

use vstd::prelude::*;
use vstd::string::*;

use crate::config::{layered_settings, Config};
use crate::github::{pair_views, Repo};
use crate::standard::{
    conforms, drift, has_rules, lemma_no_drift_iff_conforms, lemma_rules_exist_iff_settings_set,
    rule_views, spec_drift, spec_rules, Edit, EditView, Rule, RuleView,
};
use crate::text::{decimal, decimal_string, pad_right, padded};

verus! {

broadcast use vstd::string::group_string_axioms;

/// The status of `repo`: `no rules` when the standard sets nothing for it,
/// `ok` when it shows no drift, otherwise the number of drifting rules.
pub open spec fn spec_repo_status(repo: &Repo, config: &Config) -> Seq<char> {
    if !layered_settings(config, repo.private).has_rules() {
        "no rules"@
    } else if spec_drift(repo, config).len() == 0 {
        "ok"@
    } else {
        decimal(spec_drift(repo, config).len()) + " drift"@
    }
}

/// The status line of `repo`, as `ghstd status` prints it.
pub fn repo_status(repo: &Repo, config: &Config) -> (res: String)
    ensures
        res@ == spec_repo_status(repo, config),
{
    if !has_rules(repo, config) {
        return "no rules".to_string();
    }
    let changes = drift(repo, config);
    let count = changes.len();
    proof {
        assert(rule_views(changes@).len() == changes@.len());
    }
    if count == 0 {
        "ok".to_string()
    } else {
        let mut res = decimal_string(count);
        res.append(" drift");
        res
    }
}

/// The length in bytes of the UTF-8 encoding of `s`, as `str::len` gives it.
pub open spec fn byte_len(s: Seq<char>) -> usize {
    vstd::utf8::encode_utf8(s).len() as usize
}

/// The width of the name column: the longest name, in bytes, or 0.
pub open spec fn name_width(repos: Seq<Repo>) -> usize
    decreases repos.len(),
{
    if repos.len() == 0 {
        0
    } else {
        let rest = name_width(repos.drop_last());
        let last = byte_len(repos.last().full_name@);
        if last > rest {
            last
        } else {
            rest
        }
    }
}

/// The width of the name column of a table of `repos`: the longest full
/// name, in bytes, or 0.
pub fn name_column_width(repos: &Vec<Repo>) -> (res: usize)
    ensures
        res == name_width(repos@),
{
    let mut width: usize = 0;
    let mut i: usize = 0;
    while i < repos.len()
        invariant
            i <= repos.len(),
            width == name_width(repos@.take(i as int)),
        decreases repos.len() - i,
    {
        let len = repos[i].full_name.as_str().len();
        assert(repos@.take(i + 1).drop_last() =~= repos@.take(i as int));
        if len > width {
            width = len;
        }
        i = i + 1;
    }
    assert(repos@.take(repos.len() as int) =~= repos@);
    width
}

/// The line of `repo` in a table whose name column is `width` wide.
pub open spec fn status_line(repo: &Repo, config: &Config, width: usize) -> Seq<char> {
    padded(repo.full_name@, width as nat) + "  "@ + spec_repo_status(repo, config)
}

/// The lines of `ghstd status --all`: one per repository, in order, the
/// names padded to a common column.
pub fn status_table(repos: &Vec<Repo>, config: &Config) -> (res: Vec<String>)
    ensures
        res@.len() == repos@.len(),
        forall|i: int|
            0 <= i < repos@.len() ==> #[trigger] res@[i]@ == status_line(
                &repos@[i],
                config,
                name_width(repos@),
            ),
{
    let width = name_column_width(repos);
    let mut lines: Vec<String> = Vec::new();
    let mut j: usize = 0;
    while j < repos.len()
        invariant
            j <= repos.len(),
            width == name_width(repos@),
            lines@.len() == j,
            forall|k: int|
                0 <= k < j ==> #[trigger] lines@[k]@ == status_line(&repos@[k], config, width),
        decreases repos.len() - j,
    {
        let repo = &repos[j];
        let mut line = pad_right(repo.full_name.as_str(), width);
        line.append("  ");
        let status = repo_status(repo, config);
        line.append(status.as_str());
        lines.push(line);
        j = j + 1;
    }
    lines
}

/// The `gh repo edit` flags among the edits of `rules`, in order.
pub open spec fn flag_edits(rules: Seq<RuleView>) -> Seq<Seq<char>>
    decreases rules.len(),
{
    if rules.len() == 0 {
        Seq::empty()
    } else {
        let rest = flag_edits(rules.drop_last());
        match rules.last().edit {
            EditView::Flag(flag) => rest.push(flag),
            EditView::Patch { .. } => rest,
        }
    }
}

/// The field patches among the edits of `rules`, in order.
pub open spec fn patch_edits(rules: Seq<RuleView>) -> Seq<(Seq<char>, Seq<char>)>
    decreases rules.len(),
{
    if rules.len() == 0 {
        Seq::empty()
    } else {
        let rest = patch_edits(rules.drop_last());
        match rules.last().edit {
            EditView::Flag(_) => rest,
            EditView::Patch { field, value } => rest.push((field, value)),
        }
    }
}

/// What applying the standard to a repository takes: the rules it does not
/// follow, the `gh repo edit` flags and the field patches that fix them.
pub struct StandardEdits {
    pub changes: Vec<Rule>,
    pub flags: Vec<String>,
    pub fields: Vec<(String, String)>,
}

/// The edits that bring `repo` in line with the standard: its drifting
/// rules, and their flags and patches in the order of the rules.
pub fn apply_standard(repo: &Repo, config: &Config) -> (res: StandardEdits)
    ensures
        rule_views(res.changes@) == spec_drift(repo, config),
        crate::text::str_views(res.flags@) == flag_edits(spec_drift(repo, config)),
        pair_views(res.fields@) == patch_edits(spec_drift(repo, config)),
{
    let changes = drift(repo, config);
    let ghost all = rule_views(changes@);
    let mut flags: Vec<String> = Vec::new();
    let mut fields: Vec<(String, String)> = Vec::new();
    let mut i: usize = 0;
    assert(all.take(0) =~= Seq::<RuleView>::empty());
    assert(crate::text::str_views(flags@) =~= Seq::<Seq<char>>::empty());
    assert(pair_views(fields@) =~= Seq::<(Seq<char>, Seq<char>)>::empty());
    while i < changes.len()
        invariant
            i <= changes.len(),
            all == rule_views(changes@),
            crate::text::str_views(flags@) == flag_edits(all.take(i as int)),
            pair_views(fields@) == patch_edits(all.take(i as int)),
        decreases changes.len() - i,
    {
        let ghost before_flags = flags@;
        let ghost before_fields = fields@;
        assert(all.take(i + 1).drop_last() =~= all.take(i as int));
        assert(all.take(i + 1).last() == changes@[i as int]@);
        match changes[i].edit() {
            Edit::Flag(flag) => {
                flags.push(flag.clone());
                assert(crate::text::str_views(flags@) =~= crate::text::str_views(
                    before_flags,
                ).push(flag@));
            },
            Edit::Patch { field, value } => {
                fields.push((field.clone(), value.clone()));
                assert(pair_views(fields@) =~= pair_views(before_fields).push(
                    (field@, value@),
                ));
            },
        }
        i = i + 1;
    }
    assert(all.take(changes.len() as int) =~= all);
    StandardEdits { changes, flags, fields }
}

/// What `ghstd apply` does with a repository: nothing when the standard
/// sets nothing for it (`None`), otherwise the edits of [`apply_standard`].
pub fn plan_apply(repo: &Repo, config: &Config) -> (res: Option<StandardEdits>)
    ensures
        res is None <==> !layered_settings(config, repo.private).has_rules(),
        res matches Some(edits) ==> {
            &&& rule_views(edits.changes@) == spec_drift(repo, config)
            &&& crate::text::str_views(edits.flags@) == flag_edits(spec_drift(repo, config))
            &&& pair_views(edits.fields@) == patch_edits(spec_drift(repo, config))
        },
{
    if !has_rules(repo, config) {
        None
    } else {
        Some(apply_standard(repo, config))
    }
}

impl StandardEdits {
    /// What `ghstd apply` prints once the edits are made: `ok` when there
    /// was nothing to change, `applied` otherwise.
    pub fn outcome(&self) -> (res: &'static str)
        ensures
            res@ == (if self.changes@.len() == 0 {
                "ok"@
            } else {
                "applied"@
            }),
    {
        if self.changes.len() == 0 {
            "ok"
        } else {
            "applied"
        }
    }
}

/// Every drifting rule yields exactly one edit: a flag or a field patch.
pub proof fn lemma_one_edit_per_rule(rules: Seq<RuleView>)
    ensures
        flag_edits(rules).len() + patch_edits(rules).len() == rules.len(),
    decreases rules.len(),
{
    if rules.len() > 0 {
        lemma_one_edit_per_rule(rules.drop_last());
    }
}

/// A repository's status reads `no rules` exactly when the standard sets
/// no rule for it, and `ok` exactly when it sets some and the repository
/// already has every setting that it sets.
pub proof fn lemma_status_meaning(repo: &Repo, config: &Config)
    ensures
        spec_repo_status(repo, config) == "no rules"@ <==> spec_rules(repo, config).len() == 0,
        spec_repo_status(repo, config) == "ok"@ <==> {
            &&& layered_settings(config, repo.private).has_rules()
            &&& conforms(layered_settings(config, repo.private), repo)
        },
{
    reveal_strlit("ok");
    reveal_strlit("no rules");
    reveal_strlit(" drift");
    let s = layered_settings(config, repo.private);
    lemma_rules_exist_iff_settings_set(s, repo);
    lemma_no_drift_iff_conforms(s, repo);
    let n = spec_drift(repo, config).len();
    assert(decimal(n).len() >= 1);
    assert(("no rules"@).len() == 8);
    assert(("ok"@).len() == 2);
    let counted = decimal(n) + " drift"@;
    assert(counted.len() >= 7);
    assert(counted[counted.len() - 1] == 't');
    assert(("no rules"@)[7] == 's');
}

/// The name column is as wide as the longest full name in bytes: no name
/// is wider, and one name is exactly that wide (the width is 0 for no
/// repositories).
pub proof fn lemma_name_width_is_longest(repos: Seq<Repo>)
    ensures
        forall|i: int|
            0 <= i < repos.len() ==> byte_len(#[trigger] repos[i].full_name@) <= name_width(
                repos,
            ),
        repos.len() == 0 ==> name_width(repos) == 0,
        repos.len() > 0 ==> exists|i: int|
            0 <= i < repos.len() && byte_len(#[trigger] repos[i].full_name@) == name_width(repos),
    decreases repos.len(),
{
    if repos.len() > 0 {
        let rest = repos.drop_last();
        lemma_name_width_is_longest(rest);
        assert forall|i: int|
            0 <= i < repos.len() implies byte_len(#[trigger] repos[i].full_name@) <= name_width(
            repos,
        ) by {
            if i < repos.len() - 1 {
                assert(repos[i] == rest[i]);
            }
        }
        if byte_len(repos.last().full_name@) > name_width(rest) {
            assert(byte_len(repos[repos.len() - 1].full_name@) == name_width(repos));
        } else if rest.len() > 0 {
            let j = choose|j: int|
                0 <= j < rest.len() && byte_len(#[trigger] rest[j].full_name@) == name_width(rest);
            assert(repos[j] == rest[j]);
            assert(byte_len(repos[j].full_name@) == name_width(repos));
        } else {
            assert(byte_len(repos[0].full_name@) == name_width(repos));
        }
    }
}

} // verus!
