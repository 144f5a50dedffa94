//! The configured standard: per-setting desired values, layered from a
//! common `standard` table and a table for public or private repositories.

use vstd::prelude::*;

verus! {

/// Desired repository settings. A field left `None` is not part of the
/// standard and is never checked or changed.
#[derive(Clone, Debug)]
pub struct Settings {
    pub delete_branch_on_merge: Option<bool>,
    pub squash_merge: Option<bool>,
    pub merge_commit: Option<bool>,
    pub rebase_merge: Option<bool>,
    pub auto_merge: Option<bool>,
    pub update_branch: Option<bool>,
    pub issues: Option<bool>,
    pub projects: Option<bool>,
    pub wiki: Option<bool>,
    pub discussions: Option<bool>,
    pub squash_merge_message: Option<String>,
    pub squash_merge_title: Option<String>,
}

/// The configuration file: a base standard, and overrides for public and
/// for private repositories.
#[derive(Debug)]
pub struct Config {
    pub standard: Option<Settings>,
    pub public: Option<Settings>,
    pub private: Option<Settings>,
}

/// The mathematical value of a [`Settings`].
pub struct SettingsView {
    pub delete_branch_on_merge: Option<bool>,
    pub squash_merge: Option<bool>,
    pub merge_commit: Option<bool>,
    pub rebase_merge: Option<bool>,
    pub auto_merge: Option<bool>,
    pub update_branch: Option<bool>,
    pub issues: Option<bool>,
    pub projects: Option<bool>,
    pub wiki: Option<bool>,
    pub discussions: Option<bool>,
    pub squash_merge_message: Option<Seq<char>>,
    pub squash_merge_title: Option<Seq<char>>,
}

/// The value of an optional string.
pub open spec fn opt_str(o: Option<String>) -> Option<Seq<char>> {
    match o {
        Some(s) => Some(s@),
        None => None,
    }
}

/// `over` where it is set, `base` otherwise.
pub open spec fn prefer<T>(base: Option<T>, over: Option<T>) -> Option<T> {
    match over {
        Some(v) => Some(v),
        None => base,
    }
}

impl View for Settings {
    type V = SettingsView;

    open spec fn view(&self) -> SettingsView {
        SettingsView {
            delete_branch_on_merge: self.delete_branch_on_merge,
            squash_merge: self.squash_merge,
            merge_commit: self.merge_commit,
            rebase_merge: self.rebase_merge,
            auto_merge: self.auto_merge,
            update_branch: self.update_branch,
            issues: self.issues,
            projects: self.projects,
            wiki: self.wiki,
            discussions: self.discussions,
            squash_merge_message: opt_str(self.squash_merge_message),
            squash_merge_title: opt_str(self.squash_merge_title),
        }
    }
}

impl SettingsView {
    /// Settings with nothing set.
    pub open spec fn empty() -> SettingsView {
        SettingsView {
            delete_branch_on_merge: None,
            squash_merge: None,
            merge_commit: None,
            rebase_merge: None,
            auto_merge: None,
            update_branch: None,
            issues: None,
            projects: None,
            wiki: None,
            discussions: None,
            squash_merge_message: None,
            squash_merge_title: None,
        }
    }

    /// `self` overridden, field by field, by whatever `other` sets.
    pub open spec fn overlay(self, other: SettingsView) -> SettingsView {
        SettingsView {
            delete_branch_on_merge: prefer(
                self.delete_branch_on_merge,
                other.delete_branch_on_merge,
            ),
            squash_merge: prefer(self.squash_merge, other.squash_merge),
            merge_commit: prefer(self.merge_commit, other.merge_commit),
            rebase_merge: prefer(self.rebase_merge, other.rebase_merge),
            auto_merge: prefer(self.auto_merge, other.auto_merge),
            update_branch: prefer(self.update_branch, other.update_branch),
            issues: prefer(self.issues, other.issues),
            projects: prefer(self.projects, other.projects),
            wiki: prefer(self.wiki, other.wiki),
            discussions: prefer(self.discussions, other.discussions),
            squash_merge_message: prefer(self.squash_merge_message, other.squash_merge_message),
            squash_merge_title: prefer(self.squash_merge_title, other.squash_merge_title),
        }
    }

    /// Whether any setting is part of the standard.
    pub open spec fn has_rules(self) -> bool {
        ||| self.delete_branch_on_merge is Some
        ||| self.squash_merge is Some
        ||| self.merge_commit is Some
        ||| self.rebase_merge is Some
        ||| self.auto_merge is Some
        ||| self.update_branch is Some
        ||| self.issues is Some
        ||| self.projects is Some
        ||| self.wiki is Some
        ||| self.discussions is Some
        ||| self.squash_merge_message is Some
        ||| self.squash_merge_title is Some
    }
}

/// The settings that apply to a repository: the base standard, then the
/// table for its visibility on top.
pub open spec fn layered_settings(config: &Config, private: bool) -> SettingsView {
    let base = match config.standard {
        Some(s) => SettingsView::empty().overlay(s@),
        None => SettingsView::empty(),
    };
    let layer = if private {
        config.private
    } else {
        config.public
    };
    match layer {
        Some(s) => base.overlay(s@),
        None => base,
    }
}

/// A copy of an optional string.
fn clone_opt_string(o: &Option<String>) -> (res: Option<String>)
    ensures
        opt_str(res) == opt_str(*o),
{
    match o {
        Some(s) => Some(s.clone()),
        None => None,
    }
}

impl Default for Settings {
    fn default() -> (res: Settings)
        ensures
            res@ == SettingsView::empty(),
    {
        Settings {
            delete_branch_on_merge: None,
            squash_merge: None,
            merge_commit: None,
            rebase_merge: None,
            auto_merge: None,
            update_branch: None,
            issues: None,
            projects: None,
            wiki: None,
            discussions: None,
            squash_merge_message: None,
            squash_merge_title: None,
        }
    }
}

impl Default for Config {
    fn default() -> (res: Config)
        ensures
            res.standard is None,
            res.public is None,
            res.private is None,
    {
        Config { standard: None, public: None, private: None }
    }
}

impl Settings {
    /// Overrides every setting that `other` sets with its value; the others
    /// keep theirs.
    pub fn merge(&mut self, other: &Settings)
        ensures
            final(self)@ == old(self)@.overlay(other@),
    {
        if other.delete_branch_on_merge.is_some() {
            self.delete_branch_on_merge = other.delete_branch_on_merge;
        }
        if other.squash_merge.is_some() {
            self.squash_merge = other.squash_merge;
        }
        if other.merge_commit.is_some() {
            self.merge_commit = other.merge_commit;
        }
        if other.rebase_merge.is_some() {
            self.rebase_merge = other.rebase_merge;
        }
        if other.auto_merge.is_some() {
            self.auto_merge = other.auto_merge;
        }
        if other.update_branch.is_some() {
            self.update_branch = other.update_branch;
        }
        if other.issues.is_some() {
            self.issues = other.issues;
        }
        if other.projects.is_some() {
            self.projects = other.projects;
        }
        if other.wiki.is_some() {
            self.wiki = other.wiki;
        }
        if other.discussions.is_some() {
            self.discussions = other.discussions;
        }
        if other.squash_merge_message.is_some() {
            self.squash_merge_message = clone_opt_string(&other.squash_merge_message);
        }
        if other.squash_merge_title.is_some() {
            self.squash_merge_title = clone_opt_string(&other.squash_merge_title);
        }
    }

    /// Whether any setting is part of the standard.
    pub fn has_rules(&self) -> (res: bool)
        ensures
            res == self@.has_rules(),
    {
        self.delete_branch_on_merge.is_some() || self.squash_merge.is_some()
            || self.merge_commit.is_some() || self.rebase_merge.is_some()
            || self.auto_merge.is_some() || self.update_branch.is_some()
            || self.issues.is_some() || self.projects.is_some() || self.wiki.is_some()
            || self.discussions.is_some() || self.squash_merge_message.is_some()
            || self.squash_merge_title.is_some()
    }
}

/// Merging leaves settings unchanged where the other side sets nothing.
pub proof fn lemma_overlay_empty(s: SettingsView)
    ensures
        s.overlay(SettingsView::empty()) == s,
        SettingsView::empty().overlay(s) == s,
{
}

/// Merging is associative: layering `b` then `c` on `a` is layering on `a`
/// the layering of `c` on `b`.
pub proof fn lemma_overlay_associative(a: SettingsView, b: SettingsView, c: SettingsView)
    ensures
        a.overlay(b).overlay(c) == a.overlay(b.overlay(c)),
{
}

/// Merging the same settings twice has the effect of merging them once.
pub proof fn lemma_overlay_idempotent(a: SettingsView, b: SettingsView)
    ensures
        a.overlay(b).overlay(b) == a.overlay(b),
{
}

/// A merge sets some setting exactly when one of its two sides does.
pub proof fn lemma_overlay_has_rules(a: SettingsView, b: SettingsView)
    ensures
        a.overlay(b).has_rules() == (a.has_rules() || b.has_rules()),
{
}

/// Merging takes, for every setting, the value of the settings merged in
/// when they set it, and keeps the value it had otherwise.
pub proof fn lemma_overlay_fields(a: SettingsView, b: SettingsView)
    ensures
        b.delete_branch_on_merge is Some ==> a.overlay(b).delete_branch_on_merge == b.delete_branch_on_merge,
        b.delete_branch_on_merge is None ==> a.overlay(b).delete_branch_on_merge == a.delete_branch_on_merge,
        b.squash_merge is Some ==> a.overlay(b).squash_merge == b.squash_merge,
        b.squash_merge is None ==> a.overlay(b).squash_merge == a.squash_merge,
        b.merge_commit is Some ==> a.overlay(b).merge_commit == b.merge_commit,
        b.merge_commit is None ==> a.overlay(b).merge_commit == a.merge_commit,
        b.rebase_merge is Some ==> a.overlay(b).rebase_merge == b.rebase_merge,
        b.rebase_merge is None ==> a.overlay(b).rebase_merge == a.rebase_merge,
        b.auto_merge is Some ==> a.overlay(b).auto_merge == b.auto_merge,
        b.auto_merge is None ==> a.overlay(b).auto_merge == a.auto_merge,
        b.update_branch is Some ==> a.overlay(b).update_branch == b.update_branch,
        b.update_branch is None ==> a.overlay(b).update_branch == a.update_branch,
        b.issues is Some ==> a.overlay(b).issues == b.issues,
        b.issues is None ==> a.overlay(b).issues == a.issues,
        b.projects is Some ==> a.overlay(b).projects == b.projects,
        b.projects is None ==> a.overlay(b).projects == a.projects,
        b.wiki is Some ==> a.overlay(b).wiki == b.wiki,
        b.wiki is None ==> a.overlay(b).wiki == a.wiki,
        b.discussions is Some ==> a.overlay(b).discussions == b.discussions,
        b.discussions is None ==> a.overlay(b).discussions == a.discussions,
        b.squash_merge_message is Some ==> a.overlay(b).squash_merge_message == b.squash_merge_message,
        b.squash_merge_message is None ==> a.overlay(b).squash_merge_message == a.squash_merge_message,
        b.squash_merge_title is Some ==> a.overlay(b).squash_merge_title == b.squash_merge_title,
        b.squash_merge_title is None ==> a.overlay(b).squash_merge_title == a.squash_merge_title,
{
}

/// The settings of a repository take, for every setting, the value of the
/// table for its visibility when that table sets it, and otherwise the
/// value of the base standard (nothing when neither sets it).
pub proof fn lemma_layered_settings_fields(config: &Config, private: bool)
    ensures
        ({
            let table = if private {
                config.private
            } else {
                config.public
            };
            let layered = layered_settings(config, private);
            let table_0 = match table {
                Some(t) => t@.delete_branch_on_merge,
                None => None,
            };
            let base_0 = match config.standard {
                Some(b) => b@.delete_branch_on_merge,
                None => None,
            };
            let table_1 = match table {
                Some(t) => t@.squash_merge,
                None => None,
            };
            let base_1 = match config.standard {
                Some(b) => b@.squash_merge,
                None => None,
            };
            let table_2 = match table {
                Some(t) => t@.merge_commit,
                None => None,
            };
            let base_2 = match config.standard {
                Some(b) => b@.merge_commit,
                None => None,
            };
            let table_3 = match table {
                Some(t) => t@.rebase_merge,
                None => None,
            };
            let base_3 = match config.standard {
                Some(b) => b@.rebase_merge,
                None => None,
            };
            let table_4 = match table {
                Some(t) => t@.auto_merge,
                None => None,
            };
            let base_4 = match config.standard {
                Some(b) => b@.auto_merge,
                None => None,
            };
            let table_5 = match table {
                Some(t) => t@.update_branch,
                None => None,
            };
            let base_5 = match config.standard {
                Some(b) => b@.update_branch,
                None => None,
            };
            let table_6 = match table {
                Some(t) => t@.issues,
                None => None,
            };
            let base_6 = match config.standard {
                Some(b) => b@.issues,
                None => None,
            };
            let table_7 = match table {
                Some(t) => t@.projects,
                None => None,
            };
            let base_7 = match config.standard {
                Some(b) => b@.projects,
                None => None,
            };
            let table_8 = match table {
                Some(t) => t@.wiki,
                None => None,
            };
            let base_8 = match config.standard {
                Some(b) => b@.wiki,
                None => None,
            };
            let table_9 = match table {
                Some(t) => t@.discussions,
                None => None,
            };
            let base_9 = match config.standard {
                Some(b) => b@.discussions,
                None => None,
            };
            let table_10 = match table {
                Some(t) => t@.squash_merge_message,
                None => None,
            };
            let base_10 = match config.standard {
                Some(b) => b@.squash_merge_message,
                None => None,
            };
            let table_11 = match table {
                Some(t) => t@.squash_merge_title,
                None => None,
            };
            let base_11 = match config.standard {
                Some(b) => b@.squash_merge_title,
                None => None,
            };
            &&& table_0 is Some ==> layered.delete_branch_on_merge == table_0
            &&& table_0 is None ==> layered.delete_branch_on_merge == base_0
            &&& table_1 is Some ==> layered.squash_merge == table_1
            &&& table_1 is None ==> layered.squash_merge == base_1
            &&& table_2 is Some ==> layered.merge_commit == table_2
            &&& table_2 is None ==> layered.merge_commit == base_2
            &&& table_3 is Some ==> layered.rebase_merge == table_3
            &&& table_3 is None ==> layered.rebase_merge == base_3
            &&& table_4 is Some ==> layered.auto_merge == table_4
            &&& table_4 is None ==> layered.auto_merge == base_4
            &&& table_5 is Some ==> layered.update_branch == table_5
            &&& table_5 is None ==> layered.update_branch == base_5
            &&& table_6 is Some ==> layered.issues == table_6
            &&& table_6 is None ==> layered.issues == base_6
            &&& table_7 is Some ==> layered.projects == table_7
            &&& table_7 is None ==> layered.projects == base_7
            &&& table_8 is Some ==> layered.wiki == table_8
            &&& table_8 is None ==> layered.wiki == base_8
            &&& table_9 is Some ==> layered.discussions == table_9
            &&& table_9 is None ==> layered.discussions == base_9
            &&& table_10 is Some ==> layered.squash_merge_message == table_10
            &&& table_10 is None ==> layered.squash_merge_message == base_10
            &&& table_11 is Some ==> layered.squash_merge_title == table_11
            &&& table_11 is None ==> layered.squash_merge_title == base_11
        }),
{
}

} // verus!
