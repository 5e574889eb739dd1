//! User configuration: the settings read from `config.toml`, their defaults,
//! `{name}` placeholder substitution in the user's templates, and the filling of
//! keys that a user's file lacks from the default file.
use crate::text::{chars_of, replace_all, replace_chars, string_from_chars};
use vstd::prelude::*;

verus! {

/// All settings of the application.
#[derive(Debug)]
pub struct Config {
    pub general: GeneralConfig,
    pub presence: PresenceConfig,
    pub images: ImagesConfig,
}

/// Start-up, exit and polling behaviour.
#[derive(Debug)]
pub struct GeneralConfig {
    /// Launch Deadlock on startup.
    pub auto_launch: bool,
    /// Exit when the game closes.
    pub auto_exit: bool,
    /// Seconds to wait for the game to appear after launch.
    pub launch_timeout_s: u64,
    /// How often (ms) to check the game log.
    pub log_poll_interval_ms: u64,
    /// How often (seconds) to refresh the Discord presence card.
    pub presence_update_interval_s: u64,
}

/// What the presence card shows.
#[derive(Debug)]
pub struct PresenceConfig {
    pub show_elapsed_timer: bool,
    pub show_hero: bool,
    pub show_statlocker_button: bool,
    /// Top line when a hero is known (`{hero}` is the hero's name).
    pub details_with_hero: String,
    /// Top line when no hero is known (`{phase}` is the phase label).
    pub details_no_hero: String,
    pub status: StatusStrings,
}

/// Per-phase status line templates.
#[derive(Debug)]
pub struct StatusStrings {
    pub not_running: String,
    pub main_menu: String,
    pub in_hideout: String,
    pub in_queue: String,
    pub match_intro: String,
    pub in_match: String,
    pub in_match_location: String,
    pub post_match: String,
    pub spectating: String,
}

/// Image assets and their tooltips.
#[derive(Debug)]
pub struct ImagesConfig {
    pub default_large_image: String,
    pub default_large_text: String,
    pub small_image: String,
    pub small_text: String,
}

impl Default for GeneralConfig {
    fn default() -> (r: Self)
        ensures
            r.auto_launch,
            r.auto_exit,
            r.launch_timeout_s == 120,
            r.log_poll_interval_ms == 500,
            r.presence_update_interval_s == 5,
    {
        GeneralConfig {
            auto_launch: true,
            auto_exit: true,
            launch_timeout_s: 120,
            log_poll_interval_ms: 500,
            presence_update_interval_s: 5,
        }
    }
}

impl Default for StatusStrings {
    fn default() -> (r: Self)
        ensures
            r.not_running@ == "Not Running"@,
            r.main_menu@ == "Browsing the Main Menu"@,
            r.in_hideout@ == "In the Hideout"@,
            r.in_queue@ == "Searching for a Match..."@,
            r.match_intro@ == "{mode} \u{2022} Loading into Match"@,
            r.in_match@ == "{mode} \u{2022} Battling in {location}"@,
            r.in_match_location@ == "the Cursed Apple"@,
            r.post_match@ == "Reviewing Match Results"@,
            r.spectating@ == "Watching a Match"@,
    {
        StatusStrings {
            not_running: String::from_str("Not Running"),
            main_menu: String::from_str("Browsing the Main Menu"),
            in_hideout: String::from_str("In the Hideout"),
            in_queue: String::from_str("Searching for a Match..."),
            match_intro: String::from_str("{mode} \u{2022} Loading into Match"),
            in_match: String::from_str("{mode} \u{2022} Battling in {location}"),
            in_match_location: String::from_str("the Cursed Apple"),
            post_match: String::from_str("Reviewing Match Results"),
            spectating: String::from_str("Watching a Match"),
        }
    }
}

impl Default for PresenceConfig {
    fn default() -> (r: Self)
        ensures
            r.show_elapsed_timer,
            r.show_hero,
            !r.show_statlocker_button,
            r.details_with_hero@ == "Playing as {hero}"@,
            r.details_no_hero@ == "{phase}"@,
            r.status.not_running@ == "Not Running"@,
            r.status.main_menu@ == "Browsing the Main Menu"@,
            r.status.in_hideout@ == "In the Hideout"@,
            r.status.in_queue@ == "Searching for a Match..."@,
            r.status.match_intro@ == "{mode} \u{2022} Loading into Match"@,
            r.status.in_match@ == "{mode} \u{2022} Battling in {location}"@,
            r.status.in_match_location@ == "the Cursed Apple"@,
            r.status.post_match@ == "Reviewing Match Results"@,
            r.status.spectating@ == "Watching a Match"@,
    {
        PresenceConfig {
            show_elapsed_timer: true,
            show_hero: true,
            show_statlocker_button: false,
            details_with_hero: String::from_str("Playing as {hero}"),
            details_no_hero: String::from_str("{phase}"),
            status: StatusStrings::default(),
        }
    }
}

impl Default for ImagesConfig {
    fn default() -> (r: Self)
        ensures
            r.default_large_image@ == "deadlock_logo"@,
            r.default_large_text@ == "Deadlock"@,
            r.small_image@ == "deadlock_logo"@,
            r.small_text@ == "Deadlock"@,
    {
        ImagesConfig {
            default_large_image: String::from_str("deadlock_logo"),
            default_large_text: String::from_str("Deadlock"),
            small_image: String::from_str("deadlock_logo"),
            small_text: String::from_str("Deadlock"),
        }
    }
}

impl Default for Config {
    fn default() -> (r: Self)
        ensures
            r.general.auto_launch,
            r.general.auto_exit,
            r.general.launch_timeout_s == 120,
            r.general.log_poll_interval_ms == 500,
            r.general.presence_update_interval_s == 5,
            r.presence.show_elapsed_timer,
            r.presence.show_hero,
            !r.presence.show_statlocker_button,
            r.presence.details_with_hero@ == "Playing as {hero}"@,
            r.presence.details_no_hero@ == "{phase}"@,
            r.presence.status.not_running@ == "Not Running"@,
            r.presence.status.main_menu@ == "Browsing the Main Menu"@,
            r.presence.status.in_hideout@ == "In the Hideout"@,
            r.presence.status.in_queue@ == "Searching for a Match..."@,
            r.presence.status.match_intro@ == "{mode} \u{2022} Loading into Match"@,
            r.presence.status.in_match@ == "{mode} \u{2022} Battling in {location}"@,
            r.presence.status.in_match_location@ == "the Cursed Apple"@,
            r.presence.status.post_match@ == "Reviewing Match Results"@,
            r.presence.status.spectating@ == "Watching a Match"@,
            r.images.default_large_image@ == "deadlock_logo"@,
            r.images.default_large_text@ == "Deadlock"@,
            r.images.small_image@ == "deadlock_logo"@,
            r.images.small_text@ == "Deadlock"@,
    {
        Config {
            general: GeneralConfig::default(),
            presence: PresenceConfig::default(),
            images: ImagesConfig::default(),
        }
    }
}

/// The placeholder `{key}` that stands for the variable `key` in a template.
pub open spec fn placeholder(key: Seq<char>) -> Seq<char> {
    seq!['{'] + key + seq!['}']
}

/// `template` after replacing, for each `(key, value)` in order, every
/// placeholder `{key}` by `value`.
pub open spec fn substitute(template: Seq<char>, vars: Seq<(Seq<char>, Seq<char>)>) -> Seq<char>
    decreases vars.len(),
{
    if vars.len() == 0 {
        template
    } else {
        replace_all(substitute(template, vars.drop_last()), placeholder(vars.last().0), vars.last().1)
    }
}

/// The variables as character sequences.
pub open spec fn vars_view(vars: Seq<(&str, &str)>) -> Seq<(Seq<char>, Seq<char>)> {
    vars.map_values(|p: (&str, &str)| (p.0@, p.1@))
}

/// Substituting a single variable replaces its placeholder once over the template.
pub proof fn lemma_substitute_one(t: Seq<char>, vars: Seq<(&str, &str)>)
    requires
        vars.len() == 1,
    ensures
        substitute(t, vars_view(vars)) == replace_all(t, placeholder(vars[0].0@), vars[0].1@),
{
    let vv = vars_view(vars);
    assert(vv.drop_last() =~= Seq::<(Seq<char>, Seq<char>)>::empty());
    assert(substitute(t, vv.drop_last()) == t);
    assert(vv.last() == (vars[0].0@, vars[0].1@));
}

/// Substituting two variables replaces the first placeholder, then the second.
pub proof fn lemma_substitute_two(t: Seq<char>, vars: Seq<(&str, &str)>)
    requires
        vars.len() == 2,
    ensures
        substitute(t, vars_view(vars)) == replace_all(
            replace_all(t, placeholder(vars[0].0@), vars[0].1@),
            placeholder(vars[1].0@),
            vars[1].1@,
        ),
{
    let vv = vars_view(vars);
    assert(vv.drop_last().drop_last() =~= Seq::<(Seq<char>, Seq<char>)>::empty());
    assert(substitute(t, vv.drop_last().drop_last()) == t);
    assert(vv.drop_last().last() == (vars[0].0@, vars[0].1@));
    assert(vv.last() == (vars[1].0@, vars[1].1@));
    assert(substitute(t, vv.drop_last()) == replace_all(t, placeholder(vars[0].0@), vars[0].1@));
}

proof fn lemma_replace_without_brace(s: Seq<char>, from: Seq<char>, to: Seq<char>)
    requires
        from.len() > 0,
        from[0] == '{',
        forall|i: int| 0 <= i < s.len() ==> s[i] != '{',
    ensures
        replace_all(s, from, to) == s,
    decreases s.len(),
{
    if s.len() > 0 {
        if from.len() <= s.len() {
            assert(s.take(from.len() as int)[0] == s[0]);
        }
        assert forall|i: int| 0 <= i < s.drop_first().len() implies s.drop_first()[i] != '{' by {
            assert(s.drop_first()[i] == s[i + 1]);
        }
        lemma_replace_without_brace(s.drop_first(), from, to);
        assert(seq![s[0]] + s.drop_first() =~= s);
    }
}

/// A template without any `{` is shown exactly as written, whatever the
/// variables.
pub proof fn law_plain_template_unchanged(template: Seq<char>, vars: Seq<(Seq<char>, Seq<char>)>)
    requires
        forall|i: int| 0 <= i < template.len() ==> template[i] != '{',
    ensures
        substitute(template, vars) == template,
    decreases vars.len(),
{
    if vars.len() > 0 {
        law_plain_template_unchanged(template, vars.drop_last());
        lemma_replace_without_brace(template, placeholder(vars.last().0), vars.last().1);
    }
}

/// Replaces each `{key}` placeholder in `template` by its value, one variable
/// after the other.
pub fn apply_vars(template: &str, vars: &[(&str, &str)]) -> (r: String)
    ensures
        r@ == substitute(template@, vars_view(vars@)),
{
    let mut result = chars_of(template);
    let n = vars.len();
    assert(vars_view(vars@).take(0) =~= Seq::<(Seq<char>, Seq<char>)>::empty());
    for i in 0..n
        invariant
            n == vars@.len(),
            result@ == substitute(template@, vars_view(vars@).take(i as int)),
    {
        let (key, value) = vars[i];
        let mut pattern: Vec<char> = Vec::new();
        pattern.push('{');
        let mut key_chars = chars_of(key);
        pattern.append(&mut key_chars);
        pattern.push('}');
        assert(pattern@ =~= placeholder(key@));
        let value_chars = chars_of(value);
        result = replace_chars(result.as_slice(), pattern.as_slice(), value_chars.as_slice());
        proof {
            let vv = vars_view(vars@);
            assert(vv.take(i + 1).drop_last() =~= vv.take(i as int));
            assert(vv.take(i + 1).last() == (key@, value@));
        }
    }
    assert(vars_view(vars@).take(n as int) =~= vars_view(vars@));
    string_from_chars(result.as_slice())
}

} // verus!

verus! {

/// A configuration document: tables of named entries, or values (of the
/// document format's own kind `L`). A valid document, as a TOML document is,
/// has each key at most once in each of its tables (`ConfigTree::wf`).
#[derive(Debug)]
pub enum ConfigTree<L> {
    Table(Vec<(String, ConfigTree<L>)>),
    Value(L),
}

impl<L> ConfigTree<L> {
    /// The document is valid: each of its tables has each key at most once.
    pub open spec fn wf(&self) -> bool {
        crate::merge_laws::keys_unique(tree_view(*self))
    }
}

/// A configuration document with its keys as character sequences.
pub enum TreeView<L> {
    Table(Seq<(Seq<char>, TreeView<L>)>),
    Value(L),
}

/// The view of a document.
pub open spec fn tree_view<L>(t: ConfigTree<L>) -> TreeView<L>
    decreases t, 1int,
{
    match t {
        ConfigTree::Table(v) => TreeView::Table(entries_view(v@)),
        ConfigTree::Value(x) => TreeView::Value(x),
    }
}

/// The view of a table's entries.
pub open spec fn entries_view<L>(s: Seq<(String, ConfigTree<L>)>) -> Seq<(Seq<char>, TreeView<L>)>
    decreases s, 0int,
{
    if s.len() == 0 {
        Seq::empty()
    } else {
        entries_view(s.drop_last()).push((s.last().0@, tree_view(s.last().1)))
    }
}

/// The position of `key` among `entries`.
pub open spec fn key_index<L>(entries: Seq<(Seq<char>, TreeView<L>)>, key: Seq<char>) -> Option<int>
    decreases entries.len(),
{
    if entries.len() == 0 {
        None
    } else {
        match key_index(entries.drop_last(), key) {
            Some(i) => Some(i),
            None => if entries.last().0 == key {
                Some(entries.len() - 1)
            } else {
                None
            },
        }
    }
}

/// `user` with every key that `defaults` has and `user` lacks filled in from
/// `defaults`, recursively through tables present in both; and whether any key
/// was added. A document that is not a table on both sides is left as it is.
pub open spec fn merge_tree<L>(user: TreeView<L>, defaults: TreeView<L>) -> (TreeView<L>, bool)
    decreases defaults, 1int,
{
    match (user, defaults) {
        (TreeView::Table(ue), TreeView::Table(de)) => {
            let (m, c) = merge_entries(ue, de);
            (TreeView::Table(m), c)
        },
        _ => (user, false),
    }
}

/// `user`'s entries with each of `defaults`' entries, in order, merged into
/// the entry of the same key or appended when there is none.
pub open spec fn merge_entries<L>(
    user: Seq<(Seq<char>, TreeView<L>)>,
    defaults: Seq<(Seq<char>, TreeView<L>)>,
) -> (Seq<(Seq<char>, TreeView<L>)>, bool)
    decreases defaults, 0int,
{
    if defaults.len() == 0 {
        (user, false)
    } else {
        let (u1, c1) = merge_entries(user, defaults.drop_last());
        let (k, dv) = defaults.last();
        match key_index(u1, k) {
            Some(i) => {
                let (nv, c) = merge_tree(u1[i].1, dv);
                (u1.update(i, (k, nv)), c1 || c)
            },
            None => (u1.push((k, dv)), true),
        }
    }
}

} // verus!

verus! {

proof fn lemma_entries_view<L>(s: Seq<(String, ConfigTree<L>)>)
    ensures
        entries_view(s).len() == s.len(),
        forall|i: int|
            0 <= i < s.len() ==> #[trigger] entries_view(s)[i] == (s[i].0@, tree_view(s[i].1)),
    decreases s.len(),
{
    if s.len() > 0 {
        lemma_entries_view(s.drop_last());
    }
}

proof fn lemma_entries_view_ext<L>(a: Seq<(String, ConfigTree<L>)>, b: Seq<(Seq<char>, TreeView<L>)>)
    requires
        a.len() == b.len(),
        forall|i: int| 0 <= i < a.len() ==> b[i] == (a[i].0@, tree_view(a[i].1)),
    ensures
        entries_view(a) == b,
{
    lemma_entries_view(a);
    assert(entries_view(a) =~= b);
}

pub(crate) proof fn lemma_key_index<L>(e: Seq<(Seq<char>, TreeView<L>)>, k: Seq<char>, i: int)
    requires
        0 <= i <= e.len(),
        forall|j: int| 0 <= j < i ==> e[j].0 != k,
        i < e.len() ==> e[i].0 == k,
    ensures
        key_index(e, k) == (if i < e.len() {
            Some(i)
        } else {
            None::<int>
        }),
    decreases e.len(),
{
    if e.len() > 0 {
        if i < e.len() {
            if i < e.len() - 1 {
                lemma_key_index(e.drop_last(), k, i);
            } else {
                lemma_key_index(e.drop_last(), k, e.len() - 1);
            }
        } else {
            lemma_key_index(e.drop_last(), k, e.len() - 1);
        }
    }
}

pub(crate) proof fn lemma_key_index_found<L>(e: Seq<(Seq<char>, TreeView<L>)>, k: Seq<char>, i: int)
    requires
        key_index(e, k) == Some(i),
    ensures
        0 <= i < e.len(),
        e[i].0 == k,
    decreases e.len(),
{
    if e.len() > 0 {
        match key_index(e.drop_last(), k) {
            Some(j) => {
                lemma_key_index_found(e.drop_last(), k, j);
            },
            None => {},
        }
    }
}

fn find_key<L>(entries: &Vec<(String, ConfigTree<L>)>, key: &String) -> (r: Option<usize>)
    ensures
        match r {
            Some(i) => i < entries@.len() && key_index(entries_view(entries@), key@) == Some(i as int),
            None => key_index(entries_view(entries@), key@) is None,
        },
{
    proof {
        lemma_entries_view(entries@);
    }
    let mut i: usize = 0;
    while i < entries.len()
        invariant
            i <= entries@.len(),
            entries_view(entries@).len() == entries@.len(),
            forall|j: int|
                0 <= j < entries@.len() ==> #[trigger] entries_view(entries@)[j] == (
                    entries@[j].0@,
                    tree_view(entries@[j].1),
                ),
            forall|j: int| 0 <= j < i ==> entries_view(entries@)[j].0 != key@,
        decreases entries@.len() - i,
    {
        if crate::text::str_eq(entries[i].0.as_str(), key.as_str()) {
            proof {
                lemma_key_index(entries_view(entries@), key@, i as int);
            }
            return Some(i);
        }
        i = i + 1;
    }
    proof {
        lemma_key_index(entries_view(entries@), key@, i as int);
    }
    None
}

/// Fills missing keys of `user` from `defaults`, recursively through tables
/// present in both. Returns true if any key was added.
pub fn merge_defaults<L>(user: &mut ConfigTree<L>, defaults: ConfigTree<L>) -> (changed: bool)
    ensures
        (tree_view(*final(user)), changed) == merge_tree(tree_view(*old(user)), tree_view(defaults)),
        old(user).wf() && defaults.wf() ==> final(user).wf(),
    decreases defaults, 1int,
{
    let ghost u0 = tree_view(*user);
    let ghost d0 = tree_view(defaults);
    proof {
        if crate::merge_laws::keys_unique(u0) && crate::merge_laws::keys_unique(d0) {
            crate::merge_laws::law_merge_keeps_keys_unique(u0, d0);
        }
    }
    match defaults {
        ConfigTree::Table(de) => {
            match user {
                ConfigTree::Table(ue) => merge_into(ue, de),
                ConfigTree::Value(_) => false,
            }
        },
        ConfigTree::Value(_) => false,
    }
}

fn merge_into<L>(ue: &mut Vec<(String, ConfigTree<L>)>, de: Vec<(String, ConfigTree<L>)>) -> (changed: bool)
    ensures
        (entries_view(final(ue)@), changed) == merge_entries(entries_view(old(ue)@), entries_view(de@)),
    decreases de, 0int,
{
    let ghost d0 = de@;
    let ghost de_g = de;
    let ghost u0 = entries_view(ue@);
    let n = de.len();
    let mut pending = de;
    let mut rev: Vec<(String, ConfigTree<L>)> = Vec::new();
    while pending.len() > 0
        invariant
            n == d0.len(),
            pending@ == d0.take(n - rev@.len()),
            rev@.len() <= n,
            forall|i: int| 0 <= i < rev@.len() ==> rev@[i] == d0[n - 1 - i],
        decreases pending@.len(),
    {
        let e = pending.pop().unwrap();
        rev.push(e);
        assert(d0.take(n - rev@.len()) =~= d0.take(n - rev@.len() + 1).drop_last());
    }
    let mut changed = false;
    assert(d0.take(0) =~= Seq::<(String, ConfigTree<L>)>::empty());
    while rev.len() > 0
        invariant
            n == d0.len(),
            rev@.len() <= n,
            forall|i: int| 0 <= i < rev@.len() ==> rev@[i] == d0[n - 1 - i],
            (entries_view(ue@), changed) == merge_entries(u0, entries_view(d0.take(n - rev@.len()))),
            de_g@ == d0,
            de_g == de,
        decreases rev@.len(),
    {
        let j: usize = n - rev.len();
        let (k, dv) = rev.pop().unwrap();
        assert(d0[j as int] == (k, dv));
        proof {
            lemma_entries_view(d0.take(j + 1));
            lemma_entries_view(d0.take(j as int));
            lemma_entries_view_ext(
                d0.take(j as int),
                entries_view(d0.take(j + 1)).drop_last(),
            );
            assert(entries_view(d0.take(j + 1)).last() == (k@, tree_view(dv)));
        }
        match find_key(ue, &k) {
            Some(i) => {
                let ghost before = ue@;
                let (uk, mut uv) = ue.remove(i);
                proof {
                    lemma_entries_view(before);
                    lemma_key_index_found(entries_view(before), k@, i as int);
                    assert(decreases_to!(de_g => de_g@));
                    assert(decreases_to!(de_g@ => de_g@[j as int]));
                    assert(decreases_to!(de_g@[j as int] => de_g@[j as int].1));
                    assert(dv == de_g@[j as int].1);
                    assert(decreases_to!(de_g => dv));
                    assert(decreases_to!(de_g, 0int => dv, 1int));
                }
                let c = merge_defaults(&mut uv, dv);
                ue.insert(i, (uk, uv));
                proof {
                    assert(ue@ =~= before.update(i as int, (uk, uv)));
                    lemma_entries_view(ue@);
                    lemma_entries_view_ext(ue@, entries_view(before).update(i as int, (k@, tree_view(uv))));
                }
                changed = changed || c;
            },
            None => {
                let ghost before = ue@;
                ue.push((k, dv));
                proof {
                    lemma_entries_view(before);
                    lemma_entries_view(ue@);
                    lemma_entries_view_ext(ue@, entries_view(before).push((k@, tree_view(dv))));
                }
                changed = true;
            },
        }
    }
    assert(d0.take(n as int) =~= d0);
    changed
}

} // verus!

verus! {

#[verifier::external_type_specification]
#[verifier::external_body]
pub struct ExTomlValue(toml::Value);

/// A value of a TOML document that is not a table, with a text that names it
/// (its `Debug` form).
#[derive(Debug)]
pub struct TomlLeaf {
    pub value: toml::Value,
    pub text: String,
}

/// A document with each value replaced by its text.
pub open spec fn text_tree(t: TreeView<TomlLeaf>) -> TreeView<Seq<char>>
    decreases t, 1int,
{
    match t {
        TreeView::Table(e) => TreeView::Table(text_entries(e)),
        TreeView::Value(l) => TreeView::Value(l.text@),
    }
}

/// Entries with each value replaced by its text.
pub open spec fn text_entries(e: Seq<(Seq<char>, TreeView<TomlLeaf>)>) -> Seq<(Seq<char>, TreeView<Seq<char>>)>
    decreases e, 0int,
{
    if e.len() == 0 {
        Seq::empty()
    } else {
        text_entries(e.drop_last()).push((e.last().0, text_tree(e.last().1)))
    }
}

pub uninterp spec fn toml_doc(text: Seq<char>) -> Option<TreeView<Seq<char>>>;

/// Parses `text` with `toml::from_str::<toml::Value>` and turns the value into
/// a document (`toml_tree`). Trusted: the document, with each value replaced
/// by its text, is named `toml_doc(text@)`, a function of the text alone, and
/// is `None` when the text is not TOML; each table holds each key once, since
/// a TOML table is a map (`toml::map::Map`, a `BTreeMap` or an `IndexMap`).
#[verifier::external_body]
fn parse_toml(text: &str) -> (r: Option<ConfigTree<TomlLeaf>>)
    ensures
        match r {
            Some(t) => toml_doc(text@) == Some(text_tree(tree_view(t))) && t.wf(),
            None => toml_doc(text@) is None,
        },
{
    toml::from_str::<toml::Value>(text).ok().map(toml_tree)
}

/// The conversion of `parse_toml`: a table becomes a `ConfigTree::Table` of
/// its entries (converted the same way), any other value a leaf with its
/// `Debug` text.
#[verifier::external_body]
fn toml_tree(v: toml::Value) -> ConfigTree<TomlLeaf> {
    match v {
        toml::Value::Table(map) => ConfigTree::Table(map.into_iter().map(|(k, v)| (k, toml_tree(v))).collect()),
        other => {
            let text = format!("{:?}", other);
            ConfigTree::Value(TomlLeaf { value: other, text })
        },
    }
}

/// Writes a document as TOML text with `toml::to_string_pretty`, after turning
/// it back into a `toml::Value` (`toml_value`); `None` when it cannot be
/// written. Nothing is promised of the text.
#[verifier::external_body]
fn render_toml(doc: ConfigTree<TomlLeaf>) -> (r: Option<String>) {
    toml::to_string_pretty(&toml_value(doc)).ok()
}

/// The conversion of `render_toml`: each table into a `toml::map::Map` of its
/// entries (collected with `FromIterator`), each leaf into its value.
#[verifier::external_body]
fn toml_value(t: ConfigTree<TomlLeaf>) -> toml::Value {
    match t {
        ConfigTree::Table(entries) => toml::Value::Table(entries.into_iter().map(|(k, v)| (k, toml_value(v))).collect()),
        ConfigTree::Value(leaf) => leaf.value,
    }
}

proof fn lemma_text_entries(e: Seq<(Seq<char>, TreeView<TomlLeaf>)>)
    ensures
        text_entries(e).len() == e.len(),
        forall|i: int| 0 <= i < e.len() ==> #[trigger] text_entries(e)[i] == (e[i].0, text_tree(e[i].1)),
    decreases e.len(),
{
    if e.len() > 0 {
        lemma_text_entries(e.drop_last());
    }
}

proof fn lemma_text_key_index(e: Seq<(Seq<char>, TreeView<TomlLeaf>)>, k: Seq<char>)
    ensures
        key_index(text_entries(e), k) == key_index(e, k),
    decreases e.len(),
{
    if e.len() > 0 {
        lemma_text_key_index(e.drop_last(), k);
        lemma_text_entries(e);
        let t = text_entries(e);
        assert(t.drop_last() =~= text_entries(e.drop_last()));
        assert(t.last() == (e.last().0, text_tree(e.last().1)));
    }
}

proof fn lemma_text_merge_tree(u: TreeView<TomlLeaf>, d: TreeView<TomlLeaf>)
    ensures
        (text_tree(merge_tree(u, d).0), merge_tree(u, d).1) == merge_tree(text_tree(u), text_tree(d)),
    decreases d, 1int,
{
    if let TreeView::Table(ue) = u {
        if let TreeView::Table(de) = d {
            lemma_text_merge_entries(ue, de);
        }
    }
}

proof fn lemma_text_merge_entries(
    ue: Seq<(Seq<char>, TreeView<TomlLeaf>)>,
    de: Seq<(Seq<char>, TreeView<TomlLeaf>)>,
)
    ensures
        (text_entries(merge_entries(ue, de).0), merge_entries(ue, de).1) == merge_entries(
            text_entries(ue),
            text_entries(de),
        ),
    decreases de, 0int,
{
    if de.len() > 0 {
        let dp = de.drop_last();
        lemma_text_merge_entries(ue, dp);
        let u1 = merge_entries(ue, dp).0;
        let (k, dv) = de.last();
        let t1 = text_entries(u1);
        assert(text_entries(de).drop_last() == text_entries(dp));
        assert(text_entries(de).last() == (k, text_tree(dv)));
        lemma_text_key_index(u1, k);
        lemma_text_entries(u1);
        match key_index(u1, k) {
            Some(i) => {
                lemma_key_index_found(u1, k, i);
                lemma_text_merge_tree(u1[i].1, dv);
                let nv = merge_tree(u1[i].1, dv).0;
                let r = u1.update(i, (k, nv));
                lemma_text_entries(r);
                assert(text_entries(r) =~= t1.update(i, (k, text_tree(nv))));
            },
            None => {
                let r = u1.push((k, dv));
                assert(r.drop_last() =~= u1);
                assert(text_entries(r) == t1.push((k, text_tree(dv))));
            },
        }
    }
}

proof fn lemma_text_tree_unique(t: TreeView<TomlLeaf>)
    requires
        crate::merge_laws::keys_unique(t),
    ensures
        crate::merge_laws::keys_unique(text_tree(t)),
    decreases t, 1int,
{
    if let TreeView::Table(e) = t {
        lemma_text_entries_unique(e);
    }
}

proof fn lemma_text_entries_unique(e: Seq<(Seq<char>, TreeView<TomlLeaf>)>)
    requires
        crate::merge_laws::entries_unique(e),
    ensures
        crate::merge_laws::entries_unique(text_entries(e)),
    decreases e, 0int,
{
    lemma_text_entries(e);
    let te = text_entries(e);
    assert forall|i: int| 0 <= i < te.len() implies crate::merge_laws::keys_unique(#[trigger] te[i].1) by {
        assert(crate::merge_laws::keys_unique(e[i].1));
        lemma_text_tree_unique(e[i].1);
    }
    assert forall|i: int, j: int| 0 <= i < j < te.len() implies te[i].0 != te[j].0 by {
        assert(te[i].0 == e[i].0 && te[j].0 == e[j].0);
    }
}

/// The user's configuration text as a document with the keys of the default
/// text that it lacks filled in, and whether a key was added; `None` when
/// either text is not TOML. With each value replaced by its text, the result
/// is the merge of the two parsed documents, and it is valid.
pub fn patched_document(user_text: &str, default_text: &str) -> (r: Option<(ConfigTree<TomlLeaf>, bool)>)
    ensures
        match (toml_doc(user_text@), toml_doc(default_text@)) {
            (Some(u), Some(d)) => r matches Some(p) && (text_tree(tree_view(p.0)), p.1) == merge_tree(
                u,
                d,
            ) && p.0.wf(),
            _ => r is None,
        },
{
    let mut doc = parse_toml(user_text)?;
    let d = parse_toml(default_text)?;
    let ghost u0 = tree_view(doc);
    let ghost d0 = tree_view(d);
    let changed = merge_defaults(&mut doc, d);
    proof {
        lemma_text_merge_tree(u0, d0);
    }
    Some((doc, changed))
}

/// What patching a configuration text gives.
#[derive(Debug)]
pub enum ConfigPatch {
    /// The user's text or the default text is not TOML: nothing to patch.
    Unparsed,
    /// The user's text has every default key already.
    Complete,
    /// Keys were added; the new text of the file.
    Patched(String),
    /// Keys were added but the document could not be written as text.
    Unrendered,
}

/// Fills the keys that the user's configuration text lacks from the default
/// text, and gives the new text when a key was added: the file is rewritten
/// only to add keys, and every entry the user wrote stays as it was.
pub fn patch_config_text(user_text: &str, default_text: &str) -> (r: ConfigPatch)
    ensures
        match (toml_doc(user_text@), toml_doc(default_text@)) {
            (Some(u), Some(d)) => {
                &&& (r is Complete <==> !merge_tree(u, d).1)
                &&& (r is Patched || r is Unrendered) <==> merge_tree(u, d).1
            },
            _ => r is Unparsed,
        },
{
    match patched_document(user_text, default_text) {
        None => ConfigPatch::Unparsed,
        Some((doc, changed)) => {
            if !changed {
                ConfigPatch::Complete
            } else {
                match render_toml(doc) {
                    Some(text) => ConfigPatch::Patched(text),
                    None => ConfigPatch::Unrendered,
                }
            }
        },
    }
}

/// Patching a valid document keeps every entry the user wrote and adds every
/// key of the valid defaults: over the parsed documents of the two texts.
pub proof fn law_patch_keeps_and_fills(user_text: Seq<char>, default_text: Seq<char>)
    requires
        toml_doc(user_text) is Some,
        toml_doc(default_text) is Some,
        crate::merge_laws::keys_unique(toml_doc(default_text)->0),
    ensures
        crate::merge_laws::extends(
            toml_doc(user_text)->0,
            merge_tree(toml_doc(user_text)->0, toml_doc(default_text)->0).0,
        ),
        crate::merge_laws::covers(
            merge_tree(toml_doc(user_text)->0, toml_doc(default_text)->0).0,
            toml_doc(default_text)->0,
        ),
{
    crate::merge_laws::law_merge_keeps_user_entries(toml_doc(user_text)->0, toml_doc(default_text)->0);
    crate::merge_laws::law_merge_fills_missing_keys(toml_doc(user_text)->0, toml_doc(default_text)->0);
}

} // verus!
