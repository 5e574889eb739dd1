//! What filling a user's configuration from the defaults guarantees: no key of
//! the defaults is left missing, nothing the user wrote is removed, moved or
//! overwritten, a change is reported exactly when a key was missing, and a
//! second fill does nothing.
use crate::config::{key_index, lemma_key_index, lemma_key_index_found, merge_entries, merge_tree, TreeView};
use vstd::prelude::*;

verus! {

/// Every table of `t` has each key at most once, as in a TOML document.
pub open spec fn keys_unique<L>(t: TreeView<L>) -> bool
    decreases t, 1int,
{
    match t {
        TreeView::Table(te) => entries_unique(te),
        TreeView::Value(_) => true,
    }
}

/// No key occurs twice among `te`, nor in any table below them.
pub open spec fn entries_unique<L>(te: Seq<(Seq<char>, TreeView<L>)>) -> bool
    decreases te, 0int,
{
    &&& forall|i: int, j: int| 0 <= i < j < te.len() ==> te[i].0 != te[j].0
    &&& forall|i: int| #![trigger te[i]] 0 <= i < te.len() ==> keys_unique(te[i].1)
}

/// `t` has every key of `d`, recursively through the tables that both have.
pub open spec fn covers<L>(t: TreeView<L>, d: TreeView<L>) -> bool
    decreases d, 1int,
{
    match t {
        TreeView::Table(te) => match d {
            TreeView::Table(de) => entries_cover(te, de),
            TreeView::Value(_) => true,
        },
        TreeView::Value(_) => true,
    }
}

/// The entries `te` have every key of `de`, recursively through the tables
/// that both have.
pub open spec fn entries_cover<L>(
    te: Seq<(Seq<char>, TreeView<L>)>,
    de: Seq<(Seq<char>, TreeView<L>)>,
) -> bool
    decreases de, 0int,
{
    forall|i: int|
        #![trigger de[i]]
        0 <= i < de.len() ==> match key_index(te, de[i].0) {
            Some(j) => covers(te[j].1, de[i].1),
            None => false,
        }
}

/// `b` is `a` with, at most, entries appended to its tables: every entry of
/// `a` keeps its key and its position, and its value is extended in the same way.
pub open spec fn extends<L>(a: TreeView<L>, b: TreeView<L>) -> bool
    decreases a, 1int,
{
    match a {
        TreeView::Table(ae) => match b {
            TreeView::Table(be) => entries_extend(ae, be),
            TreeView::Value(_) => false,
        },
        TreeView::Value(_) => a == b,
    }
}

/// `be` is `ae` with, at most, entries appended, and each entry of `ae`
/// extended.
pub open spec fn entries_extend<L>(
    ae: Seq<(Seq<char>, TreeView<L>)>,
    be: Seq<(Seq<char>, TreeView<L>)>,
) -> bool
    decreases ae, 0int,
{
    ae.len() <= be.len() && forall|j: int|
        #![trigger ae[j]]
        0 <= j < ae.len() ==> ae[j].0 == be[j].0 && extends(ae[j].1, be[j].1)
}

proof fn lemma_extends_refl<L>(a: TreeView<L>)
    ensures
        extends(a, a),
    decreases a, 1int,
{
    if let TreeView::Table(ae) = a {
        lemma_entries_extend_refl(ae);
    }
}

proof fn lemma_entries_extend_refl<L>(ae: Seq<(Seq<char>, TreeView<L>)>)
    ensures
        entries_extend(ae, ae),
    decreases ae, 0int,
{
    assert forall|j: int| 0 <= j < ae.len() implies extends((#[trigger] ae[j]).1, ae[j].1) by {
        lemma_extends_refl(ae[j].1);
    }
}

proof fn lemma_extends_trans<L>(a: TreeView<L>, b: TreeView<L>, c: TreeView<L>)
    requires
        extends(a, b),
        extends(b, c),
    ensures
        extends(a, c),
    decreases a, 1int,
{
    if let TreeView::Table(ae) = a {
        if let TreeView::Table(be) = b {
            if let TreeView::Table(ce) = c {
                lemma_entries_extend_trans(ae, be, ce);
            }
        }
    }
}

proof fn lemma_entries_extend_trans<L>(
    ae: Seq<(Seq<char>, TreeView<L>)>,
    be: Seq<(Seq<char>, TreeView<L>)>,
    ce: Seq<(Seq<char>, TreeView<L>)>,
)
    requires
        entries_extend(ae, be),
        entries_extend(be, ce),
    ensures
        entries_extend(ae, ce),
    decreases ae, 0int,
{
    assert forall|j: int| 0 <= j < ae.len() implies #[trigger] ae[j].0 == ce[j].0 && extends(
        ae[j].1,
        ce[j].1,
    ) by {
        assert(ae[j].0 == be[j].0 && extends(ae[j].1, be[j].1));
        assert(be[j].0 == ce[j].0 && extends(be[j].1, ce[j].1));
        lemma_extends_trans(ae[j].1, be[j].1, ce[j].1);
    }
}

proof fn lemma_key_index_none<L>(e: Seq<(Seq<char>, TreeView<L>)>, k: Seq<char>)
    requires
        key_index(e, k) is None,
    ensures
        forall|j: int| 0 <= j < e.len() ==> e[j].0 != k,
    decreases e.len(),
{
    if e.len() > 0 {
        lemma_key_index_none(e.drop_last(), k);
        assert forall|j: int| 0 <= j < e.len() implies e[j].0 != k by {
            if j < e.len() - 1 {
                assert(e.drop_last()[j] == e[j]);
            }
        }
    }
}

proof fn lemma_key_index_first<L>(e: Seq<(Seq<char>, TreeView<L>)>, k: Seq<char>, i: int)
    requires
        key_index(e, k) == Some(i),
    ensures
        forall|j: int| 0 <= j < i ==> e[j].0 != k,
    decreases e.len(),
{
    if e.len() > 0 {
        match key_index(e.drop_last(), k) {
            Some(i2) => {
                lemma_key_index_first(e.drop_last(), k, i2);
                lemma_key_index_found(e.drop_last(), k, i2);
                assert forall|j: int| 0 <= j < i implies e[j].0 != k by {
                    assert(e.drop_last()[j] == e[j]);
                }
            },
            None => {
                lemma_key_index_none(e.drop_last(), k);
                assert forall|j: int| 0 <= j < i implies e[j].0 != k by {
                    assert(e.drop_last()[j] == e[j]);
                }
            },
        }
    }
}

/// A key found among some entries is found at the same position in any
/// extension of them.
proof fn lemma_key_index_extends<L>(
    ae: Seq<(Seq<char>, TreeView<L>)>,
    be: Seq<(Seq<char>, TreeView<L>)>,
    k: Seq<char>,
    i: int,
)
    requires
        entries_extend(ae, be),
        key_index(ae, k) == Some(i),
    ensures
        key_index(be, k) == Some(i),
{
    lemma_key_index_found(ae, k, i);
    lemma_key_index_first(ae, k, i);
    assert(ae[i].0 == be[i].0);
    assert forall|j: int| 0 <= j < i implies be[j].0 != k by {
        assert(ae[j].0 == be[j].0);
    }
    lemma_key_index(be, k, i);
}

/// What a document covers, any extension of it covers too.
proof fn lemma_covers_extends<L>(a: TreeView<L>, b: TreeView<L>, d: TreeView<L>)
    requires
        covers(a, d),
        extends(a, b),
    ensures
        covers(b, d),
    decreases d, 1int,
{
    if let TreeView::Table(ae) = a {
        if let TreeView::Table(be) = b {
            if let TreeView::Table(de) = d {
                lemma_entries_cover_extends(ae, be, de);
            }
        }
    }
}

proof fn lemma_entries_cover_extends<L>(
    ae: Seq<(Seq<char>, TreeView<L>)>,
    be: Seq<(Seq<char>, TreeView<L>)>,
    de: Seq<(Seq<char>, TreeView<L>)>,
)
    requires
        entries_cover(ae, de),
        entries_extend(ae, be),
    ensures
        entries_cover(be, de),
    decreases de, 0int,
{
    assert forall|i: int| 0 <= i < de.len() implies match key_index(be, #[trigger] de[i].0) {
        Some(j) => covers(be[j].1, de[i].1),
        None => false,
    } by {
        let j = key_index(ae, de[i].0)->0;
        lemma_key_index_found(ae, de[i].0, j);
        lemma_key_index_extends(ae, be, de[i].0, j);
        assert(ae[j].0 == be[j].0 && extends(ae[j].1, be[j].1));
        lemma_covers_extends(ae[j].1, be[j].1, de[i].1);
    }
}

/// A document with unique keys covers itself.
proof fn lemma_covers_refl<L>(d: TreeView<L>)
    requires
        keys_unique(d),
    ensures
        covers(d, d),
    decreases d, 1int,
{
    if let TreeView::Table(de) = d {
        lemma_entries_cover_refl(de);
    }
}

proof fn lemma_entries_cover_refl<L>(de: Seq<(Seq<char>, TreeView<L>)>)
    requires
        entries_unique(de),
    ensures
        entries_cover(de, de),
    decreases de, 0int,
{
    assert forall|i: int| 0 <= i < de.len() implies match key_index(de, #[trigger] de[i].0) {
        Some(j) => covers(de[j].1, de[i].1),
        None => false,
    } by {
        lemma_key_index(de, de[i].0, i);
        assert(keys_unique(de[i].1));
        lemma_covers_refl(de[i].1);
    }
}

/// The entries after merging `dv` into the entry of key `k` (or appending
/// it) extend the entries before.
proof fn lemma_merge_step_extends<L>(
    u1: Seq<(Seq<char>, TreeView<L>)>,
    k: Seq<char>,
    dv: TreeView<L>,
    r: Seq<(Seq<char>, TreeView<L>)>,
)
    requires
        r == (match key_index(u1, k) {
            Some(i) => u1.update(i, (k, merge_tree(u1[i].1, dv).0)),
            None => u1.push((k, dv)),
        }),
    ensures
        entries_extend(u1, r),
    decreases dv, 2int,
{
    match key_index(u1, k) {
        Some(i) => {
            lemma_key_index_found(u1, k, i);
            lemma_merge_tree_extends(u1[i].1, dv);
            assert forall|j: int| 0 <= j < u1.len() implies #[trigger] u1[j].0 == r[j].0
                && extends(u1[j].1, r[j].1) by {
                if j != i {
                    lemma_extends_refl(u1[j].1);
                }
            }
        },
        None => {
            assert forall|j: int| 0 <= j < u1.len() implies #[trigger] u1[j].0 == r[j].0
                && extends(u1[j].1, r[j].1) by {
                lemma_extends_refl(u1[j].1);
            }
        },
    }
}

proof fn lemma_merge_tree_extends<L>(u: TreeView<L>, d: TreeView<L>)
    ensures
        extends(u, merge_tree(u, d).0),
    decreases d, 1int,
{
    lemma_extends_refl(u);
    if let TreeView::Table(ue) = u {
        if let TreeView::Table(de) = d {
            lemma_merge_entries_extends(ue, de);
        }
    }
}

proof fn lemma_merge_entries_extends<L>(
    ue: Seq<(Seq<char>, TreeView<L>)>,
    de: Seq<(Seq<char>, TreeView<L>)>,
)
    ensures
        entries_extend(ue, merge_entries(ue, de).0),
    decreases de, 0int,
{
    if de.len() == 0 {
        lemma_entries_extend_refl(ue);
    } else {
        let u1 = merge_entries(ue, de.drop_last()).0;
        lemma_merge_entries_extends(ue, de.drop_last());
        let (k, dv) = de.last();
        let r = merge_entries(ue, de).0;
        lemma_merge_step_extends(u1, k, dv, r);
        lemma_entries_extend_trans(ue, u1, r);
    }
}

proof fn lemma_merge_tree_covers<L>(u: TreeView<L>, d: TreeView<L>)
    requires
        keys_unique(d),
    ensures
        covers(merge_tree(u, d).0, d),
    decreases d, 1int,
{
    if let TreeView::Table(ue) = u {
        if let TreeView::Table(de) = d {
            lemma_merge_entries_covers(ue, de);
        }
    }
}

proof fn lemma_merge_entries_covers<L>(
    ue: Seq<(Seq<char>, TreeView<L>)>,
    de: Seq<(Seq<char>, TreeView<L>)>,
)
    requires
        entries_unique(de),
    ensures
        entries_cover(merge_entries(ue, de).0, de),
    decreases de, 0int,
{
    if de.len() > 0 {
        let dp = de.drop_last();
        let n = de.len() - 1;
        assert forall|i: int| 0 <= i < dp.len() implies keys_unique(#[trigger] dp[i].1) by {
            assert(dp[i] == de[i]);
        }
        lemma_merge_entries_covers(ue, dp);
        let u1 = merge_entries(ue, dp).0;
        let (k, dv) = de.last();
        assert(de[n] == (k, dv));
        assert(keys_unique(dv));
        let r = merge_entries(ue, de).0;
        // the result extends `u1`, so it still covers the earlier defaults
        lemma_merge_step_extends(u1, k, dv, r);
        lemma_entries_cover_extends(u1, r, dp);
        // and it covers the last default
        assert(match key_index(r, k) {
            Some(j) => covers(r[j].1, dv),
            None => false,
        }) by {
            match key_index(u1, k) {
                Some(i) => {
                    lemma_key_index_found(u1, k, i);
                    lemma_key_index_extends(u1, r, k, i);
                    lemma_merge_tree_covers(u1[i].1, dv);
                },
                None => {
                    lemma_key_index_none(u1, k);
                    lemma_key_index(r, k, u1.len() as int);
                    lemma_covers_refl(dv);
                },
            }
        }
        assert forall|i: int| 0 <= i < de.len() implies match key_index(r, #[trigger] de[i].0) {
            Some(j) => covers(r[j].1, de[i].1),
            None => false,
        } by {
            if i < n {
                assert(dp[i] == de[i]);
            }
        }
    }
}

proof fn lemma_covered_tree_unchanged<L>(u: TreeView<L>, d: TreeView<L>)
    requires
        covers(u, d),
    ensures
        merge_tree(u, d) == (u, false),
    decreases d, 1int,
{
    if let TreeView::Table(ue) = u {
        if let TreeView::Table(de) = d {
            lemma_covered_entries_unchanged(ue, de);
        }
    }
}

proof fn lemma_covered_entries_unchanged<L>(
    ue: Seq<(Seq<char>, TreeView<L>)>,
    de: Seq<(Seq<char>, TreeView<L>)>,
)
    requires
        entries_cover(ue, de),
    ensures
        merge_entries(ue, de) == (ue, false),
    decreases de, 0int,
{
    if de.len() > 0 {
        let dp = de.drop_last();
        let n = de.len() - 1;
        assert forall|i: int| 0 <= i < dp.len() implies match key_index(ue, #[trigger] dp[i].0) {
            Some(j) => covers(ue[j].1, dp[i].1),
            None => false,
        } by {
            assert(dp[i] == de[i]);
        }
        lemma_covered_entries_unchanged(ue, dp);
        let (k, dv) = de.last();
        assert(de[n] == (k, dv));
        let j = key_index(ue, k)->0;
        lemma_key_index_found(ue, k, j);
        lemma_covered_tree_unchanged(ue[j].1, dv);
        assert(ue.update(j, (k, ue[j].1)) =~= ue);
    }
}

proof fn lemma_unreported_tree_unchanged<L>(u: TreeView<L>, d: TreeView<L>)
    ensures
        !merge_tree(u, d).1 ==> merge_tree(u, d).0 == u,
    decreases d, 1int,
{
    if let TreeView::Table(ue) = u {
        if let TreeView::Table(de) = d {
            lemma_unreported_entries_unchanged(ue, de);
        }
    }
}

proof fn lemma_unreported_entries_unchanged<L>(
    ue: Seq<(Seq<char>, TreeView<L>)>,
    de: Seq<(Seq<char>, TreeView<L>)>,
)
    ensures
        !merge_entries(ue, de).1 ==> merge_entries(ue, de).0 == ue,
    decreases de, 0int,
{
    if de.len() > 0 {
        lemma_unreported_entries_unchanged(ue, de.drop_last());
        let u1 = merge_entries(ue, de.drop_last()).0;
        let (k, dv) = de.last();
        if let Some(i) = key_index(u1, k) {
            lemma_key_index_found(u1, k, i);
            lemma_unreported_tree_unchanged(u1[i].1, dv);
            if !merge_entries(ue, de).1 {
                assert(u1.update(i, (k, u1[i].1)) =~= u1);
            }
        }
    }
}

/// Filling defaults leaves every key of `defaults` present in the result,
/// recursively through the tables that both documents have: a key the user
/// omits falls back to its default.
pub proof fn law_merge_fills_missing_keys<L>(user: TreeView<L>, defaults: TreeView<L>)
    requires
        keys_unique(defaults),
    ensures
        covers(merge_tree(user, defaults).0, defaults),
{
    lemma_merge_tree_covers(user, defaults);
}

/// Filling defaults never removes, moves or overwrites an entry the user
/// wrote; it only appends entries to tables.
pub proof fn law_merge_keeps_user_entries<L>(user: TreeView<L>, defaults: TreeView<L>)
    ensures
        extends(user, merge_tree(user, defaults).0),
{
    lemma_merge_tree_extends(user, defaults);
}

/// A change is reported exactly when the user's document lacks a key of the
/// defaults; when none is reported the document is unchanged, so nothing
/// needs to be written back.
pub proof fn law_merge_reports_missing_keys<L>(user: TreeView<L>, defaults: TreeView<L>)
    requires
        keys_unique(defaults),
    ensures
        merge_tree(user, defaults).1 <==> !covers(user, defaults),
        !merge_tree(user, defaults).1 ==> merge_tree(user, defaults).0 == user,
{
    lemma_unreported_tree_unchanged(user, defaults);
    lemma_merge_tree_covers(user, defaults);
    if covers(user, defaults) {
        lemma_covered_tree_unchanged(user, defaults);
    }
}

/// Filling defaults a second time adds nothing and reports no change.
pub proof fn law_merge_idempotent<L>(user: TreeView<L>, defaults: TreeView<L>)
    requires
        keys_unique(defaults),
    ensures
        merge_tree(merge_tree(user, defaults).0, defaults) == (merge_tree(user, defaults).0, false),
{
    lemma_merge_tree_covers(user, defaults);
    lemma_covered_tree_unchanged(merge_tree(user, defaults).0, defaults);
}

proof fn lemma_merge_tree_unique<L>(u: TreeView<L>, d: TreeView<L>)
    requires
        keys_unique(u),
        keys_unique(d),
    ensures
        keys_unique(merge_tree(u, d).0),
    decreases d, 1int,
{
    if let TreeView::Table(ue) = u {
        if let TreeView::Table(de) = d {
            lemma_merge_entries_unique(ue, de);
        }
    }
}

proof fn lemma_merge_entries_unique<L>(
    ue: Seq<(Seq<char>, TreeView<L>)>,
    de: Seq<(Seq<char>, TreeView<L>)>,
)
    requires
        entries_unique(ue),
        entries_unique(de),
    ensures
        entries_unique(merge_entries(ue, de).0),
    decreases de, 0int,
{
    if de.len() > 0 {
        let dp = de.drop_last();
        let n = de.len() - 1;
        assert forall|i: int| 0 <= i < dp.len() implies keys_unique(#[trigger] dp[i].1) by {
            assert(dp[i] == de[i]);
        }
        assert forall|i: int, j: int| 0 <= i < j < dp.len() implies dp[i].0 != dp[j].0 by {
            assert(dp[i] == de[i] && dp[j] == de[j]);
        }
        lemma_merge_entries_unique(ue, dp);
        let u1 = merge_entries(ue, dp).0;
        let (k, dv) = de.last();
        assert(de[n] == (k, dv));
        assert(keys_unique(dv));
        let r = merge_entries(ue, de).0;
        match key_index(u1, k) {
            Some(i) => {
                lemma_key_index_found(u1, k, i);
                assert(keys_unique(u1[i].1));
                lemma_merge_tree_unique(u1[i].1, dv);
                assert forall|a: int| 0 <= a < r.len() implies keys_unique(#[trigger] r[a].1) by {
                    if a != i {
                        assert(r[a] == u1[a]);
                    }
                }
                assert forall|a: int, b: int| 0 <= a < b < r.len() implies r[a].0 != r[b].0 by {
                    assert(r[a].0 == u1[a].0 && r[b].0 == u1[b].0);
                }
            },
            None => {
                lemma_key_index_none(u1, k);
                assert forall|a: int| 0 <= a < r.len() implies keys_unique(#[trigger] r[a].1) by {
                    if a < u1.len() {
                        assert(r[a] == u1[a]);
                    }
                }
                assert forall|a: int, b: int| 0 <= a < b < r.len() implies r[a].0 != r[b].0 by {
                    assert(r[a] == u1[a]);
                    if b < u1.len() {
                        assert(r[b] == u1[b]);
                    }
                }
            },
        }
    }
}

/// Filling a valid document from valid defaults gives a valid document: no
/// table gets a key twice.
pub proof fn law_merge_keeps_keys_unique<L>(user: TreeView<L>, defaults: TreeView<L>)
    requires
        keys_unique(user),
        keys_unique(defaults),
    ensures
        keys_unique(merge_tree(user, defaults).0),
{
    lemma_merge_tree_unique(user, defaults);
}

} // verus!
