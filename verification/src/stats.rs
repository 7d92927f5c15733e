//! Statistics over the labels of an account's posts.
//!
//! Only labels in force whose subject is a post are counted; a label on
//! the account itself never adds to a count.

use crate::ranking::{is_stable_sort, stable_order_is_unique, stable_sort, Ranked};
use crate::text::same_text;
use crate::types::{category_of, duplicate_labels, Label, LabelCategory};
use vstd::prelude::*;
use vstd::seq_lib::seq_to_set_is_finite;
use vstd::set_lib::lemma_len_subset;

verus! {

/// How many of `labels` are post-level labels of category `c`.
pub open spec fn category_count(labels: Seq<Label>, c: LabelCategory) -> nat
    decreases labels.len(),
{
    if labels.len() == 0 {
        0
    } else {
        category_count(labels.drop_last(), c) + if labels.last().is_post_level() && category_of(
            labels.last().val@,
        ) == c {
            1nat
        } else {
            0nat
        }
    }
}

/// How many of `labels` are post-level labels of value `val`.
pub open spec fn value_count(labels: Seq<Label>, val: Seq<char>) -> nat
    decreases labels.len(),
{
    if labels.len() == 0 {
        0
    } else {
        value_count(labels.drop_last(), val) + if labels.last().is_post_level()
            && labels.last().val@ == val {
            1nat
        } else {
            0nat
        }
    }
}

/// The values of the post-level labels of `labels`, each once, in the order
/// in which they first occur.
pub open spec fn distinct_values(labels: Seq<Label>) -> Seq<Seq<char>>
    decreases labels.len(),
{
    if labels.len() == 0 {
        Seq::empty()
    } else {
        let before = distinct_values(labels.drop_last());
        if labels.last().is_post_level() && !before.contains(labels.last().val@) {
            before.push(labels.last().val@)
        } else {
            before
        }
    }
}

/// The subjects of the post-level labels of `labels`.
pub open spec fn labelled_posts(labels: Seq<Label>) -> Set<Seq<char>> {
    Set::new(
        |uri: Seq<char>|
            exists|i: int|
                0 <= i < labels.len() && (#[trigger] labels[i]).is_post_level() && labels[i].uri@
                    == uri,
    )
}

/// The category at a place of the table of categories.
pub open spec fn category_at(i: int) -> LabelCategory {
    if i == 0 {
        LabelCategory::AdultContent
    } else if i == 1 {
        LabelCategory::Violence
    } else if i == 2 {
        LabelCategory::Spam
    } else if i == 3 {
        LabelCategory::Hate
    } else if i == 4 {
        LabelCategory::ModerationAction
    } else {
        LabelCategory::Other
    }
}

/// The categories that occur among the first `upto` of the table, each with
/// its count, in the table's order.
pub open spec fn category_rows(labels: Seq<Label>, upto: int) -> Seq<(LabelCategory, usize)>
    decreases upto,
{
    if upto <= 0 {
        Seq::empty()
    } else {
        let before = category_rows(labels, upto - 1);
        let c = category_at(upto - 1);
        if category_count(labels, c) > 0 {
            before.push((c, category_count(labels, c) as usize))
        } else {
            before
        }
    }
}

/// Whether `rows` lists the distinct values of `labels` in first-seen order,
/// each with the number of post-level labels that carry it.
pub open spec fn is_tally(labels: Seq<Label>, rows: Seq<(String, usize)>) -> bool {
    &&& rows.len() == distinct_values(labels).len()
    &&& forall|k: int|
        0 <= k < rows.len() ==> (#[trigger] rows[k]).0@ == distinct_values(labels)[k] && rows[k].1
            == value_count(labels, distinct_values(labels)[k])
}

impl Ranked for (String, usize) {
    open spec fn outranks(&self, other: &Self) -> bool {
        self.1 > other.1
    }

    proof fn asymmetric(x: &Self, y: &Self) {
    }

    proof fn carries(x: &Self, y: &Self, z: &Self) {
    }

    fn ranks_above(&self, other: &Self) -> (r: bool) {
        self.1 > other.1
    }
}

proof fn lemma_category_count_bound(labels: Seq<Label>, c: LabelCategory)
    ensures
        category_count(labels, c) <= labels.len(),
    decreases labels.len(),
{
    if labels.len() > 0 {
        lemma_category_count_bound(labels.drop_last(), c);
    }
}

proof fn lemma_value_count_bound(labels: Seq<Label>, val: Seq<char>)
    ensures
        value_count(labels, val) <= labels.len(),
    decreases labels.len(),
{
    if labels.len() > 0 {
        lemma_value_count_bound(labels.drop_last(), val);
    }
}

/// The categories of the post-level labels, each with its count, in the
/// order of the table of categories.
pub fn count_by_category(labels: &Vec<Label>) -> (rows: Vec<(LabelCategory, usize)>)
    ensures
        rows@ == category_rows(labels@, 6),
{
    let mut counts: Vec<usize> = Vec::new();
    counts.push(0);
    counts.push(0);
    counts.push(0);
    counts.push(0);
    counts.push(0);
    counts.push(0);
    let mut i: usize = 0;
    while i < labels.len()
        invariant
            i <= labels.len(),
            counts.len() == 6,
            forall|c: int|
                0 <= c < 6 ==> #[trigger] counts@[c] == category_count(
                    labels@.take(i as int),
                    category_at(c),
                ),
        decreases labels.len() - i,
    {
        let ghost before = labels@.take(i as int);
        let ghost after = labels@.take(i as int + 1);
        assert(after.drop_last() =~= before);
        assert(after.last() == labels@[i as int]);
        if labels[i].post_level() {
            let c = labels[i].category().index();
            proof {
                lemma_category_count_bound(before, category_at(c as int));
            }
            let bumped: usize = counts[c] + 1;
            counts.set(c, bumped);
        }
        i = i + 1;
    }
    assert(labels@.take(labels@.len() as int) =~= labels@);
    let mut rows: Vec<(LabelCategory, usize)> = Vec::new();
    let mut c: usize = 0;
    while c < 6
        invariant
            c <= 6,
            counts.len() == 6,
            forall|k: int|
                0 <= k < 6 ==> #[trigger] counts@[k] == category_count(labels@, category_at(k)),
            rows@ == category_rows(labels@, c as int),
        decreases 6 - c,
    {
        let category = if c == 0 {
            LabelCategory::AdultContent
        } else if c == 1 {
            LabelCategory::Violence
        } else if c == 2 {
            LabelCategory::Spam
        } else if c == 3 {
            LabelCategory::Hate
        } else if c == 4 {
            LabelCategory::ModerationAction
        } else {
            LabelCategory::Other
        };
        if counts[c] > 0 {
            rows.push((category, counts[c]));
        }
        c = c + 1;
    }
    rows
}

/// How many posts carry at least one post-level label.
pub fn count_labelled_posts(labels: &Vec<Label>) -> (n: usize)
    ensures
        labelled_posts(labels@).finite(),
        n == labelled_posts(labels@).len(),
{
    let mut seen: Vec<String> = Vec::new();
    let ghost mut found: Set<Seq<char>> = Set::empty();
    let mut i: usize = 0;
    assert(labelled_posts(labels@.take(0)) =~= Set::<Seq<char>>::empty());
    while i < labels.len()
        invariant
            i <= labels.len(),
            seen.len() <= i,
            found.finite(),
            found.len() == seen.len(),
            found == labelled_posts(labels@.take(i as int)),
            forall|k: int| 0 <= k < seen.len() ==> found.contains(#[trigger] seen@[k]@),
            forall|u: Seq<char>|
                found.contains(u) ==> exists|k: int| 0 <= k < seen.len() && #[trigger] seen@[k]@ == u,
        decreases labels.len() - i,
    {
        let ghost before = labels@.take(i as int);
        let ghost after = labels@.take(i as int + 1);
        let ghost uri = labels@[i as int].uri@;
        assert forall|k: int| 0 <= k < i implies before[k] == after[k] by {}
        assert(after[i as int] == labels@[i as int]);
        if labels[i].post_level() {
            let mut known = false;
            let mut k: usize = 0;
            while k < seen.len()
                invariant
                    k <= seen.len(),
                    uri == labels@[i as int].uri@,
                    i < labels.len(),
                    known ==> exists|m: int| 0 <= m < seen.len() && #[trigger] seen@[m]@ == uri,
                    !known ==> forall|m: int| 0 <= m < k ==> #[trigger] seen@[m]@ != uri,
                decreases seen.len() - k,
            {
                if same_text(seen[k].as_str(), labels[i].uri.as_str()) {
                    known = true;
                }
                k = k + 1;
            }
            assert(after[i as int].is_post_level() && after[i as int].uri@ == uri);
            if !known {
                assert(!found.contains(uri));
                let ghost seen_before = seen@;
                let ghost found_before = found;
                seen.push(labels[i].uri.clone());
                proof {
                    found = found.insert(uri);
                    assert forall|u: Seq<char>| found.contains(u) implies exists|k: int|
                        0 <= k < seen.len() && #[trigger] seen@[k]@ == u by {
                        if u == uri {
                            assert(seen@[seen.len() - 1]@ == u);
                        } else {
                            assert(found_before.contains(u));
                            let k = choose|k: int|
                                0 <= k < seen_before.len() && #[trigger] seen_before[k]@ == u;
                            assert(seen@[k]@ == u);
                        }
                    }
                }
                assert(found =~= labelled_posts(after)) by {
                    assert forall|u: Seq<char>| found.contains(u) implies labelled_posts(
                        after,
                    ).contains(u) by {
                        if u != uri {
                            let m = choose|m: int|
                                0 <= m < before.len() && (#[trigger] before[m]).is_post_level()
                                    && before[m].uri@ == u;
                            assert(after[m].is_post_level() && after[m].uri@ == u);
                        }
                    }
                    assert forall|u: Seq<char>| labelled_posts(after).contains(u) implies found.contains(
                        u,
                    ) by {
                        let m = choose|m: int|
                            0 <= m < after.len() && (#[trigger] after[m]).is_post_level()
                                && after[m].uri@ == u;
                        if m < i {
                            assert(before[m].is_post_level() && before[m].uri@ == u);
                        }
                    }
                }
            } else {
                assert(found.contains(uri));
                assert(found =~= labelled_posts(after)) by {
                    assert forall|u: Seq<char>| found.contains(u) implies labelled_posts(
                        after,
                    ).contains(u) by {
                        let m = choose|m: int|
                            0 <= m < before.len() && (#[trigger] before[m]).is_post_level()
                                && before[m].uri@ == u;
                        assert(after[m].is_post_level() && after[m].uri@ == u);
                    }
                    assert forall|u: Seq<char>| labelled_posts(after).contains(u) implies found.contains(
                        u,
                    ) by {
                        let m = choose|m: int|
                            0 <= m < after.len() && (#[trigger] after[m]).is_post_level()
                                && after[m].uri@ == u;
                        if m < i {
                            assert(before[m].is_post_level() && before[m].uri@ == u);
                        }
                    }
                }
            }
        } else {
            assert(found =~= labelled_posts(after)) by {
                assert forall|u: Seq<char>| found.contains(u) implies labelled_posts(after).contains(
                    u,
                ) by {
                    let m = choose|m: int|
                        0 <= m < before.len() && (#[trigger] before[m]).is_post_level()
                            && before[m].uri@ == u;
                    assert(after[m].is_post_level() && after[m].uri@ == u);
                }
                assert forall|u: Seq<char>| labelled_posts(after).contains(u) implies found.contains(
                    u,
                ) by {
                    let m = choose|m: int|
                        0 <= m < after.len() && (#[trigger] after[m]).is_post_level()
                            && after[m].uri@ == u;
                    assert(before[m].is_post_level() && before[m].uri@ == u);
                }
            }
        }
        i = i + 1;
    }
    assert(labels@.take(labels@.len() as int) =~= labels@);
    seen.len()
}

/// The distinct values of the post-level labels in first-seen order, each
/// with its count.
pub fn tally_values(labels: &Vec<Label>) -> (rows: Vec<(String, usize)>)
    ensures
        is_tally(labels@, rows@),
{
    let mut rows: Vec<(String, usize)> = Vec::new();
    let mut i: usize = 0;
    while i < labels.len()
        invariant
            i <= labels.len(),
            is_tally(labels@.take(i as int), rows@),
        decreases labels.len() - i,
    {
        let ghost before = labels@.take(i as int);
        let ghost after = labels@.take(i as int + 1);
        let ghost val = labels@[i as int].val@;
        let ghost old_rows = rows@;
        assert(after.drop_last() =~= before);
        assert(after.last() == labels@[i as int]);
        if labels[i].post_level() {
            let mut at: usize = rows.len();
            let mut k: usize = 0;
            while k < rows.len()
                invariant
                    k <= rows.len(),
                    i < labels.len(),
                    val == labels@[i as int].val@,
                    at <= rows.len(),
                    at < rows.len() ==> rows@[at as int].0@ == val,
                    at == rows.len() ==> forall|m: int| 0 <= m < k ==> (#[trigger] rows@[m]).0@ != val,
                decreases rows.len() - k,
            {
                if at == rows.len() && same_text(rows[k].0.as_str(), labels[i].val.as_str()) {
                    at = k;
                }
                k = k + 1;
            }
            proof {
                lemma_distinct_values_are_distinct(before);
                assert forall|m: int| 0 <= m < before.len() implies value_count(
                    after,
                    #[trigger] before[m].val@,
                ) == value_count(before, before[m].val@) + if before[m].val@ == val {
                    1nat
                } else {
                    0nat
                } by {}
            }
            if at < rows.len() {
                proof {
                    lemma_value_count_bound(before, val);
                    assert(distinct_values(before)[at as int] == val);
                    assert(distinct_values(before).contains(val));
                }
                let value = rows[at].0.clone();
                let bumped: usize = rows[at].1 + 1;
                rows.set(at, (value, bumped));
                assert(is_tally(after, rows@)) by {
                    assert forall|m: int| 0 <= m < rows@.len() implies (#[trigger] rows@[m]).0@
                        == distinct_values(after)[m] && rows@[m].1 == value_count(
                        after,
                        distinct_values(after)[m],
                    ) by {
                        assert(old_rows[m].0@ == distinct_values(before)[m]);
                        if m != at {
                            assert(distinct_values(before)[m] != val);
                        }
                    }
                }
            } else {
                proof {
                    assert(!distinct_values(before).contains(val)) by {
                        if distinct_values(before).contains(val) {
                            let m = choose|m: int|
                                0 <= m < distinct_values(before).len() && distinct_values(
                                    before,
                                )[m] == val;
                            assert(old_rows[m].0@ == val);
                        }
                    }
                    lemma_absent_value_has_no_count(before, val);
                }
                rows.push((labels[i].val.clone(), 1));
                assert(is_tally(after, rows@)) by {
                    assert forall|m: int| 0 <= m < rows@.len() implies (#[trigger] rows@[m]).0@
                        == distinct_values(after)[m] && rows@[m].1 == value_count(
                        after,
                        distinct_values(after)[m],
                    ) by {
                        if m < old_rows.len() {
                            assert(old_rows[m].0@ == distinct_values(before)[m]);
                            assert(distinct_values(before).contains(distinct_values(before)[m]));
                        }
                    }
                }
            }
        } else {
            assert(is_tally(after, rows@)) by {
                assert forall|m: int| 0 <= m < rows@.len() implies (#[trigger] rows@[m]).0@
                    == distinct_values(after)[m] && rows@[m].1 == value_count(
                    after,
                    distinct_values(after)[m],
                ) by {
                    assert(old_rows[m].0@ == distinct_values(before)[m]);
                }
            }
        }
        i = i + 1;
    }
    assert(labels@.take(labels@.len() as int) =~= labels@);
    rows
}

proof fn lemma_distinct_values_are_distinct(labels: Seq<Label>)
    ensures
        distinct_values(labels).no_duplicates(),
    decreases labels.len(),
{
    if labels.len() > 0 {
        lemma_distinct_values_are_distinct(labels.drop_last());
    }
}

proof fn lemma_absent_value_has_no_count(labels: Seq<Label>, val: Seq<char>)
    requires
        !distinct_values(labels).contains(val),
    ensures
        value_count(labels, val) == 0,
    decreases labels.len(),
{
    if labels.len() > 0 {
        let before = distinct_values(labels.drop_last());
        if labels.last().is_post_level() && !before.contains(labels.last().val@) {
            assert(distinct_values(labels).last() == labels.last().val@);
            assert forall|k: int| 0 <= k < before.len() implies before[k] != val by {
                assert(distinct_values(labels)[k] == before[k]);
            }
        }
        lemma_absent_value_has_no_count(labels.drop_last(), val);
    }
}

/// The label values by how often they occur, the most frequent first;
/// values that occur equally often stand in the order in which they were
/// first seen.
pub fn rank_values(labels: &Vec<Label>) -> (ranked: Vec<(String, usize)>)
    ensures
        exists|rows: Seq<(String, usize)>, order: Seq<int>|
            is_tally(labels@, rows) && is_stable_sort(rows, ranked@, order),
{
    let rows = tally_values(labels);
    stable_sort(rows)
}

/// What an analysis found, in numbers.
#[derive(Debug, Clone)]
pub struct BulkAnalysisStats {
    /// How many posts were fetched.
    pub total_posts: usize,
    /// How many posts carry at least one post-level label.
    pub posts_with_labels: usize,
    /// The categories that occur, each with its number of post-level labels.
    pub labels_by_category: Vec<(LabelCategory, usize)>,
    /// The label values with their numbers, the most frequent first.
    pub top_label_values: Vec<(String, usize)>,
    /// The labels on the account itself.
    pub account_labels: Vec<Label>,
}

/// Whether `stats` is what `total_posts` posts, the labels `combined` of
/// all queries and the labels `account` of the account give.
pub open spec fn is_stats_of(
    stats: BulkAnalysisStats,
    total_posts: usize,
    combined: Seq<Label>,
    account: Seq<Label>,
) -> bool {
    &&& stats.total_posts == total_posts
    &&& labelled_posts(combined).finite()
    &&& stats.posts_with_labels == labelled_posts(combined).len()
    &&& stats.labels_by_category@ == category_rows(combined, 6)
    &&& exists|rows: Seq<(String, usize)>, order: Seq<int>|
        is_tally(combined, rows) && is_stable_sort(rows, stats.top_label_values@, order)
    &&& stats.account_labels@ == account
}

/// The statistics of an analysis.
pub fn compute_stats(total_posts: usize, combined: &Vec<Label>, account: &Vec<Label>) -> (stats:
    BulkAnalysisStats)
    ensures
        is_stats_of(stats, total_posts, combined@, account@),
{
    let posts_with_labels = count_labelled_posts(combined);
    let labels_by_category = count_by_category(combined);
    let top_label_values = rank_values(combined);
    let account_labels = duplicate_labels(account);
    let stats = BulkAnalysisStats {
        total_posts,
        posts_with_labels,
        labels_by_category,
        top_label_values,
        account_labels,
    };
    proof {
        let (rows, order) = choose|rows: Seq<(String, usize)>, order: Seq<int>|
            is_tally(combined@, rows) && is_stable_sort(rows, top_label_values@, order);
        assert(is_tally(combined@, rows) && is_stable_sort(rows, stats.top_label_values@, order));
    }
    stats
}

/// The statistics of an account without posts.
pub fn empty_stats() -> (stats: BulkAnalysisStats)
    ensures
        stats.total_posts == 0,
        stats.posts_with_labels == 0,
        stats.labels_by_category@.len() == 0,
        stats.top_label_values@.len() == 0,
        stats.account_labels@.len() == 0,
{
    BulkAnalysisStats {
        total_posts: 0,
        posts_with_labels: 0,
        labels_by_category: Vec::new(),
        top_label_values: Vec::new(),
        account_labels: Vec::new(),
    }
}

/// The rows of a ranking as characters and numbers.
pub open spec fn row_views(rows: Seq<(String, usize)>) -> Seq<(Seq<char>, usize)> {
    Seq::new(rows.len(), |k: int| (rows[k].0@, rows[k].1))
}

/// Where every post-level label is on one of the posts, no more posts are
/// counted as labelled than there are posts, and each of them is a post.
pub proof fn labelled_posts_within_total(labels: Seq<Label>, post_uris: Seq<Seq<char>>)
    requires
        forall|i: int|
            0 <= i < labels.len() && (#[trigger] labels[i]).is_post_level() ==> post_uris.contains(
                labels[i].uri@,
            ),
    ensures
        labelled_posts(labels).finite(),
        labelled_posts(labels).len() <= post_uris.len(),
        forall|uri: Seq<char>| labelled_posts(labels).contains(uri) ==> crate::types::is_post_uri(uri),
{
    seq_to_set_is_finite(post_uris);
    post_uris.lemma_cardinality_of_set();
    assert(labelled_posts(labels).subset_of(post_uris.to_set())) by {
        assert forall|uri: Seq<char>| labelled_posts(labels).contains(uri) implies post_uris.to_set().contains(
            uri,
        ) by {
            let i = choose|i: int|
                0 <= i < labels.len() && (#[trigger] labels[i]).is_post_level() && labels[i].uri@
                    == uri;
            assert(post_uris.contains(labels[i].uri@));
        }
    }
    lemma_len_subset(labelled_posts(labels), post_uris.to_set());
}

/// The statistics depend on the posts and labels alone: two that are
/// computed of the same show the same numbers, rows and labels.
pub proof fn stats_are_determined(
    a: BulkAnalysisStats,
    b: BulkAnalysisStats,
    total_posts: usize,
    combined: Seq<Label>,
    account: Seq<Label>,
)
    requires
        is_stats_of(a, total_posts, combined, account),
        is_stats_of(b, total_posts, combined, account),
    ensures
        a.total_posts == b.total_posts,
        a.posts_with_labels == b.posts_with_labels,
        a.labels_by_category@ == b.labels_by_category@,
        row_views(a.top_label_values@) == row_views(b.top_label_values@),
        a.account_labels@ == b.account_labels@,
{
    let (rows_a, order_a) = choose|rows: Seq<(String, usize)>, order: Seq<int>|
        is_tally(combined, rows) && is_stable_sort(rows, a.top_label_values@, order);
    let (rows_b, order_b) = choose|rows: Seq<(String, usize)>, order: Seq<int>|
        is_tally(combined, rows) && is_stable_sort(rows, b.top_label_values@, order);
    assert forall|p: int, q: int|
        #![trigger rows_a[p], rows_a[q]]
        0 <= p < rows_a.len() && 0 <= q < rows_a.len() implies rows_a[p].outranks(&rows_a[q])
        == rows_b[p].outranks(&rows_b[q]) by {
        assert(rows_a[p].1 == rows_b[p].1);
        assert(rows_a[q].1 == rows_b[q].1);
    }
    stable_order_is_unique(
        rows_a,
        a.top_label_values@,
        order_a,
        rows_b,
        b.top_label_values@,
        order_b,
    );
    assert forall|k: int| 0 <= k < rows_a.len() implies a.top_label_values@[k].0@
        == b.top_label_values@[k].0@ && a.top_label_values@[k].1 == b.top_label_values@[k].1 by {
        let p = order_a[k];
        assert(a.top_label_values@[k] == rows_a[p]);
        assert(b.top_label_values@[k] == rows_b[order_b[k]]);
        assert(rows_a[p].0@ == rows_b[p].0@);
    }
    assert(row_views(a.top_label_values@) =~= row_views(b.top_label_values@));
}

} // verus!
