//! Which posts of an account are shown in detail.
//!
//! A post is shown if it carries a label in force. Where the account itself
//! is labelled, the first posts without a label are shown too, up to a
//! fixed number of them.

use crate::text::same_text;
use crate::types::{AtRecord, Label};
use vstd::prelude::*;

verus! {

/// How many posts without a label are shown for a labelled account.
pub const DISPLAY_LIMIT: usize = 10;

/// The labels in force among `labels` whose subject is `uri`, in order.
pub open spec fn active_on(labels: Seq<Label>, uri: Seq<char>) -> Seq<Label>
    decreases labels.len(),
{
    if labels.len() == 0 {
        Seq::empty()
    } else {
        let before = active_on(labels.drop_last(), uri);
        if !labels.last().neg && labels.last().uri@ == uri {
            before.push(labels.last())
        } else {
            before
        }
    }
}

/// How many of the first `i` posts carry no label in force.
pub open spec fn unlabelled_before(posts: Seq<AtRecord>, labels: Seq<Label>, i: int) -> nat
    decreases i,
{
    if i <= 0 {
        0
    } else {
        unlabelled_before(posts, labels, i - 1) + if active_on(labels, posts[i - 1].uri@).len()
            == 0 {
            1nat
        } else {
            0nat
        }
    }
}

/// Whether post `i` is shown: it carries a label in force, or the account
/// is labelled and fewer than `DISPLAY_LIMIT` posts without a label stand
/// before it.
pub open spec fn is_selected(posts: Seq<AtRecord>, labels: Seq<Label>, moderated: bool, i: int) -> bool {
    active_on(labels, posts[i].uri@).len() > 0 || (moderated && unlabelled_before(
        posts,
        labels,
        i,
    ) < DISPLAY_LIMIT)
}

/// The places of the posts that are shown among the first `n`, ascending.
pub open spec fn selected_upto(posts: Seq<AtRecord>, labels: Seq<Label>, moderated: bool, n: int) -> Seq<
    int,
>
    decreases n,
{
    if n <= 0 {
        Seq::empty()
    } else {
        let before = selected_upto(posts, labels, moderated, n - 1);
        if is_selected(posts, labels, moderated, n - 1) {
            before.push(n - 1)
        } else {
            before
        }
    }
}

/// The labels in force among `labels` whose subject is `uri`, in order.
pub fn labels_for(labels: &Vec<Label>, uri: &str) -> (found: Vec<Label>)
    ensures
        found@ == active_on(labels@, uri@),
{
    let mut found: Vec<Label> = Vec::new();
    let mut i: usize = 0;
    while i < labels.len()
        invariant
            i <= labels.len(),
            found@ == active_on(labels@.take(i as int), uri@),
        decreases labels.len() - i,
    {
        assert(labels@.take(i as int + 1).drop_last() =~= labels@.take(i as int));
        if !labels[i].neg && same_text(labels[i].uri.as_str(), uri) {
            found.push(labels[i].duplicate());
        }
        i = i + 1;
    }
    assert(labels@.take(labels@.len() as int) =~= labels@);
    found
}

/// Whether any label in force among `labels` has the subject `uri`.
pub fn has_label(labels: &Vec<Label>, uri: &str) -> (r: bool)
    ensures
        r == (active_on(labels@, uri@).len() > 0),
{
    let mut i: usize = 0;
    while i < labels.len()
        invariant
            i <= labels.len(),
            active_on(labels@.take(i as int), uri@).len() == 0,
        decreases labels.len() - i,
    {
        assert(labels@.take(i as int + 1).drop_last() =~= labels@.take(i as int));
        if !labels[i].neg && same_text(labels[i].uri.as_str(), uri) {
            proof {
                lemma_active_on_grows(labels@, uri@, i as int + 1);
            }
            return true;
        }
        i = i + 1;
    }
    assert(labels@.take(labels@.len() as int) =~= labels@);
    false
}

proof fn lemma_active_on_grows(labels: Seq<Label>, uri: Seq<char>, n: int)
    requires
        0 <= n <= labels.len(),
    ensures
        active_on(labels.take(n), uri).len() <= active_on(labels, uri).len(),
    decreases labels.len() - n,
{
    if n < labels.len() {
        assert(labels.take(n + 1).drop_last() =~= labels.take(n));
        lemma_active_on_grows(labels, uri, n + 1);
    } else {
        assert(labels.take(n) =~= labels);
    }
}

/// The places of the posts that are shown, ascending.
pub fn select_for_display(posts: &Vec<AtRecord>, labels: &Vec<Label>, moderated: bool) -> (chosen:
    Vec<usize>)
    ensures
        chosen@.len() == selected_upto(posts@, labels@, moderated, posts@.len() as int).len(),
        forall|k: int|
            0 <= k < chosen@.len() ==> #[trigger] chosen@[k] == selected_upto(
                posts@,
                labels@,
                moderated,
                posts@.len() as int,
            )[k],
{
    let mut chosen: Vec<usize> = Vec::new();
    let mut unlabelled: usize = 0;
    let mut i: usize = 0;
    while i < posts.len()
        invariant
            i <= posts.len(),
            unlabelled == unlabelled_before(posts@, labels@, i as int),
            unlabelled <= i,
            chosen@.len() == selected_upto(posts@, labels@, moderated, i as int).len(),
            forall|k: int|
                0 <= k < chosen@.len() ==> #[trigger] chosen@[k] == selected_upto(
                    posts@,
                    labels@,
                    moderated,
                    i as int,
                )[k],
        decreases posts.len() - i,
    {
        let labelled = has_label(labels, posts[i].uri.as_str());
        if labelled || (moderated && unlabelled < DISPLAY_LIMIT) {
            chosen.push(i);
        }
        if !labelled {
            unlabelled = unlabelled + 1;
        }
        i = i + 1;
    }
    chosen
}

/// On a labelled account none of whose posts carries a label, the first
/// `DISPLAY_LIMIT` posts are shown, or all of them where there are fewer.
pub proof fn moderated_account_shows_first_posts(posts: Seq<AtRecord>, labels: Seq<Label>, n: int)
    requires
        0 <= n <= posts.len(),
        forall|i: int| 0 <= i < posts.len() ==> active_on(labels, (#[trigger] posts[i]).uri@).len() == 0,
    ensures
        unlabelled_before(posts, labels, n) == n,
        selected_upto(posts, labels, true, n).len() == if n < DISPLAY_LIMIT {
            n
        } else {
            DISPLAY_LIMIT as int
        },
        selected_upto(posts, labels, false, n).len() == 0,
    decreases n,
{
    if n > 0 {
        moderated_account_shows_first_posts(posts, labels, n - 1);
        assert(active_on(labels, posts[n - 1].uri@).len() == 0);
    }
}

/// Every post that carries a label in force is shown.
pub proof fn labelled_posts_are_shown(
    posts: Seq<AtRecord>,
    labels: Seq<Label>,
    moderated: bool,
    n: int,
    i: int,
)
    requires
        0 <= i < n <= posts.len(),
    ensures
        selected_upto(posts, labels, moderated, n).contains(i) == is_selected(
            posts,
            labels,
            moderated,
            i,
        ),
        forall|k: int|
            0 <= k < selected_upto(posts, labels, moderated, n).len() ==> 0 <= #[trigger] selected_upto(
                posts,
                labels,
                moderated,
                n,
            )[k] < n,
    decreases n,
{
    let all = selected_upto(posts, labels, moderated, n);
    let before = selected_upto(posts, labels, moderated, n - 1);
    if i < n - 1 {
        labelled_posts_are_shown(posts, labels, moderated, n - 1, i);
        if is_selected(posts, labels, moderated, i) {
            let k = choose|k: int| 0 <= k < before.len() && before[k] == i;
            assert(all[k] == i);
        } else if all.contains(i) {
            let k = choose|k: int| 0 <= k < all.len() && all[k] == i;
            assert(before[k] == i);
        }
    } else {
        if n - 1 > 0 {
            labelled_posts_are_shown(posts, labels, moderated, n - 1, 0);
        }
        if is_selected(posts, labels, moderated, i) {
            assert(all[all.len() - 1] == i);
        } else if all.contains(i) {
            let k = choose|k: int| 0 <= k < all.len() && all[k] == i;
            assert(before[k] == i);
        }
    }
}

} // verus!
