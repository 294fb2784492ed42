//! Listings built from the rows that the store hands back: the index of
//! topics with their subtopics, and plain lists of names.

use vstd::prelude::*;
use crate::order::comes_before;
use crate::order::lemma_name_order_irreflexive;
use crate::order::lemma_name_order_total;
use crate::order::lemma_name_order_transitive;
use crate::order::name_before;
use crate::order::strictly_ascending;

verus! {

/// The topic that a row of the index query belongs to. A row that could not
/// be read belongs to none.
pub open spec fn row_topic(row: Option<(Seq<char>, Option<Seq<char>>)>) -> Option<Seq<char>> {
    match row {
        Some(pair) => Some(pair.0),
        None => None,
    }
}

/// The subtopic that a row lists under `topic`, if it lists one: the row was
/// read, belongs to `topic`, and its subtopic is not null.
pub open spec fn row_subtopic(row: Option<(Seq<char>, Option<Seq<char>>)>, topic: Seq<char>) -> Option<
    Seq<char>,
> {
    match row {
        Some(pair) => if pair.0 == topic {
            pair.1
        } else {
            None
        },
        None => None,
    }
}

/// Some row of `rows` belongs to `topic`.
pub open spec fn mentions(rows: Seq<Option<(Seq<char>, Option<Seq<char>>)>>, topic: Seq<char>) -> bool {
    exists|i: int| 0 <= i < rows.len() && row_topic(#[trigger] rows[i]) == Some(topic)
}

/// The subtopics that `rows` list under `topic`, in the order of the rows.
pub open spec fn subtopics_of(rows: Seq<Option<(Seq<char>, Option<Seq<char>>)>>, topic: Seq<char>) -> Seq<
    Seq<char>,
> {
    rows.filter_map(|row: Option<(Seq<char>, Option<Seq<char>>)>| row_subtopic(row, topic))
}

/// The topic of each group, in the order of the groups.
pub open spec fn group_names(groups: Seq<(Seq<char>, Seq<Seq<char>>)>) -> Seq<Seq<char>> {
    groups.map_values(|group: (Seq<char>, Seq<Seq<char>>)| group.0)
}

/// `names` and `groups` are the index of `rows`: `names` holds each topic
/// that a row belongs to once, in ascending order, and `groups` pairs each
/// of them, in that order, with the subtopics that the rows list under it,
/// in the order of the rows.
pub open spec fn is_listing_of(
    names: Seq<Seq<char>>,
    groups: Seq<(Seq<char>, Seq<Seq<char>>)>,
    rows: Seq<Option<(Seq<char>, Option<Seq<char>>)>>,
) -> bool {
    &&& strictly_ascending(names)
    &&& forall|topic: Seq<char>| #[trigger] names.contains(topic) <==> mentions(rows, topic)
    &&& groups.len() == names.len()
    &&& forall|i: int|
        0 <= i < names.len() ==> (#[trigger] groups[i]).0 == names[i] && groups[i].1 == subtopics_of(
            rows,
            names[i],
        )
}

/// No name stands twice among the groups.
pub open spec fn distinct_names(groups: Seq<(Seq<char>, Seq<Seq<char>>)>) -> bool {
    forall|i: int, j: int| 0 <= i < j < groups.len() ==> (#[trigger] groups[i]).0 != (#[trigger] groups[j]).0
}

/// The names of the rows that could be read, in the order of the rows.
pub open spec fn readable_names(rows: Seq<Option<Seq<char>>>) -> Seq<Seq<char>> {
    rows.filter_map(|row: Option<Seq<char>>| row)
}

/// No topic stands twice in an index, so that a template can look up the
/// subtopics of a topic by its name.
pub proof fn lemma_listing_names_distinct(
    names: Seq<Seq<char>>,
    groups: Seq<(Seq<char>, Seq<Seq<char>>)>,
    rows: Seq<Option<(Seq<char>, Option<Seq<char>>)>>,
)
    requires
        is_listing_of(names, groups, rows),
    ensures
        distinct_names(groups),
{
    assert forall|i: int, j: int| 0 <= i < j < groups.len() implies (#[trigger] groups[i]).0
        != (#[trigger] groups[j]).0 by {
        assert(name_before(names[i], names[j]));
        lemma_name_order_irreflexive(names[i]);
    }
}

proof fn lemma_ascending_names_unique(a: Seq<Seq<char>>, b: Seq<Seq<char>>)
    requires
        strictly_ascending(a),
        strictly_ascending(b),
        forall|name: Seq<char>| #[trigger] a.contains(name) <==> b.contains(name),
    ensures
        a == b,
    decreases a.len(),
{
    if a.len() == 0 {
        if b.len() > 0 {
            assert(b.contains(b[0]));
            assert(a.contains(b[0]));
        }
        assert(a =~= b);
    } else if b.len() == 0 {
        assert(a.contains(a[0]));
        assert(b.contains(a[0]));
    } else {
        let x = a.last();
        let y = b.last();
        assert(a.contains(x));
        assert(b.contains(y));
        assert(b.contains(x));
        assert(a.contains(y));
        let j = choose|j: int| 0 <= j < b.len() && b[j] == x;
        let i = choose|i: int| 0 <= i < a.len() && a[i] == y;
        if x != y {
            assert(name_before(a[i], a[a.len() - 1]));
            assert(name_before(b[j], b[b.len() - 1]));
            lemma_name_order_transitive(x, y, x);
            lemma_name_order_irreflexive(x);
        }
        let shorter_a = a.drop_last();
        let shorter_b = b.drop_last();
        assert forall|name: Seq<char>| #[trigger] shorter_a.contains(name) <==> shorter_b.contains(name) by {
            lemma_name_order_irreflexive(x);
            if shorter_a.contains(name) {
                let k = choose|k: int| 0 <= k < shorter_a.len() && shorter_a[k] == name;
                assert(name_before(a[k], a[a.len() - 1]));
                assert(a.contains(name));
                assert(b.contains(name));
                let m = choose|m: int| 0 <= m < b.len() && b[m] == name;
                assert(shorter_b[m] == name);
            }
            if shorter_b.contains(name) {
                let k = choose|k: int| 0 <= k < shorter_b.len() && shorter_b[k] == name;
                assert(name_before(b[k], b[b.len() - 1]));
                assert(b.contains(name));
                assert(a.contains(name));
                let m = choose|m: int| 0 <= m < a.len() && a[m] == name;
                assert(shorter_a[m] == name);
            }
        }
        assert(strictly_ascending(shorter_a)) by {
            assert forall|p: int, q: int| 0 <= p < q < shorter_a.len() implies name_before(
                shorter_a[p],
                shorter_a[q],
            ) by {
                assert(name_before(a[p], a[q]));
            }
        }
        assert(strictly_ascending(shorter_b)) by {
            assert forall|p: int, q: int| 0 <= p < q < shorter_b.len() implies name_before(
                shorter_b[p],
                shorter_b[q],
            ) by {
                assert(name_before(b[p], b[q]));
            }
        }
        lemma_ascending_names_unique(shorter_a, shorter_b);
        assert(a =~= shorter_a.push(x));
        assert(b =~= shorter_b.push(y));
    }
}

/// Rows have one index: two listings of the same rows hold the same names
/// and the same groups.
pub proof fn lemma_listing_unique(
    names: Seq<Seq<char>>,
    groups: Seq<(Seq<char>, Seq<Seq<char>>)>,
    other_names: Seq<Seq<char>>,
    other_groups: Seq<(Seq<char>, Seq<Seq<char>>)>,
    rows: Seq<Option<(Seq<char>, Option<Seq<char>>)>>,
)
    requires
        is_listing_of(names, groups, rows),
        is_listing_of(other_names, other_groups, rows),
    ensures
        names == other_names,
        groups == other_groups,
{
    lemma_ascending_names_unique(names, other_names);
    assert forall|i: int| 0 <= i < groups.len() implies groups[i] == other_groups[i] by {
        assert(groups[i].0 == names[i]);
        assert(other_groups[i].0 == names[i]);
    }
    assert(groups =~= other_groups);
}

proof fn lemma_subtopics_push(
    rows: Seq<Option<(Seq<char>, Option<Seq<char>>)>>,
    row: Option<(Seq<char>, Option<Seq<char>>)>,
    topic: Seq<char>,
)
    ensures
        subtopics_of(rows.push(row), topic) == match row_subtopic(row, topic) {
            Some(subtopic) => subtopics_of(rows, topic).push(subtopic),
            None => subtopics_of(rows, topic),
        },
{
    let longer = rows.push(row);
    assert(longer.drop_last() =~= rows);
    assert(longer.last() == row);
    match row_subtopic(row, topic) {
        Some(subtopic) => {
            assert(subtopics_of(rows, topic) + seq![subtopic] =~= subtopics_of(rows, topic).push(subtopic));
        },
        None => {},
    }
}

proof fn lemma_mentions_push(
    rows: Seq<Option<(Seq<char>, Option<Seq<char>>)>>,
    row: Option<(Seq<char>, Option<Seq<char>>)>,
    topic: Seq<char>,
)
    ensures
        mentions(rows.push(row), topic) <==> mentions(rows, topic) || row_topic(row) == Some(topic),
{
    let longer = rows.push(row);
    if mentions(rows, topic) {
        let i = choose|i: int| 0 <= i < rows.len() && row_topic(#[trigger] rows[i]) == Some(topic);
        assert(longer[i] == rows[i]);
    }
    if row_topic(row) == Some(topic) {
        assert(longer[rows.len() as int] == row);
    }
    if mentions(longer, topic) {
        let i = choose|i: int| 0 <= i < longer.len() && row_topic(#[trigger] longer[i]) == Some(topic);
        if i < rows.len() {
            assert(longer[i] == rows[i]);
        }
    }
}

proof fn lemma_subtopics_unmentioned(rows: Seq<Option<(Seq<char>, Option<Seq<char>>)>>, topic: Seq<char>)
    requires
        !mentions(rows, topic),
    ensures
        subtopics_of(rows, topic) == Seq::<Seq<char>>::empty(),
    decreases rows.len(),
{
    if rows.len() > 0 {
        let shorter = rows.drop_last();
        assert(rows =~= shorter.push(rows.last()));
        lemma_mentions_push(shorter, rows.last(), topic);
        lemma_subtopics_push(shorter, rows.last(), topic);
        lemma_subtopics_unmentioned(shorter, topic);
    }
}

proof fn lemma_row_skipped(
    groups: Seq<(Seq<char>, Seq<Seq<char>>)>,
    rows: Seq<Option<(Seq<char>, Option<Seq<char>>)>>,
    row: Option<(Seq<char>, Option<Seq<char>>)>,
)
    requires
        is_listing_of(group_names(groups), groups, rows),
        row is None,
    ensures
        is_listing_of(group_names(groups), groups, rows.push(row)),
{
    let names = group_names(groups);
    let longer = rows.push(row);
    assert forall|topic: Seq<char>| #[trigger] names.contains(topic) <==> mentions(longer, topic) by {
        lemma_mentions_push(rows, row, topic);
    }
    assert forall|i: int| 0 <= i < names.len() implies (#[trigger] groups[i]).0 == names[i] && groups[i].1
        == subtopics_of(longer, names[i]) by {
        lemma_subtopics_push(rows, row, names[i]);
    }
}

proof fn lemma_row_joins_group(
    groups: Seq<(Seq<char>, Seq<Seq<char>>)>,
    rows: Seq<Option<(Seq<char>, Option<Seq<char>>)>>,
    row: (Seq<char>, Option<Seq<char>>),
    p: int,
    after: Seq<(Seq<char>, Seq<Seq<char>>)>,
)
    requires
        is_listing_of(group_names(groups), groups, rows),
        0 <= p < groups.len(),
        groups[p].0 == row.0,
        after.len() == groups.len(),
        forall|i: int| 0 <= i < groups.len() && i != p ==> after[i] == groups[i],
        after[p].0 == row.0,
        after[p].1 == match row.1 {
            Some(subtopic) => groups[p].1.push(subtopic),
            None => groups[p].1,
        },
    ensures
        is_listing_of(group_names(after), after, rows.push(Some(row))),
{
    let names = group_names(groups);
    let longer = rows.push(Some(row));
    assert(group_names(after) =~= names);
    assert(names[p] == row.0);
    assert forall|topic: Seq<char>| #[trigger] names.contains(topic) <==> mentions(longer, topic) by {
        lemma_mentions_push(rows, Some(row), topic);
    }
    assert forall|i: int| 0 <= i < names.len() implies (#[trigger] after[i]).0 == names[i] && after[i].1
        == subtopics_of(longer, names[i]) by {
        lemma_subtopics_push(rows, Some(row), names[i]);
        assert(groups[i].0 == names[i]);
        if i != p {
            if names[i] == row.0 {
                if i < p {
                    assert(name_before(names[i], names[p]));
                } else {
                    assert(name_before(names[p], names[i]));
                }
                lemma_name_order_irreflexive(row.0);
            }
        }
    }
}

proof fn lemma_row_opens_group(
    groups: Seq<(Seq<char>, Seq<Seq<char>>)>,
    rows: Seq<Option<(Seq<char>, Option<Seq<char>>)>>,
    row: (Seq<char>, Option<Seq<char>>),
    p: int,
    after: Seq<(Seq<char>, Seq<Seq<char>>)>,
)
    requires
        is_listing_of(group_names(groups), groups, rows),
        0 <= p <= groups.len(),
        forall|i: int| 0 <= i < p ==> name_before(#[trigger] groups[i].0, row.0),
        p < groups.len() ==> !name_before(groups[p].0, row.0) && groups[p].0 != row.0,
        after == groups.insert(
            p,
            (
                row.0,
                match row.1 {
                    Some(subtopic) => Seq::<Seq<char>>::empty().push(subtopic),
                    None => Seq::<Seq<char>>::empty(),
                },
            ),
        ),
    ensures
        is_listing_of(group_names(after), after, rows.push(Some(row))),
{
    let names = group_names(groups);
    let longer = rows.push(Some(row));
    let later = group_names(after);
    assert(later =~= names.insert(p, row.0));
    // The new topic stands before every group from `p` on.
    assert forall|i: int| p <= i < names.len() implies name_before(row.0, #[trigger] names[i]) by {
        assert(groups[p].0 == names[p]);
        lemma_name_order_total(row.0, names[p]);
        if p < i {
            assert(name_before(names[p], names[i]));
            lemma_name_order_transitive(row.0, names[p], names[i]);
        }
    }
    assert forall|i: int| 0 <= i < p implies name_before(#[trigger] names[i], row.0) by {
        assert(groups[i].0 == names[i]);
    }
    assert(strictly_ascending(later)) by {
        assert forall|i: int, j: int| 0 <= i < j < later.len() implies name_before(later[i], later[j]) by {
            if j < p {
                assert(later[i] == names[i] && later[j] == names[j]);
            } else if j == p {
                assert(later[i] == names[i]);
            } else if i < p {
                assert(later[i] == names[i] && later[j] == names[j - 1]);
                if j - 1 == i {
                } else {
                    assert(name_before(names[i], names[j - 1]));
                }
                lemma_name_order_transitive(names[i], row.0, names[j - 1]);
            } else if i == p {
                assert(later[j] == names[j - 1]);
            } else {
                assert(later[i] == names[i - 1] && later[j] == names[j - 1]);
            }
        }
    }
    // It is new among the names, so no earlier row belongs to it.
    assert(!names.contains(row.0)) by {
        if names.contains(row.0) {
            let i = choose|i: int| 0 <= i < names.len() && names[i] == row.0;
            lemma_name_order_irreflexive(row.0);
            if i < p {
                assert(name_before(names[i], row.0));
            } else {
                assert(name_before(row.0, names[i]));
            }
        }
    }
    lemma_subtopics_unmentioned(rows, row.0);
    assert forall|topic: Seq<char>| #[trigger] later.contains(topic) <==> mentions(longer, topic) by {
        lemma_mentions_push(rows, Some(row), topic);
        if later.contains(topic) {
            let i = choose|i: int| 0 <= i < later.len() && later[i] == topic;
            if i < p {
                assert(names[i] == topic);
            } else if i > p {
                assert(names[i - 1] == topic);
            }
        }
        if names.contains(topic) {
            let i = choose|i: int| 0 <= i < names.len() && names[i] == topic;
            if i < p {
                assert(later[i] == topic);
            } else {
                assert(later[i + 1] == topic);
            }
        }
        if topic == row.0 {
            assert(later[p] == topic);
        }
    }
    assert forall|i: int| 0 <= i < later.len() implies (#[trigger] after[i]).0 == later[i] && after[i].1
        == subtopics_of(longer, later[i]) by {
        lemma_subtopics_push(rows, Some(row), later[i]);
        if i < p {
            assert(after[i] == groups[i]);
            assert(names[i] == later[i]);
            assert(name_before(names[i], row.0));
            lemma_name_order_irreflexive(row.0);
        } else if i == p {
        } else {
            assert(after[i] == groups[i - 1]);
            assert(names[i - 1] == later[i]);
            assert(name_before(row.0, names[i - 1]));
            lemma_name_order_irreflexive(row.0);
        }
    }
}

/// The place of `topic` among `groups`: the first group whose topic does
/// not come before it.
fn place_of(groups: &Vec<(String, Vec<String>)>, topic: &String) -> (p: usize)
    requires
        strictly_ascending(group_names(groups.deep_view())),
    ensures
        p <= groups.len(),
        forall|i: int| 0 <= i < p ==> name_before(#[trigger] groups.deep_view()[i].0, topic@),
        p < groups.len() ==> !name_before(groups.deep_view()[p as int].0, topic@),
{
    let mut p: usize = 0;
    while p < groups.len() && comes_before(groups[p].0.as_str(), topic.as_str())
        invariant
            p <= groups.len(),
            forall|i: int| 0 <= i < p ==> name_before(#[trigger] groups.deep_view()[i].0, topic@),
        decreases groups.len() - p,
    {
        p += 1;
    }
    p
}

/// Builds the index from the rows of the index query, each a topic with one
/// of its subtopics, or with none where the topic has no subtopic. A row
/// that could not be read is `None` and is passed over.
///
/// The first part of the result holds each topic once, in ascending order;
/// the second pairs each of them, in the same order, with its subtopics in
/// the order in which the rows came.
pub fn get_topics_and_subtopics(rows: &Vec<Option<(String, Option<String>)>>) -> (listing: (
    Vec<String>,
    Vec<(String, Vec<String>)>,
))
    ensures
        is_listing_of(listing.0.deep_view(), listing.1.deep_view(), rows.deep_view()),
{
    let mut groups: Vec<(String, Vec<String>)> = Vec::new();
    let mut n: usize = 0;
    assert(rows.deep_view().take(0) =~= Seq::empty());
    assert(group_names(groups.deep_view()) =~= Seq::empty());
    while n < rows.len()
        invariant
            n <= rows.len(),
            is_listing_of(
                group_names(groups.deep_view()),
                groups.deep_view(),
                rows.deep_view().take(n as int),
            ),
        decreases rows.len() - n,
    {
        let ghost before = groups.deep_view();
        let ghost seen = rows.deep_view().take(n as int);
        assert(rows.deep_view().take(n + 1) =~= seen.push(rows.deep_view()[n as int]));
        match &rows[n] {
            None => {
                proof {
                    lemma_row_skipped(before, seen, rows.deep_view()[n as int]);
                }
            },
            Some(row) => {
                let ghost row_view = rows.deep_view()[n as int]->0;
                let p = place_of(&groups, &row.0);
                if p < groups.len() && groups[p].0 == row.0 {
                    match &row.1 {
                        Some(subtopic) => {
                            groups[p].1.push(subtopic.clone());
                        },
                        None => {},
                    }
                    proof {
                        let after = groups.deep_view();
                        assert(after[p as int].1 =~= match row_view.1 {
                            Some(subtopic) => before[p as int].1.push(subtopic),
                            None => before[p as int].1,
                        });
                        lemma_row_joins_group(before, seen, row_view, p as int, after);
                    }
                } else {
                    let mut subtopics: Vec<String> = Vec::new();
                    match &row.1 {
                        Some(subtopic) => {
                            subtopics.push(subtopic.clone());
                        },
                        None => {},
                    }
                    let ghost opened = (row_view.0, subtopics.deep_view());
                    groups.insert(p, (row.0.clone(), subtopics));
                    proof {
                        let after = groups.deep_view();
                        assert(opened.1 =~= match row_view.1 {
                            Some(subtopic) => Seq::<Seq<char>>::empty().push(subtopic),
                            None => Seq::<Seq<char>>::empty(),
                        });
                        assert(after =~= before.insert(p as int, opened));
                        lemma_row_opens_group(before, seen, row_view, p as int, after);
                    }
                }
            },
        }
        n += 1;
    }
    assert(rows.deep_view().take(n as int) =~= rows.deep_view());
    let mut names: Vec<String> = Vec::new();
    let mut k: usize = 0;
    while k < groups.len()
        invariant
            k <= groups.len(),
            names.deep_view() =~= group_names(groups.deep_view()).take(k as int),
        decreases groups.len() - k,
    {
        let ghost listed = names.deep_view();
        names.push(groups[k].0.clone());
        assert(names.deep_view() =~= listed.push(groups.deep_view()[k as int].0));
        k += 1;
    }
    assert(names.deep_view() =~= group_names(groups.deep_view()));
    (names, groups)
}

/// The names among `rows` that could be read, in the order of the rows: a
/// row that could not be read is `None` and is passed over.
pub fn readable(rows: &Vec<Option<String>>) -> (names: Vec<String>)
    ensures
        names.deep_view() == readable_names(rows.deep_view()),
{
    let mut names: Vec<String> = Vec::new();
    let mut n: usize = 0;
    assert(rows.deep_view().take(0) =~= Seq::empty());
    while n < rows.len()
        invariant
            n <= rows.len(),
            names.deep_view() =~= readable_names(rows.deep_view().take(n as int)),
        decreases rows.len() - n,
    {
        let ghost seen = rows.deep_view().take(n as int);
        let ghost longer = rows.deep_view().take(n + 1);
        assert(longer.drop_last() =~= seen);
        assert(longer.last() == rows.deep_view()[n as int]);
        match &rows[n] {
            Some(name) => {
                names.push(name.clone());
            },
            None => {},
        }
        n += 1;
    }
    assert(rows.deep_view().take(n as int) =~= rows.deep_view());
    names
}

} // verus!
