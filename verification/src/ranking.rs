//! Assembly of a contest's final standings from its (user, problem) rows.
use vstd::prelude::*;
use crate::model::{FinalRanking, PublicRankingItems, RankingItems};

verus! {

/// A final standing with its problems as a sequence.
pub struct RankingRow {
    pub user_id: i64,
    pub user_name: String,
    pub points: i32,
    pub penalty: i32,
    pub problems: Seq<PublicRankingItems>,
}

pub open spec fn row_of(f: FinalRanking) -> RankingRow {
    RankingRow {
        user_id: f.user_id,
        user_name: f.user_name,
        points: f.points,
        penalty: f.penalty,
        problems: f.problems@,
    }
}

pub open spec fn rows_of(fs: Seq<FinalRanking>) -> Seq<RankingRow> {
    fs.map_values(|f: FinalRanking| row_of(f))
}

/// The shown part of a ranking item.
pub open spec fn public_item(item: RankingItems) -> PublicRankingItems {
    PublicRankingItems {
        problem_id: item.problem_id,
        problem_order: item.problem_order,
        accepted: item.accepted,
    }
}

/// The standing that a user's first item opens.
pub open spec fn row_from_item(item: RankingItems) -> RankingRow {
    RankingRow {
        user_id: item.user_id,
        user_name: item.user_name,
        points: item.points,
        penalty: item.penalty,
        problems: seq![public_item(item)],
    }
}

/// `row` with the problem of `item` appended.
pub open spec fn row_extend(row: RankingRow, item: RankingItems) -> RankingRow {
    RankingRow { problems: row.problems.push(public_item(item)), ..row }
}

/// The standings of `items`: each maximal run of consecutive items with the
/// same user becomes one standing, whose user fields are those of the run's
/// first item and whose problems are the run's items, in order.
pub open spec fn group_rows(items: Seq<RankingItems>) -> Seq<RankingRow>
    decreases items.len(),
{
    if items.len() == 0 {
        seq![]
    } else {
        let prev = group_rows(items.drop_last());
        let item = items.last();
        if prev.len() > 0 && prev.last().user_id == item.user_id {
            prev.update(prev.len() - 1, row_extend(prev.last(), item))
        } else {
            prev.push(row_from_item(item))
        }
    }
}

impl PublicRankingItems {
    /// The shown part of a ranking item.
    pub fn from_private(item: RankingItems) -> (r: Self)
        ensures
            r == public_item(item),
    {
        PublicRankingItems {
            problem_id: item.problem_id,
            problem_order: item.problem_order,
            accepted: item.accepted,
        }
    }
}

/// The final standings built from `items`, which come ordered by standing
/// and, within a user, by problem order.
pub fn assemble_final_ranking(items: Vec<RankingItems>) -> (r: Vec<FinalRanking>)
    ensures
        rows_of(r@) == group_rows(items@),
{
    let ghost all = items@;
    let mut rows: Vec<FinalRanking> = Vec::new();
    for item in it: items.into_iter()
        invariant
            it.seq() == all,
            rows_of(rows@) == group_rows(all.take(it.index() as int)),
    {
        let ghost k = it.index() as int;
        assert(all.take(k + 1).drop_last() =~= all.take(k));
        assert(all.take(k + 1).last() == item);
        let len = rows.len();
        if len > 0 && rows[len - 1].user_id == item.user_id {
            let mut last = rows.pop().unwrap();
            last.problems.push(PublicRankingItems::from_private(item));
            rows.push(last);
            assert(rows_of(rows@) =~= group_rows(all.take(k + 1)));
        } else {
            let user_name = item.user_name.clone();
            let user_id = item.user_id;
            let points = item.points;
            let penalty = item.penalty;
            let mut problems: Vec<PublicRankingItems> = Vec::new();
            problems.push(PublicRankingItems::from_private(item));
            rows.push(FinalRanking { user_id, user_name, points, penalty, problems });
            assert(rows_of(rows@) =~= group_rows(all.take(k + 1)));
        }
    }
    assert(all.take(all.len() as int) =~= all);
    rows
}

/// A standing's problems, each tagged with the standing's user.
pub open spec fn tag_row(row: RankingRow) -> Seq<(i64, PublicRankingItems)> {
    row.problems.map_values(|p: PublicRankingItems| (row.user_id, p))
}

/// All standings' problems in order, each tagged with its user.
#[verifier::opaque]
pub open spec fn flat_tagged(rows: Seq<RankingRow>) -> Seq<(i64, PublicRankingItems)>
    decreases rows.len(),
{
    if rows.len() == 0 {
        seq![]
    } else {
        flat_tagged(rows.drop_last()) + tag_row(rows.last())
    }
}

/// Each item's shown part, tagged with its user.
pub open spec fn tagged_items(items: Seq<RankingItems>) -> Seq<(i64, PublicRankingItems)> {
    items.map_values(|it: RankingItems| (it.user_id, public_item(it)))
}

/// Where the items of standing `j` begin.
pub open spec fn row_start(rows: Seq<RankingRow>, j: int) -> int {
    flat_tagged(rows.take(j)).len() as int
}

proof fn lemma_group_step(items: Seq<RankingItems>)
    requires
        items.len() > 0,
    ensures
        ({
            let prev = group_rows(items.drop_last());
            let x = items.last();
            let rows = group_rows(items);
            if prev.len() > 0 && prev.last().user_id == x.user_id {
                &&& rows.len() == prev.len()
                &&& rows.drop_last() == prev.drop_last()
                &&& rows.last() == row_extend(prev.last(), x)
                &&& forall|j: int| 0 <= j < prev.len() - 1 ==> rows[j] == prev[j]
            } else {
                &&& rows == prev.push(row_from_item(x))
                &&& rows.drop_last() == prev
            }
        }),
{
    let prev = group_rows(items.drop_last());
    let x = items.last();
    if prev.len() > 0 && prev.last().user_id == x.user_id {
        assert(group_rows(items).drop_last() =~= prev.drop_last());
    } else {
        assert(group_rows(items).drop_last() =~= prev);
    }
}

proof fn lemma_group_flat(items: Seq<RankingItems>)
    ensures
        flat_tagged(group_rows(items)) == tagged_items(items),
    decreases items.len(),
{
    if items.len() == 0 {
        reveal(flat_tagged);
        assert(tagged_items(items) =~= seq![]);
    } else {
        let pre = items.drop_last();
        let x = items.last();
        lemma_group_flat(pre);
        lemma_group_step(items);
        let prev = group_rows(pre);
        let rows = group_rows(items);
        reveal(flat_tagged);
        assert(tagged_items(items) =~= tagged_items(pre).push((x.user_id, public_item(x))));
        if prev.len() > 0 && prev.last().user_id == x.user_id {
            let ext = row_extend(prev.last(), x);
            assert(tag_row(ext) =~= tag_row(prev.last()).push((x.user_id, public_item(x))));
            assert(flat_tagged(rows) =~= flat_tagged(prev).push((x.user_id, public_item(x))));
        } else {
            assert(tag_row(row_from_item(x)) =~= seq![(x.user_id, public_item(x))]);
            assert(flat_tagged(rows) =~= flat_tagged(prev).push((x.user_id, public_item(x))));
        }
    }
}

proof fn lemma_group_rows_nonempty_distinct(items: Seq<RankingItems>)
    ensures
        forall|j: int|
            0 <= j < group_rows(items).len() ==> #[trigger] group_rows(items)[j].problems.len()
                > 0,
        forall|j: int|
            0 < j < group_rows(items).len() ==> group_rows(items)[j - 1].user_id
                != #[trigger] group_rows(items)[j].user_id,
    decreases items.len(),
{
    if items.len() > 0 {
        let pre = items.drop_last();
        lemma_group_rows_nonempty_distinct(pre);
        lemma_group_step(items);
        let prev = group_rows(pre);
        let rows = group_rows(items);
        assert forall|j: int| 0 <= j < rows.len() implies #[trigger] rows[j].problems.len() > 0 by {
            if j < prev.len() {
                assert(prev[j].problems.len() > 0);
            }
        }
        assert forall|j: int| 0 < j < rows.len() implies rows[j - 1].user_id
            != #[trigger] rows[j].user_id by {
            if j < prev.len() {
                assert(prev[j].user_id != prev[j - 1].user_id);
            }
        }
    }
}

/// Standing `j` of `rows` starts at an item of its user that carries its
/// name, points and penalty.
pub open spec fn head_matches(items: Seq<RankingItems>, rows: Seq<RankingRow>, j: int) -> bool {
    let start = row_start(rows, j);
    &&& 0 <= start < items.len()
    &&& items[start].user_id == rows[j].user_id
    &&& items[start].user_name == rows[j].user_name
    &&& items[start].points == rows[j].points
    &&& items[start].penalty == rows[j].penalty
}

proof fn lemma_group_rows_heads(items: Seq<RankingItems>)
    ensures
        forall|j: int|
            0 <= j < group_rows(items).len() ==> #[trigger] head_matches(
                items,
                group_rows(items),
                j,
            ),
    decreases items.len(),
{
    if items.len() > 0 {
        let pre = items.drop_last();
        let x = items.last();
        lemma_group_rows_heads(pre);
        lemma_group_flat(pre);
        lemma_group_step(items);
        let prev = group_rows(pre);
        let rows = group_rows(items);
        assert forall|j: int| 0 <= j < rows.len() implies #[trigger] head_matches(
            items,
            rows,
            j,
        ) by {
            if j < prev.len() {
                assert(head_matches(pre, prev, j));
                assert(rows.take(j) =~= prev.take(j));
                let start = row_start(prev, j);
                assert(items[start] == pre[start]);
            } else {
                assert(rows.take(j) =~= prev);
                assert(flat_tagged(prev).len() == pre.len());
            }
        }
    }
}

/// The shape of the final standings:
/// - reading the standings' problems in order, each with its standing's user,
///   gives back every item (its user and shown part), in order: nothing is
///   lost, duplicated or moved to another user;
/// - every standing holds at least one problem;
/// - two neighbouring standings belong to different users, so each standing
///   is a maximal run of one user's items;
/// - a standing carries the name, points and penalty of the first item of its run.
pub proof fn lemma_final_ranking_shape(items: Seq<RankingItems>)
    ensures
        flat_tagged(group_rows(items)) == tagged_items(items),
        forall|j: int|
            0 <= j < group_rows(items).len() ==> #[trigger] group_rows(items)[j].problems.len()
                > 0,
        forall|j: int|
            0 < j < group_rows(items).len() ==> group_rows(items)[j - 1].user_id
                != #[trigger] group_rows(items)[j].user_id,
        forall|j: int|
            0 <= j < group_rows(items).len() ==> #[trigger] head_matches(
                items,
                group_rows(items),
                j,
            ),
{
    lemma_group_flat(items);
    lemma_group_rows_nonempty_distinct(items);
    lemma_group_rows_heads(items);
}

} // verus!
