use enyay_oj::model::{FinalRanking, PublicRankingItems, RankingItems};
use enyay_oj::ranking::assemble_final_ranking;

fn item(user_id: i64, name: &str, points: i32, penalty: i32, problem_id: i64, order: &str, accepted: bool) -> RankingItems {
    RankingItems {
        user_id,
        user_name: name.to_string(),
        points,
        penalty,
        problem_id,
        problem_order: order.to_string(),
        accepted,
    }
}

fn shown(problem_id: i64, order: &str, accepted: bool) -> PublicRankingItems {
    PublicRankingItems { problem_id, problem_order: order.to_string(), accepted }
}

#[test]
fn public_part_of_an_item() {
    let p = PublicRankingItems::from_private(item(4, "dan", 2, 90, 17, "B", true));
    assert_eq!(p, shown(17, "B", true));
}

#[test]
fn final_ranking_groups_each_user() {
    let items = vec![
        item(2, "bob", 2, 100, 10, "A", true),
        item(2, "bob", 2, 100, 11, "B", true),
        item(1, "amy", 1, 50, 10, "A", true),
        item(1, "amy", 1, 50, 11, "B", false),
        item(3, "cid", 0, 3, 10, "A", false),
    ];
    let ranks = assemble_final_ranking(items);
    assert_eq!(
        ranks,
        vec![
            FinalRanking {
                user_id: 2,
                user_name: "bob".to_string(),
                points: 2,
                penalty: 100,
                problems: vec![shown(10, "A", true), shown(11, "B", true)],
            },
            FinalRanking {
                user_id: 1,
                user_name: "amy".to_string(),
                points: 1,
                penalty: 50,
                problems: vec![shown(10, "A", true), shown(11, "B", false)],
            },
            FinalRanking {
                user_id: 3,
                user_name: "cid".to_string(),
                points: 0,
                penalty: 3,
                problems: vec![shown(10, "A", false)],
            },
        ]
    );
}

#[test]
fn final_ranking_of_no_items_is_empty() {
    assert!(assemble_final_ranking(Vec::new()).is_empty());
}

#[test]
fn final_ranking_keeps_every_item_in_order() {
    let items = vec![
        item(5, "eve", 3, 7, 1, "A", true),
        item(5, "eve", 3, 7, 2, "B", false),
        item(6, "fay", 1, 2, 1, "A", false),
        item(6, "fay", 1, 2, 2, "B", true),
        item(6, "fay", 1, 2, 3, "C", false),
    ];
    let expected: Vec<(i64, i64)> = items.iter().map(|i| (i.user_id, i.problem_id)).collect();
    let ranks = assemble_final_ranking(items);
    let flat: Vec<(i64, i64)> = ranks
        .iter()
        .flat_map(|r| r.problems.iter().map(move |p| (r.user_id, p.problem_id)))
        .collect();
    assert_eq!(flat, expected);
    for pair in ranks.windows(2) {
        assert_ne!(pair[0].user_id, pair[1].user_id);
    }
    assert!(ranks.iter().all(|r| !r.problems.is_empty()));
}

#[test]
fn final_ranking_splits_only_consecutive_runs() {
    let items = vec![
        item(1, "amy", 1, 1, 1, "A", true),
        item(2, "bob", 1, 1, 1, "A", true),
        item(1, "amy", 1, 1, 2, "B", false),
    ];
    let ranks = assemble_final_ranking(items);
    assert_eq!(ranks.len(), 3);
    assert_eq!(ranks[0].user_id, 1);
    assert_eq!(ranks[1].user_id, 2);
    assert_eq!(ranks[2].user_id, 1);
    assert_eq!(ranks[2].problems, vec![shown(2, "B", false)]);
}

#[test]
fn final_ranking_takes_header_from_first_item_of_run() {
    let items = vec![item(7, "gus", 4, 40, 1, "A", true), item(7, "gustav", 9, 99, 2, "B", true)];
    let ranks = assemble_final_ranking(items);
    assert_eq!(ranks.len(), 1);
    assert_eq!(ranks[0].user_name, "gus");
    assert_eq!(ranks[0].points, 4);
    assert_eq!(ranks[0].penalty, 40);
    assert_eq!(ranks[0].problems.len(), 2);
}
