//! View models the front end renders, and the verified assembly steps
//! behind them: picking a position's current state out of its history and
//! tallying the dashboard's per-stage quantities. Rendering itself is the
//! embedding program's job.

use vstd::pervasive::VecAdditionalExecFns;
use vstd::prelude::*;

use crate::schedule::{AccountData, CheckData, PositionData, StageData};

verus! {

/// The page shell: what to render and who is logged in.
pub struct Main {
    pub data: MainData,
    pub current_user: Option<AccountData>,
}

/// Which page the front end shows.
pub enum MainData {
    Login,
    UserManagement(DetailUsers),
    PositionManagement(DetailPositions),
    StageManagement(DetailStageConfig),
    Dashboard(Dashboard),
    Position(DetailPosition),
}

/// One position's page: its current state (latest check, latest watered
/// check, and the stage configuration) above its full history.
pub struct DetailPosition {
    pub current_card: (CheckData, CheckData, StageData),
    pub history: Vec<(CheckData, StageData)>,
}

/// The position management page.
pub struct DetailPositions {
    pub positions: Vec<PositionData>,
}

/// The account management page.
pub struct DetailUsers {
    pub users: Vec<AccountData>,
}

/// The stage configuration page.
pub struct DetailStageConfig {
    pub stages: Vec<StageData>,
}

/// The dashboard: one card per position with its latest check, and the
/// per-stage tallies.
pub struct Dashboard {
    pub cards: Vec<(PositionData, CheckData, StageData)>,
    pub detail: Vec<DashboardDetail>,
}

/// How many positions currently sit in one stage.
pub struct DashboardDetail {
    pub stage: String,
    pub quantity: u32,
}

/// Whether some tally entry carries the given label.
pub open spec fn spec_has_label(d: Seq<DashboardDetail>, label: Seq<char>) -> bool {
    exists|k: int| 0 <= k < d.len() && #[trigger] d[k].stage@ == label
}

/// How many cards carry the given stage label.
pub open spec fn spec_label_count(
    cards: Seq<(PositionData, CheckData, StageData)>,
    label: Seq<char>,
) -> int
    decreases cards.len(),
{
    if cards.len() == 0 {
        0
    } else {
        (if cards.last().2.stage@ == label {
            1int
        } else {
            0int
        }) + spec_label_count(cards.drop_last(), label)
    }
}

/// The index of the check a position's history shows as current: the
/// latest by creation time, the earliest of any ties, matching a left
/// fold that keeps the incumbent.
pub fn latest_check(history: &Vec<(CheckData, StageData)>) -> (r: Option<usize>)
    ensures
        history@.len() == 0 ==> r is None,
        history@.len() > 0 ==> (r matches Some(i) && 0 <= i < history@.len() && (forall|j: int|
            0 <= j < history@.len() ==> #[trigger] history@[j].0.created_ts
                <= history@[i as int].0.created_ts) && (forall|j: int|
            0 <= j < i ==> #[trigger] history@[j].0.created_ts < history@[i as int].0.created_ts)),
{
    if history.len() == 0 {
        return None;
    }
    let mut best: usize = 0;
    let mut k: usize = 1;
    while k < history.len()
        invariant
            1 <= history@.len(),
            0 <= best < k <= history@.len(),
            forall|j: int|
                0 <= j < k ==> #[trigger] history@[j].0.created_ts
                    <= history@[best as int].0.created_ts,
            forall|j: int|
                0 <= j < best ==> #[trigger] history@[j].0.created_ts
                    < history@[best as int].0.created_ts,
        decreases history@.len() - k,
    {
        if history[k].0.created_ts > history[best].0.created_ts {
            best = k;
        }
        k = k + 1;
    }
    Some(best)
}

/// Tallies the dashboard cards by stage label: one entry per distinct
/// label, in order of first appearance, counting exactly the cards that
/// carry it.
pub fn stage_counts(cards: &Vec<(PositionData, CheckData, StageData)>) -> (detail: Vec<
    DashboardDetail,
>)
    requires
        cards@.len() <= u32::MAX,
    ensures
        forall|k: int|
            0 <= k < detail@.len() ==> #[trigger] detail@[k].quantity == spec_label_count(
                cards@,
                detail@[k].stage@,
            ),
        forall|k: int, l: int|
            0 <= k < l < detail@.len() ==> #[trigger] detail@[k].stage@ != #[trigger] detail@[l].stage@,
        forall|i: int|
            0 <= i < cards@.len() ==> spec_has_label(detail@, #[trigger] cards@[i].2.stage@),
{
    let mut detail: Vec<DashboardDetail> = Vec::new();
    let mut i: usize = 0;
    while i < cards.len()
        invariant
            i <= cards@.len(),
            cards@.len() <= u32::MAX,
            forall|k: int|
                0 <= k < detail@.len() ==> #[trigger] detail@[k].quantity == spec_label_count(
                    cards@.take(i as int),
                    detail@[k].stage@,
                ),
            forall|k: int, l: int|
                0 <= k < l < detail@.len() ==> #[trigger] detail@[k].stage@ != #[trigger] detail@[l].stage@,
            forall|j: int|
                0 <= j < i ==> spec_has_label(detail@, #[trigger] cards@[j].2.stage@),
        decreases cards@.len() - i,
    {
        let label = &cards[i].2.stage;
        let mut k: usize = 0;
        let mut found = false;
        while k < detail.len() && !found
            invariant
                k <= detail@.len(),
                !found ==> forall|l: int| 0 <= l < k ==> #[trigger] detail@[l].stage@ != label@,
                found ==> k > 0 && detail@[k - 1].stage@ == label@,
            decreases detail@.len() - k + (if found {
                0int
            } else {
                1int
            }),
        {
            if detail[k].stage.eq(label) {
                found = true;
            }
            k = k + 1;
        }
        proof {
            lemma_label_count_step(cards@, i as int);
        }
        let ghost before = detail@;
        if found {
            proof {
                lemma_label_count_bound(cards@.take(i as int), label@);
            }
            let q = detail[k - 1].quantity;
            detail.set(k - 1, DashboardDetail { stage: label.clone(), quantity: q + 1 });
            proof {
                assert forall|m: int| 0 <= m < detail@.len() implies #[trigger] detail@[m].quantity
                    == spec_label_count(cards@.take(i as int + 1), detail@[m].stage@) by {
                    if m == k - 1 {
                    } else {
                        assert(before[m].stage@ != before[k - 1].stage@);
                    }
                }
                assert forall|j: int| 0 <= j < i + 1 implies spec_has_label(
                    detail@,
                    #[trigger] cards@[j].2.stage@,
                ) by {
                    if j < i {
                        let w = choose|w: int|
                            0 <= w < before.len() && #[trigger] before[w].stage@
                                == cards@[j].2.stage@;
                        assert(detail@[w].stage@ == cards@[j].2.stage@);
                    } else {
                        assert(detail@[k - 1].stage@ == cards@[j].2.stage@);
                    }
                }
            }
        } else {
            proof {
                if spec_label_count(cards@.take(i as int), label@) != 0 {
                    lemma_label_count_pos(cards@.take(i as int), label@);
                    let j = choose|j: int|
                        0 <= j < cards@.take(i as int).len() && #[trigger] cards@.take(
                            i as int,
                        )[j].2.stage@ == label@;
                    assert(cards@[j].2.stage@ == label@);
                    assert(spec_has_label(detail@, label@));
                    let k2 = choose|k2: int|
                        0 <= k2 < detail@.len() && #[trigger] detail@[k2].stage@ == label@;
                    assert(false);
                }
            }
            detail.push(DashboardDetail { stage: label.clone(), quantity: 1 });
            proof {
                assert forall|j: int| 0 <= j < i + 1 implies spec_has_label(
                    detail@,
                    #[trigger] cards@[j].2.stage@,
                ) by {
                    if j < i {
                        let w = choose|w: int|
                            0 <= w < before.len() && #[trigger] before[w].stage@
                                == cards@[j].2.stage@;
                        assert(detail@[w].stage@ == cards@[j].2.stage@);
                    } else {
                        assert(detail@[detail@.len() - 1].stage@ == cards@[j].2.stage@);
                    }
                }
                assert forall|m: int| 0 <= m < detail@.len() implies #[trigger] detail@[m].quantity
                    == spec_label_count(cards@.take(i as int + 1), detail@[m].stage@) by {
                    if m < detail@.len() - 1 {
                        assert(before[m].stage@ != label@);
                    }
                }
            }
        }
        i = i + 1;
    }
    proof {
        assert(cards@.take(cards@.len() as int) =~= cards@);
    }
    detail
}

/// A label count never exceeds the number of cards.
proof fn lemma_label_count_bound(cards: Seq<(PositionData, CheckData, StageData)>, label: Seq<char>)
    ensures
        0 <= spec_label_count(cards, label) <= cards.len(),
    decreases cards.len(),
{
    if cards.len() > 0 {
        lemma_label_count_bound(cards.drop_last(), label);
    }
}

/// A positive label count means some card carries the label.
proof fn lemma_label_count_pos(cards: Seq<(PositionData, CheckData, StageData)>, label: Seq<char>)
    requires
        spec_label_count(cards, label) != 0,
    ensures
        exists|j: int| 0 <= j < cards.len() && #[trigger] cards[j].2.stage@ == label,
    decreases cards.len(),
{
    if cards.len() > 0 {
        if cards.last().2.stage@ == label {
            assert(cards[cards.len() - 1].2.stage@ == label);
        } else {
            lemma_label_count_pos(cards.drop_last(), label);
            let j = choose|j: int|
                0 <= j < cards.drop_last().len() && #[trigger] cards.drop_last()[j].2.stage@
                    == label;
            assert(cards[j].2.stage@ == label);
        }
    }
}

/// Extending the tallied prefix by one card raises exactly that card's
/// label count by one.
proof fn lemma_label_count_step(cards: Seq<(PositionData, CheckData, StageData)>, i: int)
    requires
        0 <= i < cards.len(),
    ensures
        forall|label: Seq<char>|
            #[trigger] spec_label_count(cards.take(i + 1), label) == spec_label_count(
                cards.take(i),
                label,
            ) + (if cards[i].2.stage@ == label {
                1int
            } else {
                0int
            }),
{
    assert forall|label: Seq<char>|
        #[trigger] spec_label_count(cards.take(i + 1), label) == spec_label_count(
            cards.take(i),
            label,
        ) + (if cards[i].2.stage@ == label {
            1int
        } else {
            0int
        }) by {
        let t = cards.take(i + 1);
        assert(t.len() == i + 1);
        assert(t.last() == cards[i]);
        assert(t.drop_last() =~= cards.take(i));
    }
}

} // verus!
