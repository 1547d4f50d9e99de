//! Scheduling data and rules: per-stage configuration, check records, and
//! the "due for check" / "due for water" decisions that drive the scan loop.

use vstd::prelude::*;

verus! {

/// Relies on std::time::SystemTime::now measured against UNIX_EPOCH:
/// whole seconds since the epoch. Never negative: a pre-epoch clock reads
/// as zero, and a count past the signed range is clamped.
#[verifier::external_body]
pub fn timestamp() -> (ts: i64)
    ensures
        ts >= 0,
{
    let secs = std::time::SystemTime::now().duration_since(std::time::UNIX_EPOCH).unwrap_or(
        std::time::Duration::from_secs(0),
    ).as_secs();
    i64::try_from(secs).unwrap_or(i64::MAX)
}

/// A stored image row: the encoded bytes under their row id.
#[derive(Clone, Debug)]
pub struct ImageData {
    pub id: i64,
    pub image: Vec<u8>,
}

/// An operator account and its roles.
#[derive(Clone, Debug)]
pub struct AccountData {
    pub id: i64,
    pub username: String,
    pub password: String,
    pub is_admin: bool,
    pub is_manager: bool,
    pub is_watcher: bool,
}

/// A monitored grid position. Positions are soft-deleted: `active` is
/// cleared rather than the row removed, so history is preserved.
#[derive(Clone, Debug)]
pub struct PositionData {
    pub id: i64,
    pub active: bool,
    pub x: i64,
    pub y: i64,
}

/// Scheduling parameters for one growth-stage label: how often the stage is
/// re-checked, how often it is watered, and for how long.
#[derive(Clone, Debug)]
pub struct StageData {
    pub id: i64,
    pub stage: String,
    pub first_stage: bool,
    pub check_period: i64,
    pub water_period: i64,
    pub water_duration: i64,
}

/// One completed check of a position: when it ran, what stage was seen,
/// which stored image it produced, and whether the position was watered.
/// Records are immutable once created; the newest one is the position's
/// current state.
#[derive(Clone, Debug)]
pub struct CheckData {
    pub id: i64,
    pub created_ts: i64,
    pub position_id: i64,
    pub image_id: i64,
    pub stage_id: i64,
    pub watered: bool,
}

/// A position with no check record yet is always due; otherwise it is due
/// once `check_period` has elapsed since the last check.
pub open spec fn spec_check_due(now: int, last_check_ts: Option<int>, check_period: int) -> bool {
    match last_check_ts {
        Option::None => true,
        Option::Some(ts) => ts + check_period <= now,
    }
}

/// A position with no watered record yet is always due; a force-water
/// request is always due; otherwise it is due once `water_period` has
/// elapsed since the last watered record.
pub open spec fn spec_water_due(
    now: int,
    last_water_ts: Option<int>,
    water_period: int,
    force: bool,
) -> bool {
    ||| force
    ||| match last_water_ts {
        Option::None => true,
        Option::Some(ts) => ts + water_period <= now,
    }
}

/// Decides whether a position is due for a check at time `now`, given the
/// creation time of its most recent check record (if any) and the check
/// period of the stage that record reported.
pub fn check_due(now: i64, last_check: Option<&CheckData>, cfg: &StageData) -> (due: bool)
    ensures
        due == spec_check_due(
            now as int,
            match last_check {
                Option::None => Option::None,
                Option::Some(c) => Option::Some(c.created_ts as int),
            },
            cfg.check_period as int,
        ),
{
    match last_check {
        None => true,
        Some(c) => (c.created_ts as i128) + (cfg.check_period as i128) <= now as i128,
    }
}

/// Decides whether a position is due for watering at time `now`, given the
/// creation time of its most recent watered record (if any), the water
/// period of its current stage, and whether the operator forced watering.
pub fn water_due(now: i64, last_water: Option<&CheckData>, cfg: &StageData, force: bool) -> (due:
    bool)
    ensures
        due == spec_water_due(
            now as int,
            match last_water {
                Option::None => Option::None,
                Option::Some(c) => Option::Some(c.created_ts as int),
            },
            cfg.water_period as int,
            force,
        ),
{
    if force {
        true
    } else {
        match last_water {
            None => true,
            Some(c) => (c.created_ts as i128) + (cfg.water_period as i128) <= now as i128,
        }
    }
}

/// The conservative stage configuration a class label gets when the
/// detector reports a class with no stored configuration: not a first
/// stage, the fallback periods and duration.
pub fn fallback_stage(class: &String) -> (cfg: StageData)
    ensures
        cfg.id == 0,
        cfg.stage@ == class@,
        cfg.first_stage == false,
        cfg.check_period == 1000,
        cfg.water_period == 1000,
        cfg.water_duration == 1,
{
    StageData {
        id: 0,
        stage: class.clone(),
        first_stage: false,
        check_period: 1000,
        water_period: 1000,
        water_duration: 1,
    }
}

/// The stage configuration a check proceeds with: the stored one when the
/// class label is known, the conservative fallback otherwise — an unknown
/// label never fails the check.
pub fn choose_stage(found: Option<StageData>, class: &String) -> (cfg: StageData)
    ensures
        found matches Some(s) ==> cfg == s,
        found is None ==> cfg.id == 0 && cfg.stage@ == class@ && cfg.first_stage == false
            && cfg.check_period == 1000 && cfg.water_period == 1000 && cfg.water_duration == 1,
{
    match found {
        Some(s) => s,
        None => fallback_stage(class),
    }
}

/// What the scan loop decides for one position: whether to check it now,
/// and whether that check waters regardless of elapsed time.
pub open spec fn spec_scan_decision(now: int, last_ts: Option<int>, check_period: Option<int>) -> (
    bool,
    bool,
) {
    match last_ts {
        Option::None => (true, true),
        Option::Some(ts) => match check_period {
            Option::None => (false, false),
            Option::Some(p) => (ts + p <= now, false),
        },
    }
}

/// Decides, for one scan tick, whether a position is checked now. A
/// position never checked before is checked at once, with watering
/// forced; one whose last stage has no stored configuration is skipped
/// for this tick; otherwise the check runs exactly when `check_period`
/// has elapsed since the last check.
pub fn scan_decision(now: i64, last_check: Option<&CheckData>, stage_of_last: Option<&StageData>)
    -> (d: (bool, bool))
    ensures
        d == spec_scan_decision(
            now as int,
            match last_check {
                Option::None => Option::None,
                Option::Some(c) => Option::Some(c.created_ts as int),
            },
            match stage_of_last {
                Option::None => Option::None,
                Option::Some(s) => Option::Some(s.check_period as int),
            },
        ),
{
    match last_check {
        None => (true, true),
        Some(c) => match stage_of_last {
            None => (false, false),
            Some(s) => (check_due(now, Some(c), s), false),
        },
    }
}

/// Decides whether the check that just ran waters the position, and for
/// how long: watering happens exactly when it is due (never watered,
/// elapsed period, or forced), for the stage's configured duration.
pub fn plan_watering(now: i64, last_water: Option<&CheckData>, cfg: &StageData, force: bool) -> (w:
    Option<u64>)
    requires
        0 <= cfg.water_duration <= 1_000_000,
    ensures
        w is Some <==> spec_water_due(
            now as int,
            match last_water {
                Option::None => Option::None,
                Option::Some(c) => Option::Some(c.created_ts as int),
            },
            cfg.water_period as int,
            force,
        ),
        w matches Some(d) ==> d == cfg.water_duration as u64,
{
    if water_due(now, last_water, cfg, force) {
        Some(cfg.water_duration as u64)
    } else {
        None
    }
}

/// Whether a check record belongs to the position, respecting the
/// watered-only filter.
pub open spec fn spec_check_matches(c: CheckData, position_id: int, watered_only: bool) -> bool {
    c.position_id == position_id && (watered_only ==> c.watered)
}

/// The index of a position's most recent check record — optionally only
/// its watered ones: what the scan loop asks the store per position. The
/// latest record by creation time wins, the earliest of any ties.
pub fn last_check_for(checks: &Vec<CheckData>, position_id: i64, watered_only: bool) -> (r: Option<
    usize,
>)
    ensures
        r is None ==> forall|j: int|
            0 <= j < checks@.len() ==> !spec_check_matches(
                #[trigger] checks@[j],
                position_id as int,
                watered_only,
            ),
        r matches Some(i) ==> {
            &&& 0 <= i < checks@.len()
            &&& spec_check_matches(checks@[i as int], position_id as int, watered_only)
            &&& (forall|j: int|
                0 <= j < checks@.len() && spec_check_matches(
                    #[trigger] checks@[j],
                    position_id as int,
                    watered_only,
                ) ==> checks@[j].created_ts <= checks@[i as int].created_ts)
            &&& (forall|j: int|
                0 <= j < i && spec_check_matches(
                    #[trigger] checks@[j],
                    position_id as int,
                    watered_only,
                ) ==> checks@[j].created_ts < checks@[i as int].created_ts)
        },
{
    let mut best: Option<usize> = None;
    let mut k: usize = 0;
    while k < checks.len()
        invariant
            k <= checks@.len(),
            best is None ==> forall|j: int|
                0 <= j < k ==> !spec_check_matches(
                    #[trigger] checks@[j],
                    position_id as int,
                    watered_only,
                ),
            best matches Some(i) ==> {
                &&& 0 <= i < k
                &&& spec_check_matches(checks@[i as int], position_id as int, watered_only)
                &&& (forall|j: int|
                    0 <= j < k && spec_check_matches(
                        #[trigger] checks@[j],
                        position_id as int,
                        watered_only,
                    ) ==> checks@[j].created_ts <= checks@[i as int].created_ts)
                &&& (forall|j: int|
                    0 <= j < i && spec_check_matches(
                        #[trigger] checks@[j],
                        position_id as int,
                        watered_only,
                    ) ==> checks@[j].created_ts < checks@[i as int].created_ts)
            },
        decreases checks@.len() - k,
    {
        let c = &checks[k];
        if c.position_id == position_id && (!watered_only || c.watered) {
            match best {
                None => {
                    best = Some(k);
                },
                Some(i) => {
                    if checks[k].created_ts > checks[i].created_ts {
                        best = Some(k);
                    }
                },
            }
        }
        k = k + 1;
    }
    best
}

/// The index of the first stage row with the given id: the store lookup a
/// check record's stage takes.
pub fn stage_by_id(stages: &Vec<StageData>, id: i64) -> (r: Option<usize>)
    ensures
        r is None ==> forall|j: int| 0 <= j < stages@.len() ==> #[trigger] stages@[j].id != id,
        r matches Some(i) ==> 0 <= i < stages@.len() && stages@[i as int].id == id && (forall|
            j: int,
        |
            0 <= j < i ==> #[trigger] stages@[j].id != id),
{
    let mut k: usize = 0;
    while k < stages.len()
        invariant
            k <= stages@.len(),
            forall|j: int| 0 <= j < k ==> #[trigger] stages@[j].id != id,
        decreases stages@.len() - k,
    {
        if stages[k].id == id {
            return Some(k);
        }
        k = k + 1;
    }
    None
}

/// The index of the first stage row with the given label: the store
/// lookup a detector class takes before the fallback is created.
pub fn stage_by_label(stages: &Vec<StageData>, label: &String) -> (r: Option<usize>)
    ensures
        r is None ==> forall|j: int| 0 <= j < stages@.len() ==> #[trigger] stages@[j].stage@ != label@,
        r matches Some(i) ==> 0 <= i < stages@.len() && stages@[i as int].stage@ == label@ && (
        forall|j: int| 0 <= j < i ==> #[trigger] stages@[j].stage@ != label@),
{
    let mut k: usize = 0;
    while k < stages.len()
        invariant
            k <= stages@.len(),
            forall|j: int| 0 <= j < k ==> #[trigger] stages@[j].stage@ != label@,
        decreases stages@.len() - k,
    {
        if stages[k].stage.eq(label) {
            return Some(k);
        }
        k = k + 1;
    }
    None
}

/// A position that was never checked is due for a check, whatever the
/// configured period.
pub proof fn lemma_check_due_when_unchecked(now: int, check_period: int)
    ensures
        spec_check_due(now, Option::None, check_period),
{
}

/// A fresh check record (created at `now`) leaves the position not due,
/// and it stays not due until `check_period` has elapsed; from then on it
/// is due again.
pub proof fn lemma_check_due_after_fresh_record(now: int, later: int, check_period: int)
    requires
        check_period > 0,
        now <= later,
    ensures
        !spec_check_due(now, Option::Some(now), check_period),
        spec_check_due(later, Option::Some(now), check_period) <==> later >= now + check_period,
{
}

/// Watering follows the same law against `water_period`, and a forced
/// request is due regardless of elapsed time.
pub proof fn lemma_water_due_law(now: int, later: int, water_period: int)
    requires
        water_period > 0,
        now <= later,
    ensures
        spec_water_due(now, Option::None, water_period, false),
        !spec_water_due(now, Option::Some(now), water_period, false),
        spec_water_due(later, Option::Some(now), water_period, false) <==> later >= now
            + water_period,
        spec_water_due(now, Option::Some(now), water_period, true),
{
}

} // verus!
