//! Stage campaign: difficulty scales and the phase states.
use vstd::prelude::*;

verus! {

/// The scale-table index (easy, normal, difficult, crazy) of a manager difficulty (2 .. -1).
pub open spec fn difficulty_slot(d: i8) -> usize {
    if d >= 2 {
        0
    } else if d == 1 {
        1
    } else if d == 0 {
        2
    } else {
        3
    }
}

/// Map manager difficulty (-1..2) to scale index 0..3 (easy..crazy).
pub fn difficulty_index(d: i8) -> (r: usize)
    ensures
        r == difficulty_slot(d),
        r < 4,
{
    if d >= 2 {
        0
    } else if d == 1 {
        1
    } else if d == 0 {
        2
    } else {
        3
    }
}

#[derive(Clone, Copy, Debug, PartialEq, Eq)]
pub enum SpawnKind {
    Enemy,
    Object,
}

#[derive(Clone, Copy, Debug, PartialEq, Eq)]
pub enum StagePhaseState {
    Fighting,
    Go,
    Clearing,
    Complete,
}

#[derive(Clone, Debug)]
pub enum StageAdvance {
    NextPhase { background: i32, reload_background: bool },
    CampaignComplete,
}

/// What reaching the end of a phase leads to.
#[derive(Clone, Copy, Debug, PartialEq, Eq)]
pub enum StagePlan {
    /// The stage or phase being played does not exist: nothing changes and the campaign is over.
    Missing,
    /// The phase names the phase to go to when cleared (a survival wave): load that phase.
    Wave { phase: usize },
    /// Load the next phase of the same stage.
    Phase { phase: usize },
    /// Start the next stage at its first phase.
    Chapter { chapter: usize },
    /// No stage follows: the campaign is complete.
    Finished,
}

/// The step that follows clearing phase `phase_index` of stage `chapter_index`:
/// the phase's own "when clear go to" phase (clamped to the stage), else the next
/// phase, else the next stage, else the end of the campaign.
pub open spec fn advance_plan(
    chapter_index: usize,
    phase_index: usize,
    stage_phases: Option<usize>,
    goto_phase: Option<usize>,
    chapter_count: usize,
) -> StagePlan {
    match stage_phases {
        None => StagePlan::Missing,
        Some(n) => if phase_index >= n {
            StagePlan::Missing
        } else {
            match goto_phase {
                Some(g) => StagePlan::Wave { phase: if g < n - 1 { g } else { (n - 1) as usize } },
                None => if phase_index + 1 < n {
                    StagePlan::Phase { phase: (phase_index + 1) as usize }
                } else if chapter_index + 1 < chapter_count {
                    StagePlan::Chapter { chapter: (chapter_index + 1) as usize }
                } else {
                    StagePlan::Finished
                },
            }
        },
    }
}

/// Decides where the campaign goes when the player reaches the end of a phase.
/// `stage_phases` is the number of phases of the current stage (None when the stage
/// does not exist) and `goto_phase` is the current phase's "when clear go to" phase.
pub fn plan_advance(
    chapter_index: usize,
    phase_index: usize,
    stage_phases: Option<usize>,
    goto_phase: Option<usize>,
    chapter_count: usize,
) -> (r: StagePlan)
    ensures
        r == advance_plan(chapter_index, phase_index, stage_phases, goto_phase, chapter_count),
{
    let n = match stage_phases {
        None => return StagePlan::Missing,
        Some(n) => n,
    };
    if phase_index >= n {
        return StagePlan::Missing;
    }
    if let Some(g) = goto_phase {
        let last = n - 1;
        return StagePlan::Wave { phase: if g < last { g } else { last } };
    }
    if phase_index < n - 1 {
        return StagePlan::Phase { phase: phase_index + 1 };
    }
    if chapter_index < usize::MAX && chapter_index + 1 < chapter_count {
        return StagePlan::Chapter { chapter: chapter_index + 1 };
    }
    StagePlan::Finished
}

/// Stage ids below 50 are campaign chapters; the others are survival stages.
pub open spec fn is_chapter_id(id: i32) -> bool {
    id < 50
}

/// How many of the ids are campaign chapters.
pub open spec fn chapters_in(ids: Seq<i32>) -> nat
    decreases ids.len(),
{
    if ids.len() == 0 {
        0
    } else {
        chapters_in(ids.drop_last()) + if is_chapter_id(ids.last()) {
            1nat
        } else {
            0nat
        }
    }
}

/// The number of campaign chapters among the stage ids.
pub fn count_chapters(ids: &[i32]) -> (r: usize)
    ensures
        r == chapters_in(ids@),
{
    let mut c: usize = 0;
    let mut i: usize = 0;
    while i < ids.len()
        invariant
            i <= ids@.len(),
            c == chapters_in(ids@.subrange(0, i as int)),
            c <= i,
        decreases ids@.len() - i,
    {
        proof {
            assert(ids@.subrange(0, i as int + 1).drop_last() =~= ids@.subrange(0, i as int));
        }
        if ids[i] < 50 {
            c = c + 1;
        }
        i = i + 1;
    }
    assert(ids@.subrange(0, i as int) =~= ids@);
    c
}

/// The heroes a "random hero" spawn (id 1000) picks from.
pub open spec fn hero_ids() -> Seq<i32> {
    seq![1, 2, 4, 5, 6, 7, 8, 9, 10, 11]
}

/// The object id a stage spawn stands for: 3000 is the bandit (30), 1000 is the hero
/// picked by `pick`, any other id stands for itself.
pub open spec fn spawn_object_id(id: i32, pick: usize) -> i32 {
    if id == 3000 {
        30
    } else if id == 1000 {
        hero_ids()[(pick % 10) as int]
    } else {
        id
    }
}

/// Resolves the placeholder ids of stage spawns; `pick` chooses the random hero.
pub fn resolve_random_id(id: i32, pick: usize) -> (r: i32)
    ensures
        r == spawn_object_id(id, pick),
{
    if id == 3000 {
        30
    } else if id == 1000 {
        let h: [i32; 10] = [1, 2, 4, 5, 6, 7, 8, 9, 10, 11];
        assert(h@ == hero_ids());
        h[pick % 10]
    } else {
        id
    }
}

/// The spread of the `n`-th spawn of a group: up to 300 to the right of its given x,
/// or up to 120 past the phase bound when it has none.
pub open spec fn spawn_spread(n: int, salt: int, has_x: bool) -> int {
    if has_x {
        (n * 97 + salt * 13) % 300
    } else {
        (n * 37 + salt * 11) % 120
    }
}

/// A fighting phase is cleared once no enemy is left on the field and none waits to spawn.
pub fn phase_cleared(enemies_left: usize, spawns_pending: usize, state: StagePhaseState) -> (r: bool)
    ensures
        r == (enemies_left == 0 && spawns_pending == 0 && state == StagePhaseState::Fighting),
{
    enemies_left == 0 && spawns_pending == 0 && match state {
        StagePhaseState::Fighting => true,
        _ => false,
    }
}

/// The spread of the `n`-th spawn of spawn group `salt`.
pub fn spawn_offset(n: usize, salt: usize, has_x: bool) -> (r: usize)
    requires
        has_x ==> n * 97 + salt * 13 <= usize::MAX,
        !has_x ==> n * 37 + salt * 11 <= usize::MAX,
    ensures
        r == spawn_spread(n as int, salt as int, has_x),
        has_x ==> r < 300,
        !has_x ==> r < 120,
{
    if has_x {
        (n * 97 + salt * 13) % 300
    } else {
        (n * 37 + salt * 11) % 120
    }
}

/// The campaign only moves forward: a cleared phase leads to a later phase of the same
/// stage, to the first phase of the next stage, or to the end; only a stage's own
/// "go to" phase may repeat a phase, and that phase is always one of the stage's.
pub proof fn law_campaign_moves_forward(
    chapter_index: usize,
    phase_index: usize,
    n: usize,
    goto_phase: Option<usize>,
    chapter_count: usize,
)
    requires
        phase_index < n,
    ensures
        match advance_plan(chapter_index, phase_index, Some(n), goto_phase, chapter_count) {
            StagePlan::Wave { phase } => goto_phase is Some && phase < n,
            StagePlan::Phase { phase } => goto_phase is None && phase == phase_index + 1 && phase < n,
            StagePlan::Chapter { chapter } => goto_phase is None && chapter == chapter_index + 1
                && chapter < chapter_count && phase_index == n - 1,
            StagePlan::Finished => goto_phase is None && phase_index == n - 1 && chapter_index + 1
                >= chapter_count,
            StagePlan::Missing => false,
        },
{
}

/// The number of chapters never exceeds the number of stages.
pub proof fn law_chapters_at_most_stages(ids: Seq<i32>)
    ensures
        chapters_in(ids) <= ids.len(),
    decreases ids.len(),
{
    if ids.len() > 0 {
        law_chapters_at_most_stages(ids.drop_last());
    }
}


/// A phase that names a "when clear go to" phase `g` sends the campaign to phase `g` of the
/// same stage; only a `g` beyond the stage's last phase is clamped to the last phase.
pub proof fn law_wave_goes_to_named_phase(
    chapter_index: usize,
    phase_index: usize,
    n: usize,
    g: usize,
    chapter_count: usize,
)
    requires
        phase_index < n,
    ensures
        g < n ==> advance_plan(chapter_index, phase_index, Some(n), Some(g), chapter_count)
            == (StagePlan::Wave { phase: g }),
        g >= n ==> advance_plan(chapter_index, phase_index, Some(n), Some(g), chapter_count)
            == (StagePlan::Wave { phase: (n - 1) as usize }),
{
}


/// Without a "go to" phase the campaign goes on to the next phase of the stage, then to the
/// first phase of the next stage, then ends; a stage or phase that does not exist is missing.
pub proof fn law_campaign_order(
    chapter_index: usize,
    phase_index: usize,
    stage_phases: Option<usize>,
    goto_phase: Option<usize>,
    chapter_count: usize,
)
    ensures
        stage_phases is None ==> advance_plan(chapter_index, phase_index, stage_phases, goto_phase, chapter_count)
            == StagePlan::Missing,
        stage_phases matches Some(n) && phase_index >= n ==> advance_plan(
            chapter_index,
            phase_index,
            stage_phases,
            goto_phase,
            chapter_count,
        ) == StagePlan::Missing,
        stage_phases matches Some(n) && phase_index + 1 < n && goto_phase is None ==> advance_plan(
            chapter_index,
            phase_index,
            stage_phases,
            goto_phase,
            chapter_count,
        ) == (StagePlan::Phase { phase: (phase_index + 1) as usize }),
        stage_phases matches Some(n) && phase_index + 1 == n && goto_phase is None && chapter_index
            + 1 < chapter_count ==> advance_plan(
            chapter_index,
            phase_index,
            stage_phases,
            goto_phase,
            chapter_count,
        ) == (StagePlan::Chapter { chapter: (chapter_index + 1) as usize }),
        stage_phases matches Some(n) && phase_index + 1 == n && goto_phase is None && chapter_index
            + 1 >= chapter_count ==> advance_plan(
            chapter_index,
            phase_index,
            stage_phases,
            goto_phase,
            chapter_count,
        ) == StagePlan::Finished,
{
}


/// The difficulty scale slots: easy (2 and above) is slot 0, normal 1, hard 2, crazy (below 0)
/// slot 3; an easier difficulty never gets a harder slot.
pub proof fn law_difficulty_slots(d: i8, e: i8)
    ensures
        d >= 2 ==> difficulty_slot(d) == 0,
        d == 1 ==> difficulty_slot(d) == 1,
        d == 0 ==> difficulty_slot(d) == 2,
        d < 0 ==> difficulty_slot(d) == 3,
        d <= e ==> difficulty_slot(e) <= difficulty_slot(d),
{
}

/// Chapters are the stage ids below 50, counted over any split of the ids.
pub proof fn law_chapter_count(a: Seq<i32>, b: Seq<i32>, x: i32)
    ensures
        chapters_in(seq![x]) == (if x < 50 {
            1nat
        } else {
            0nat
        }),
        chapters_in(a + b) == chapters_in(a) + chapters_in(b),
        chapters_in(a) <= a.len(),
    decreases b.len(),
{
    assert(seq![x].drop_last() =~= Seq::<i32>::empty());
    assert(chapters_in(Seq::<i32>::empty()) == 0);
    assert(seq![x].last() == x);
    if b.len() == 0 {
        assert(a + b =~= a);
    } else {
        law_chapter_count(a, b.drop_last(), x);
        assert((a + b).drop_last() =~= a + b.drop_last());
    }
    lemma_chapters_bounded(a);
}

proof fn lemma_chapters_bounded(a: Seq<i32>)
    ensures
        chapters_in(a) <= a.len(),
    decreases a.len(),
{
    if a.len() > 0 {
        lemma_chapters_bounded(a.drop_last());
    }
}

/// Spawn ids: 3000 is the bandit (30), 1000 a hero chosen by `pick` among 1, 2, 4 to 11
/// (never 3 or 0), and every other id stands for itself.
pub proof fn law_spawn_ids(id: i32, pick: usize)
    ensures
        id == 3000 ==> spawn_object_id(id, pick) == 30,
        id != 3000 && id != 1000 ==> spawn_object_id(id, pick) == id,
        id == 1000 ==> ({
            let h = spawn_object_id(id, pick);
            1 <= h <= 11 && h != 3
        }),
        id == 1000 && pick % 10 == 0 ==> spawn_object_id(id, pick) == 1,
        id == 1000 && pick % 10 == 2 ==> spawn_object_id(id, pick) == 4,
        id == 1000 && pick % 10 == 9 ==> spawn_object_id(id, pick) == 11,
        id == 1000 ==> spawn_object_id(id, pick) == spawn_object_id(id, (pick % 10) as usize),
{
}

/// A spawn with a given x spreads up to 300 to the right by `97 n + 13 salt`, one without by
/// `37 n + 11 salt` up to 120; the spread repeats every 300 (or 120) spawns.
pub proof fn law_spawn_spread(n: int, salt: int)
    requires
        n >= 0,
        salt >= 0,
    ensures
        spawn_spread(n, salt, true) == (97 * n + 13 * salt) % 300,
        spawn_spread(n, salt, false) == (37 * n + 11 * salt) % 120,
        0 <= spawn_spread(n, salt, true) < 300,
        0 <= spawn_spread(n, salt, false) < 120,
{
}

} // verus!
