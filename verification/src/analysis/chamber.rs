//! Chamber analysis: from every senator's stance on one legislative object to
//! coalition counts, majority and cloture viability, risk, stability and the
//! senators who decide the outcome.

use vstd::prelude::*;
use crate::model::analysis::{PivotSummary, SenateAnalysis, SenatorSignalSummary};
use crate::model::context::{LegislativeContext, ProceduralStage};
use crate::model::error::SenateSimError;
use crate::model::legislative::LegislativeObject;
use crate::model::stance::{ProceduralPosture, SenatorStance, StanceLabel};
use crate::util::rank::{
    insert_ranked_exec, lemma_rank_desc, pair_views, rank_desc, ranked,
};
use crate::util::score::{
    abs_spec, clamp_unit_spec, clamp_wide_big, clamp_wide_spec, max_spec, min_spec,
    ratio, ratio_spec, unit, SCALE,
};
use crate::util::text::{decimal_digits, decimal_text, string_views, tenths_digits, tenths_text};

verus! {

/// Sum of `f` over the stances that satisfy `pred`.
pub open spec fn sum_where(
    s: Seq<SenatorStance>,
    pred: spec_fn(SenatorStance) -> bool,
    f: spec_fn(SenatorStance) -> int,
) -> int
    decreases s.len(),
{
    if s.len() == 0 {
        0
    } else {
        sum_where(s.drop_last(), pred, f) + if pred(s.last()) {
            f(s.last())
        } else {
            0
        }
    }
}

pub open spec fn count_label(s: Seq<SenatorStance>, l: StanceLabel) -> int {
    sum_where(s, |st: SenatorStance| st.stance_label == l, |st: SenatorStance| 1)
}

pub open spec fn coalition_side(l: StanceLabel) -> bool {
    l == StanceLabel::Support || l == StanceLabel::LeanSupport
}

pub open spec fn blocks_cloture(p: ProceduralPosture) -> bool {
    p == ProceduralPosture::OpposeCloture || p == ProceduralPosture::BlockByProcedure
}

/// Expected presence, in ten-thousandths of a senator, summed over the chamber.
pub open spec fn presence_sum(s: Seq<SenatorStance>) -> int {
    sum_where(s, |st: SenatorStance| true, |st: SenatorStance| 10000 - st.absence_probability)
}

/// Expected present senators, rounded to the nearest whole senator.
pub open spec fn expected_present_spec(s: Seq<SenatorStance>) -> int {
    min_spec((presence_sum(s) + 5000) / 10000, s.len() as int)
}

pub open spec fn majority_threshold_spec(s: Seq<SenatorStance>) -> int {
    expected_present_spec(s) / 2 + 1
}

/// Votes per whole vote in the exact majority weights: every weight is a
/// whole number of hundred-thousandths of a vote.
pub const MAJORITY_UNIT: i128 = 100000;

/// Votes per whole vote in the exact cloture weights: every weight is a whole
/// number of two-hundred-thousandths of a vote.
pub const CLOTURE_UNIT: i128 = 200000;

/// A senator's weight toward the probable majority, exactly, in
/// hundred-thousandths of a vote: 1 for support and lean support, half the
/// negotiability plus half the procedural support when undecided, a fifth of
/// the negotiability when leaning against, and 0 when opposed.
pub open spec fn majority_contribution(st: SenatorStance) -> int {
    match st.stance_label {
        StanceLabel::Support => 100000,
        StanceLabel::LeanSupport => 100000,
        StanceLabel::Undecided => 5 * st.negotiability + 5 * st.procedural_support,
        StanceLabel::LeanOppose => 2 * st.negotiability,
        StanceLabel::Oppose => 0,
    }
}

/// The exact probable majority, in hundred-thousandths of a vote.
pub open spec fn majority_weight_sum(s: Seq<SenatorStance>) -> int {
    sum_where(s, |st: SenatorStance| true, |st: SenatorStance| majority_contribution(st))
}

/// The probable majority in ten-thousandths of a vote, rounded down.
pub open spec fn majority_sum(s: Seq<SenatorStance>) -> int {
    majority_weight_sum(s) / 10
}

/// `x` limited to one whole vote of two-hundred-thousandths.
pub open spec fn clamp_cloture_unit(x: int) -> int {
    if x < 0 {
        0
    } else if x > 200000 {
        200000
    } else {
        x
    }
}

/// A senator's weight toward the probable cloture coalition, exactly, in
/// two-hundred-thousandths of a vote: 1 for cloture supporters, 0.45 + 0.45 of
/// the procedural support for debate and amendment supporters, 0.1 for debate
/// opponents, 0.75 (at a cloture stage) or 0.6 of the procedural support when
/// unclear, and 0 for cloture opponents and procedural blockers.
pub open spec fn cloture_contribution_spec(st: SenatorStance, stage: ProceduralStage) -> int {
    match st.procedural_posture {
        ProceduralPosture::SupportCloture => 200000,
        ProceduralPosture::OpposeCloture | ProceduralPosture::BlockByProcedure => 0,
        ProceduralPosture::SupportDebate | ProceduralPosture::SupportAmendmentProcess => clamp_cloture_unit(
            90000 + 9 * st.procedural_support,
        ),
        ProceduralPosture::OpposeDebate => 20000,
        ProceduralPosture::Unclear => if stage is ClotureFiled || stage is ClotureVote {
            clamp_cloture_unit(15 * st.procedural_support)
        } else {
            clamp_cloture_unit(12 * st.procedural_support)
        },
    }
}

/// The exact probable cloture votes, in two-hundred-thousandths of a vote.
pub open spec fn cloture_weight_sum(s: Seq<SenatorStance>, stage: ProceduralStage) -> int {
    sum_where(s, |st: SenatorStance| true, |st: SenatorStance| cloture_contribution_spec(st, stage))
}

/// The probable cloture votes in ten-thousandths of a vote, rounded down.
pub open spec fn cloture_sum(s: Seq<SenatorStance>, stage: ProceduralStage) -> int {
    cloture_weight_sum(s, stage) / 20
}

/// The exact probable majority reaches the majority threshold.
pub open spec fn majority_viable_spec(s: Seq<SenatorStance>) -> bool {
    majority_weight_sum(s) >= majority_threshold_spec(s) * 100000
}

/// The exact probable cloture votes reach 60.
pub open spec fn cloture_viable_spec(s: Seq<SenatorStance>, stage: ProceduralStage) -> bool {
    cloture_weight_sum(s, stage) >= 60 * 200000
}

// ---------------------------------------------------------------- blockers

/// How strongly a senator blocks procedure (scale `SCALE * SCALE`).
pub open spec fn blocking_score(st: SenatorStance) -> int {
    (10000 - st.procedural_support) * 4500 + st.rigidity * 3500 + if blocks_cloture(
        st.procedural_posture,
    ) {
        2000 * 10000
    } else {
        0
    }
}

/// (score, index) of every senator whose blocking score reaches 0.55.
pub open spec fn blocker_pairs(s: Seq<SenatorStance>) -> Seq<(int, int)>
    decreases s.len(),
{
    if s.len() == 0 {
        seq![]
    } else {
        let p = blocker_pairs(s.drop_last());
        let i = s.len() - 1;
        if blocking_score(s[i]) >= 5500 * 10000 {
            p.push((blocking_score(s[i]), i))
        } else {
            p
        }
    }
}

pub open spec fn take5(s: Seq<(int, int)>) -> Seq<(int, int)> {
    if s.len() <= 5 {
        s
    } else {
        s.subrange(0, 5)
    }
}

/// The likely blockers: the five strongest, strongest first.
pub open spec fn top_blockers(s: Seq<SenatorStance>) -> Seq<(int, int)> {
    take5(rank_desc(blocker_pairs(s)))
}

pub open spec fn blocker_reason() -> Seq<char> {
    "low procedural support and high rigidity mark a likely blocker"@
}

pub open spec fn defector_reason() -> Seq<char> {
    "coalition-side support is vulnerable to defection under pressure"@
}

/// `sum` summarises `st` with the given reason.
pub open spec fn summarises(sum: SenatorSignalSummary, st: SenatorStance, reason: Seq<char>) -> bool {
    &&& sum.senator_id@ == st.senator_id@
    &&& sum.public_position == st.public_position
    &&& sum.defection_probability == st.defection_probability
    &&& sum.rigidity == st.rigidity
    &&& sum.reason@ == reason
}

// ---------------------------------------------------------------- defectors

/// How likely a senator is to defect from the coalition (ten-thousandths).
pub open spec fn defector_score(st: SenatorStance) -> int {
    let side = coalition_side(st.stance_label);
    st.defection_probability + (if side && blocks_cloture(st.procedural_posture) {
        2000int
    } else {
        0int
    }) + (if side && st.public_support < 5500 {
        1200int
    } else {
        0int
    })
}

/// (score, index) of every senator whose defector score reaches 0.38.
pub open spec fn defector_pairs(s: Seq<SenatorStance>) -> Seq<(int, int)>
    decreases s.len(),
{
    if s.len() == 0 {
        seq![]
    } else {
        let p = defector_pairs(s.drop_last());
        let i = s.len() - 1;
        if defector_score(s[i]) >= 3800 {
            p.push((defector_score(s[i]), i))
        } else {
            p
        }
    }
}

pub open spec fn top_defectors(s: Seq<SenatorStance>) -> Seq<(int, int)> {
    take5(rank_desc(defector_pairs(s)))
}

// ---------------------------------------------------------------- pivots

/// How close the chamber is to the majority or cloture threshold.
pub open spec fn threshold_pressure_spec(s: Seq<SenatorStance>, stage: ProceduralStage) -> int {
    let mm = abs_spec(majority_sum(s) - majority_threshold_spec(s) * 10000);
    let cm = abs_spec(600000 - cloture_sum(s, stage));
    max_spec(
        clamp_unit_spec((30000 - min_spec(mm, 30000)) / 3),
        clamp_unit_spec((40000 - min_spec(cm, 40000)) / 4),
    )
}

pub open spec fn pivot_candidate(st: SenatorStance) -> bool {
    st.stance_label == StanceLabel::LeanSupport || st.stance_label == StanceLabel::Undecided
        || st.stance_label == StanceLabel::LeanOppose || (3500 <= st.procedural_support
        && st.procedural_support <= 7500)
}

/// How pivotal a senator is (scale `SCALE * SCALE`).
pub open spec fn pivot_score(st: SenatorStance, pressure: int) -> int {
    max_spec(10000 - 2 * abs_spec(st.substantive_support - 5000), 0) * 3500 + max_spec(
        10000 - 2 * abs_spec(st.procedural_support - 5500),
        0,
    ) * 3000 + st.negotiability * 2000 + pressure * 1500
}

pub open spec fn pivot_pairs(s: Seq<SenatorStance>, pressure: int) -> Seq<(int, int)>
    decreases s.len(),
{
    if s.len() == 0 {
        seq![]
    } else {
        let p = pivot_pairs(s.drop_last(), pressure);
        let i = s.len() - 1;
        if pivot_candidate(s[i]) {
            p.push((pivot_score(s[i], pressure), i))
        } else {
            p
        }
    }
}

pub open spec fn top_pivots(s: Seq<SenatorStance>, stage: ProceduralStage) -> Seq<(int, int)> {
    take5(rank_desc(pivot_pairs(s, threshold_pressure_spec(s, stage))))
}

pub open spec fn pivot_reason(st: SenatorStance) -> Seq<char> {
    if st.stance_label == StanceLabel::Undecided {
        "undecided stance leaves this senator near the coalition boundary"@
    } else if st.procedural_support < 6000 && st.substantive_support >= 5000 {
        "substantive support exists, but procedural hesitation makes this senator pivotal"@
    } else {
        "marginal support and meaningful negotiability make this senator pivotal"@
    }
}

pub open spec fn pivot_summarises(p: PivotSummary, st: SenatorStance) -> bool {
    &&& p.senator_id@ == st.senator_id@
    &&& p.stance_label == st.stance_label
    &&& p.procedural_posture == st.procedural_posture
    &&& p.substantive_support == st.substantive_support
    &&& p.procedural_support == st.procedural_support
    &&& p.negotiability == st.negotiability
    &&& p.reason@ == pivot_reason(st)
}

// ---------------------------------------------------------------- risk and stability

pub open spec fn hostility_sum(s: Seq<SenatorStance>) -> int {
    sum_where(s, |st: SenatorStance| st.procedural_support < 4000, |st: SenatorStance| st.rigidity as int)
}

/// Filibuster risk from the cloture gap, blockers, hostile rigidity and undecided senators.
pub open spec fn filibuster_risk_spec(s: Seq<SenatorStance>, stage: ProceduralStage, blocker_count: int) -> int {
    let n = s.len() as int;
    let clo = cloture_sum(s, stage);
    let gap = if clo >= 600000 {
        0
    } else {
        (600000 - clo) / 60
    };
    let blocker_intensity = ratio_spec(blocker_count, n);
    let hostility = hostility_sum(s) / n;
    let undecided = ratio_spec(count_label(s, StanceLabel::Undecided), n);
    clamp_wide_spec(gap * 5500 + blocker_intensity * 2000 + hostility * 1500 + undecided * 1000)
}

pub open spec fn member_sum(s: Seq<SenatorStance>, f: spec_fn(SenatorStance) -> int) -> int {
    sum_where(s, |st: SenatorStance| coalition_side(st.stance_label), f)
}

/// Coalition stability from the majority margin and the coalition's alignment,
/// rigidity, lean share, negotiability, defection and absence.
pub open spec fn coalition_stability_spec(s: Seq<SenatorStance>) -> int {
    let support = count_label(s, StanceLabel::Support);
    let m = support + count_label(s, StanceLabel::LeanSupport);
    if m == 0 {
        0
    } else {
        let lean_share = 10000 - ratio_spec(support, m);
        let neg = member_sum(s, |st: SenatorStance| st.negotiability as int) / m;
        let def = member_sum(s, |st: SenatorStance| st.defection_probability as int) / m;
        let abs = member_sum(s, |st: SenatorStance| st.absence_probability as int) / m;
        let align = member_sum(
            s,
            |st: SenatorStance| st.substantive_support + st.procedural_support,
        ) / (2 * m);
        let rig = member_sum(s, |st: SenatorStance| st.rigidity as int) / m;
        let thr = majority_threshold_spec(s);
        let maj = majority_sum(s);
        let margin = if maj > thr * 10000 {
            (maj - thr * 10000) / thr
        } else {
            0
        };
        clamp_wide_spec(
            2000 * 10000 + margin * 3000 + align * 2000 + rig * 1500 - lean_share * 2000 - neg
                * 1200 - def * 1800 - abs * 1000,
        )
    }
}

// ---------------------------------------------------------------- findings

pub open spec fn rounded_tenths(x: int) -> nat {
    ((x / 1000) + if x % 1000 >= 500 {
        1int
    } else {
        0int
    }) as nat
}

pub open spec fn findings_spec(
    support_votes: int,
    expected: int,
    majority: int,
    threshold: int,
    cloture: int,
    smv: bool,
    cv: bool,
    stability: int,
    blockers: int,
    defectors: int,
) -> Seq<Seq<char>> {
    let f1 = "current support coalition is "@ + decimal_digits(support_votes as nat)
        + " likely/lean supporters out of "@ + decimal_digits(expected as nat) + " expected present"@;
    let f2 = if smv {
        "simple majority is viable at an estimated "@ + tenths_digits(rounded_tenths(majority))
            + " votes against a "@ + decimal_digits(threshold as nat) + "-vote threshold"@
    } else {
        "simple majority is not yet viable; estimated support is "@ + tenths_digits(
            rounded_tenths(majority),
        ) + " against a "@ + decimal_digits(threshold as nat) + "-vote threshold"@
    };
    let f3 = if cv {
        "procedural coalition reaches an estimated "@ + tenths_digits(rounded_tenths(cloture))
            + " cloture votes and clears the 60-vote threshold"@
    } else {
        "cloture remains short at an estimated "@ + tenths_digits(rounded_tenths(cloture))
            + " procedural votes"@
    };
    let f4 = if stability >= 6500 {
        "coalition stability is relatively strong at this snapshot"@
    } else if stability >= 4000 {
        "coalition exists but remains somewhat fragile"@
    } else {
        "coalition stability is weak and vulnerable to movement"@
    };
    let base = seq![f1, f2, f3, f4];
    let with_blockers = if blockers > 0 {
        base.push(
            decimal_digits(blockers as nat) + " likely procedural blockers materially raise filibuster risk"@,
        )
    } else {
        base
    };
    if defectors > 0 {
        with_blockers.push(
            decimal_digits(defectors as nat) + " coalition-side senators show meaningful defection risk"@,
        )
    } else {
        with_blockers
    }
}

// ---------------------------------------------------------------- contract helpers

pub open spec fn stances_ok(obj: LegislativeObject, s: Seq<SenatorStance>) -> bool {
    &&& s.len() > 0
    &&& forall|i: int| 0 <= i < s.len() ==> (#[trigger] s[i]).wf() && s[i].object_id@ == obj.object_id@
}

pub open spec fn all_wf(s: Seq<SenatorStance>) -> bool {
    forall|i: int| 0 <= i < s.len() ==> (#[trigger] s[i]).wf()
}

pub proof fn lemma_sum_step(
    s: Seq<SenatorStance>,
    i: int,
    pred: spec_fn(SenatorStance) -> bool,
    f: spec_fn(SenatorStance) -> int,
)
    requires
        0 <= i < s.len(),
    ensures
        sum_where(s.subrange(0, i + 1), pred, f) == sum_where(s.subrange(0, i), pred, f) + if pred(
            s[i],
        ) {
            f(s[i])
        } else {
            0
        },
{
    assert(s.subrange(0, i + 1).drop_last() =~= s.subrange(0, i));
}

fn presence_total(stances: &[SenatorStance]) -> (r: i128)
    requires
        all_wf(stances@),
    ensures
        r == presence_sum(stances@),
        0 <= r <= stances@.len() * 10000,
{
    let mut acc: i128 = 0;
    let mut i: usize = 0;
    while i < stances.len()
        invariant
            i <= stances@.len(),
            all_wf(stances@),
            acc == presence_sum(stances@.subrange(0, i as int)),
            0 <= acc <= i * 10000,
        decreases stances.len() - i,
    {
        proof {
            lemma_sum_step(stances@, i as int, |st: SenatorStance| true, |st: SenatorStance| 10000 - st.absence_probability);
            assert(stances@[i as int].wf());
        }
        acc = acc + (10000 - stances[i].absence_probability) as i128;
        i = i + 1;
    }
    proof {
        assert(stances@.subrange(0, stances@.len() as int) =~= stances@);
    }
    acc
}

pub proof fn lemma_blocker_pairs(s: Seq<SenatorStance>)
    ensures
        forall|k: int| 0 <= k < blocker_pairs(s).len() ==> {
            let e = #[trigger] blocker_pairs(s)[k];
            0 <= e.1 < s.len() && e.0 == blocking_score(s[e.1])
        },
    decreases s.len(),
{
    if s.len() > 0 {
        let d = s.drop_last();
        lemma_blocker_pairs(d);
        assert forall|k: int| 0 <= k < blocker_pairs(s).len() implies {
            let e = #[trigger] blocker_pairs(s)[k];
            0 <= e.1 < s.len() && e.0 == blocking_score(s[e.1])
        } by {
            if k < blocker_pairs(d).len() {
                let e = blocker_pairs(d)[k];
                assert(blocker_pairs(s)[k] == e);
                assert(s[e.1] == d[e.1]);
            }
        }
    }
}

pub proof fn lemma_defector_pairs(s: Seq<SenatorStance>)
    ensures
        forall|k: int| 0 <= k < defector_pairs(s).len() ==> {
            let e = #[trigger] defector_pairs(s)[k];
            0 <= e.1 < s.len() && e.0 == defector_score(s[e.1])
        },
    decreases s.len(),
{
    if s.len() > 0 {
        let d = s.drop_last();
        lemma_defector_pairs(d);
        assert forall|k: int| 0 <= k < defector_pairs(s).len() implies {
            let e = #[trigger] defector_pairs(s)[k];
            0 <= e.1 < s.len() && e.0 == defector_score(s[e.1])
        } by {
            if k < defector_pairs(d).len() {
                let e = defector_pairs(d)[k];
                assert(defector_pairs(s)[k] == e);
                assert(s[e.1] == d[e.1]);
            }
        }
    }
}

pub proof fn lemma_pivot_pairs(s: Seq<SenatorStance>, pressure: int)
    ensures
        forall|k: int| 0 <= k < pivot_pairs(s, pressure).len() ==> {
            let e = #[trigger] pivot_pairs(s, pressure)[k];
            0 <= e.1 < s.len() && e.0 == pivot_score(s[e.1], pressure)
        },
    decreases s.len(),
{
    if s.len() > 0 {
        let d = s.drop_last();
        lemma_pivot_pairs(d, pressure);
        assert forall|k: int| 0 <= k < pivot_pairs(s, pressure).len() implies {
            let e = #[trigger] pivot_pairs(s, pressure)[k];
            0 <= e.1 < s.len() && e.0 == pivot_score(s[e.1], pressure)
        } by {
            if k < pivot_pairs(d, pressure).len() {
                let e = pivot_pairs(d, pressure)[k];
                assert(pivot_pairs(s, pressure)[k] == e);
                assert(s[e.1] == d[e.1]);
            }
        }
    }
}

/// Each ranked pair points at a stance of the chamber.
proof fn lemma_ranked_indices(pairs: Seq<(int, int)>, n: int)
    requires
        forall|k: int| 0 <= k < pairs.len() ==> 0 <= (#[trigger] pairs[k]).1 < n,
    ensures
        forall|k: int| 0 <= k < rank_desc(pairs).len() ==> 0 <= (#[trigger] rank_desc(pairs)[k]).1 < n,
{
    lemma_rank_desc(pairs);
    assert forall|k: int| 0 <= k < rank_desc(pairs).len() implies 0 <= (#[trigger] rank_desc(pairs)[k]).1 < n by {
        assert(pairs.contains(rank_desc(pairs)[k]));
    }
}

fn blocking_score_exec(st: &SenatorStance) -> (r: i64)
    requires
        st.wf(),
    ensures
        r == blocking_score(*st),
{
    let b = matches!(st.procedural_posture, ProceduralPosture::OpposeCloture | ProceduralPosture::BlockByProcedure);
    (10000 - st.procedural_support) * 4500 + st.rigidity * 3500 + if b {
        20000000
    } else {
        0
    }
}

fn summary_of(st: &SenatorStance, reason: &str) -> (r: SenatorSignalSummary)
    ensures
        summarises(r, *st, reason@),
{
    SenatorSignalSummary {
        senator_id: st.senator_id.clone(),
        public_position: st.public_position,
        defection_probability: st.defection_probability,
        rigidity: st.rigidity,
        reason: String::from_str(reason),
    }
}

/// The five strongest procedural blockers, strongest first.
fn likely_blockers(stances: &[SenatorStance]) -> (r: Vec<SenatorSignalSummary>)
    requires
        all_wf(stances@),
    ensures
        r@.len() == top_blockers(stances@).len(),
        r@.len() <= 5,
        forall|k: int| 0 <= k < r@.len() ==> summarises(
            #[trigger] r@[k],
            stances@[top_blockers(stances@)[k].1],
            blocker_reason(),
        ),
{
    let ghost s = stances@;
    let mut ranked_pairs: Vec<(i64, usize)> = Vec::new();
    let mut i: usize = 0;
    while i < stances.len()
        invariant
            s == stances@,
            i <= s.len(),
            all_wf(s),
            pair_views(ranked_pairs@) == rank_desc(blocker_pairs(s.subrange(0, i as int))),
            ranked(pair_views(ranked_pairs@)),
        decreases stances.len() - i,
    {
        let ghost p = blocker_pairs(s.subrange(0, i as int));
        proof {
            assert(s.subrange(0, i + 1).drop_last() =~= s.subrange(0, i as int));
            assert(s[i as int].wf());
        }
        let score = blocking_score_exec(&stances[i]);
        if score >= 55000000 {
            insert_ranked_exec(&mut ranked_pairs, (score, i));
            proof {
                assert(p.push((score as int, i as int)).drop_last() =~= p);
            }
        }
        i = i + 1;
    }
    proof {
        assert(s.subrange(0, s.len() as int) =~= s);
        lemma_blocker_pairs(s);
        lemma_ranked_indices(blocker_pairs(s), s.len() as int);
        lemma_rank_desc(blocker_pairs(s));
    }
    let ghost ranked_all = rank_desc(blocker_pairs(s));
    let limit: usize = if ranked_pairs.len() < 5 {
        ranked_pairs.len()
    } else {
        5
    };
    let mut out: Vec<SenatorSignalSummary> = Vec::new();
    let mut k: usize = 0;
    while k < limit
        invariant
            s == stances@,
            limit <= ranked_pairs@.len(),
            limit <= 5,
            pair_views(ranked_pairs@) == ranked_all,
            ranked_all == rank_desc(blocker_pairs(s)),
            forall|j: int| 0 <= j < ranked_all.len() ==> 0 <= (#[trigger] ranked_all[j]).1 < s.len(),
            k <= limit,
            out@.len() == k,
            forall|j: int| 0 <= j < k ==> summarises(#[trigger] out@[j], s[ranked_all[j].1], blocker_reason()),
        decreases limit - k,
    {
        let idx = ranked_pairs[k].1;
        proof {
            assert(ranked_all[k as int].1 == idx);
        }
        out.push(summary_of(&stances[idx], "low procedural support and high rigidity mark a likely blocker"));
        k = k + 1;
    }
    proof {
        assert forall|j: int| 0 <= j < out@.len() implies summarises(
            #[trigger] out@[j],
            stances@[top_blockers(stances@)[j].1],
            blocker_reason(),
        ) by {
            assert(top_blockers(s)[j] == ranked_all[j]);
        }
    }
    out
}

fn defector_score_exec(st: &SenatorStance) -> (r: i64)
    requires
        st.wf(),
    ensures
        r == defector_score(*st),
{
    let side = matches!(st.stance_label, StanceLabel::Support | StanceLabel::LeanSupport);
    let blocks = matches!(st.procedural_posture, ProceduralPosture::OpposeCloture | ProceduralPosture::BlockByProcedure);
    let divergence: i64 = if side && blocks {
        2000
    } else {
        0
    };
    let soft: i64 = if side && st.public_support < 5500 {
        1200
    } else {
        0
    };
    st.defection_probability + divergence + soft
}

/// The five senators on the coalition side most likely to defect.
fn likely_defectors(stances: &[SenatorStance]) -> (r: Vec<SenatorSignalSummary>)
    requires
        all_wf(stances@),
    ensures
        r@.len() == top_defectors(stances@).len(),
        r@.len() <= 5,
        forall|k: int| 0 <= k < r@.len() ==> summarises(
            #[trigger] r@[k],
            stances@[top_defectors(stances@)[k].1],
            defector_reason(),
        ),
{
    let ghost s = stances@;
    let mut ranked_pairs: Vec<(i64, usize)> = Vec::new();
    let mut i: usize = 0;
    while i < stances.len()
        invariant
            s == stances@,
            i <= s.len(),
            all_wf(s),
            pair_views(ranked_pairs@) == rank_desc(defector_pairs(s.subrange(0, i as int))),
            ranked(pair_views(ranked_pairs@)),
        decreases stances.len() - i,
    {
        let ghost p = defector_pairs(s.subrange(0, i as int));
        proof {
            assert(s.subrange(0, i + 1).drop_last() =~= s.subrange(0, i as int));
            assert(s[i as int].wf());
        }
        let score = defector_score_exec(&stances[i]);
        if score >= 3800 {
            insert_ranked_exec(&mut ranked_pairs, (score, i));
            proof {
                assert(p.push((score as int, i as int)).drop_last() =~= p);
            }
        }
        i = i + 1;
    }
    proof {
        assert(s.subrange(0, s.len() as int) =~= s);
        lemma_defector_pairs(s);
        lemma_ranked_indices(defector_pairs(s), s.len() as int);
        lemma_rank_desc(defector_pairs(s));
    }
    let ghost ranked_all = rank_desc(defector_pairs(s));
    let limit: usize = if ranked_pairs.len() < 5 {
        ranked_pairs.len()
    } else {
        5
    };
    let mut out: Vec<SenatorSignalSummary> = Vec::new();
    let mut k: usize = 0;
    while k < limit
        invariant
            s == stances@,
            limit <= ranked_pairs@.len(),
            limit <= 5,
            pair_views(ranked_pairs@) == ranked_all,
            ranked_all == rank_desc(defector_pairs(s)),
            forall|j: int| 0 <= j < ranked_all.len() ==> 0 <= (#[trigger] ranked_all[j]).1 < s.len(),
            k <= limit,
            out@.len() == k,
            forall|j: int| 0 <= j < k ==> summarises(#[trigger] out@[j], s[ranked_all[j].1], defector_reason()),
        decreases limit - k,
    {
        let idx = ranked_pairs[k].1;
        proof {
            assert(ranked_all[k as int].1 == idx);
        }
        out.push(summary_of(&stances[idx], "coalition-side support is vulnerable to defection under pressure"));
        k = k + 1;
    }
    proof {
        assert forall|j: int| 0 <= j < out@.len() implies summarises(
            #[trigger] out@[j],
            stances@[top_defectors(stances@)[j].1],
            defector_reason(),
        ) by {
            assert(top_defectors(s)[j] == ranked_all[j]);
        }
    }
    out
}

fn pivot_score_exec(st: &SenatorStance, pressure: i64) -> (r: i64)
    requires
        st.wf(),
        unit(pressure as int),
    ensures
        r == pivot_score(*st, pressure as int),
{
    let ds = if st.substantive_support >= 5000 {
        st.substantive_support - 5000
    } else {
        5000 - st.substantive_support
    };
    let dp = if st.procedural_support >= 5500 {
        st.procedural_support - 5500
    } else {
        5500 - st.procedural_support
    };
    let im = 10000 - 2 * ds;
    let pm = 10000 - 2 * dp;
    let im0 = if im >= 0 {
        im
    } else {
        0
    };
    let pm0 = if pm >= 0 {
        pm
    } else {
        0
    };
    im0 * 3500 + pm0 * 3000 + st.negotiability * 2000 + pressure * 1500
}

fn pivot_of(st: &SenatorStance) -> (r: PivotSummary)
    ensures
        pivot_summarises(r, *st),
{
    let reason = if matches!(st.stance_label, StanceLabel::Undecided) {
        String::from_str("undecided stance leaves this senator near the coalition boundary")
    } else if st.procedural_support < 6000 && st.substantive_support >= 5000 {
        String::from_str("substantive support exists, but procedural hesitation makes this senator pivotal")
    } else {
        String::from_str("marginal support and meaningful negotiability make this senator pivotal")
    };
    PivotSummary {
        senator_id: st.senator_id.clone(),
        stance_label: st.stance_label,
        procedural_posture: st.procedural_posture,
        substantive_support: st.substantive_support,
        procedural_support: st.procedural_support,
        negotiability: st.negotiability,
        reason,
    }
}

/// The five most pivotal senators, most pivotal first.
fn pivotal_senators(stances: &[SenatorStance], pressure: i64) -> (r: Vec<PivotSummary>)
    requires
        all_wf(stances@),
        unit(pressure as int),
    ensures
        r@.len() == take5(rank_desc(pivot_pairs(stances@, pressure as int))).len(),
        r@.len() <= 5,
        forall|k: int| 0 <= k < r@.len() ==> pivot_summarises(
            #[trigger] r@[k],
            stances@[take5(rank_desc(pivot_pairs(stances@, pressure as int)))[k].1],
        ),
{
    let ghost s = stances@;
    let ghost pr = pressure as int;
    let mut ranked_pairs: Vec<(i64, usize)> = Vec::new();
    let mut i: usize = 0;
    while i < stances.len()
        invariant
            s == stances@,
            pr == pressure as int,
            unit(pressure as int),
            i <= s.len(),
            all_wf(s),
            pair_views(ranked_pairs@) == rank_desc(pivot_pairs(s.subrange(0, i as int), pr)),
            ranked(pair_views(ranked_pairs@)),
        decreases stances.len() - i,
    {
        let ghost p = pivot_pairs(s.subrange(0, i as int), pr);
        proof {
            assert(s.subrange(0, i + 1).drop_last() =~= s.subrange(0, i as int));
            assert(s[i as int].wf());
        }
        let st = &stances[i];
        let candidate = matches!(st.stance_label, StanceLabel::LeanSupport | StanceLabel::Undecided | StanceLabel::LeanOppose)
            || (3500 <= st.procedural_support && st.procedural_support <= 7500);
        if candidate {
            let score = pivot_score_exec(st, pressure);
            insert_ranked_exec(&mut ranked_pairs, (score, i));
            proof {
                assert(p.push((score as int, i as int)).drop_last() =~= p);
            }
        }
        i = i + 1;
    }
    proof {
        assert(s.subrange(0, s.len() as int) =~= s);
        lemma_pivot_pairs(s, pr);
        lemma_ranked_indices(pivot_pairs(s, pr), s.len() as int);
        lemma_rank_desc(pivot_pairs(s, pr));
    }
    let ghost ranked_all = rank_desc(pivot_pairs(s, pr));
    let limit: usize = if ranked_pairs.len() < 5 {
        ranked_pairs.len()
    } else {
        5
    };
    let mut out: Vec<PivotSummary> = Vec::new();
    let mut k: usize = 0;
    while k < limit
        invariant
            s == stances@,
            limit <= ranked_pairs@.len(),
            limit <= 5,
            pair_views(ranked_pairs@) == ranked_all,
            forall|j: int| 0 <= j < ranked_all.len() ==> 0 <= (#[trigger] ranked_all[j]).1 < s.len(),
            k <= limit,
            out@.len() == k,
            forall|j: int| 0 <= j < k ==> pivot_summarises(#[trigger] out@[j], s[ranked_all[j].1]),
        decreases limit - k,
    {
        let idx = ranked_pairs[k].1;
        proof {
            assert(ranked_all[k as int].1 == idx);
        }
        out.push(pivot_of(&stances[idx]));
        k = k + 1;
    }
    proof {
        assert forall|j: int| 0 <= j < out@.len() implies pivot_summarises(
            #[trigger] out@[j],
            stances@[take5(rank_desc(pivot_pairs(stances@, pressure as int)))[j].1],
        ) by {
            assert(take5(ranked_all)[j] == ranked_all[j]);
        }
    }
    out
}

pub struct LabelCounts {
    pub support: usize,
    pub lean_support: usize,
    pub undecided: usize,
    pub lean_oppose: usize,
    pub oppose: usize,
}

fn label_counts(stances: &[SenatorStance]) -> (r: LabelCounts)
    ensures
        r.support == count_label(stances@, StanceLabel::Support),
        r.lean_support == count_label(stances@, StanceLabel::LeanSupport),
        r.undecided == count_label(stances@, StanceLabel::Undecided),
        r.lean_oppose == count_label(stances@, StanceLabel::LeanOppose),
        r.oppose == count_label(stances@, StanceLabel::Oppose),
        r.support + r.lean_support + r.undecided + r.lean_oppose + r.oppose == stances@.len(),
{
    let ghost s = stances@;
    let mut c = LabelCounts { support: 0, lean_support: 0, undecided: 0, lean_oppose: 0, oppose: 0 };
    let mut i: usize = 0;
    while i < stances.len()
        invariant
            s == stances@,
            i <= s.len(),
            c.support == count_label(s.subrange(0, i as int), StanceLabel::Support),
            c.lean_support == count_label(s.subrange(0, i as int), StanceLabel::LeanSupport),
            c.undecided == count_label(s.subrange(0, i as int), StanceLabel::Undecided),
            c.lean_oppose == count_label(s.subrange(0, i as int), StanceLabel::LeanOppose),
            c.oppose == count_label(s.subrange(0, i as int), StanceLabel::Oppose),
            c.support + c.lean_support + c.undecided + c.lean_oppose + c.oppose == i,
        decreases stances.len() - i,
    {
        proof {
            assert(s.subrange(0, i + 1).drop_last() =~= s.subrange(0, i as int));
        }
        match stances[i].stance_label {
            StanceLabel::Support => c.support = c.support + 1,
            StanceLabel::LeanSupport => c.lean_support = c.lean_support + 1,
            StanceLabel::Undecided => c.undecided = c.undecided + 1,
            StanceLabel::LeanOppose => c.lean_oppose = c.lean_oppose + 1,
            StanceLabel::Oppose => c.oppose = c.oppose + 1,
        }
        i = i + 1;
    }
    proof {
        assert(s.subrange(0, s.len() as int) =~= s);
    }
    c
}

fn majority_contribution_exec(st: &SenatorStance) -> (r: i64)
    requires
        st.wf(),
    ensures
        r == majority_contribution(*st),
        0 <= r <= 100000,
{
    match st.stance_label {
        StanceLabel::Support => 100000,
        StanceLabel::LeanSupport => 100000,
        StanceLabel::Undecided => 5 * st.negotiability + 5 * st.procedural_support,
        StanceLabel::LeanOppose => 2 * st.negotiability,
        StanceLabel::Oppose => 0,
    }
}

/// The exact probable majority, in hundred-thousandths of a vote.
fn majority_total(stances: &[SenatorStance]) -> (r: i128)
    requires
        all_wf(stances@),
    ensures
        r == majority_weight_sum(stances@),
        0 <= r <= stances@.len() * 100000,
{
    let ghost s = stances@;
    let mut acc: i128 = 0;
    let mut i: usize = 0;
    while i < stances.len()
        invariant
            s == stances@,
            i <= s.len(),
            all_wf(s),
            acc == majority_weight_sum(s.subrange(0, i as int)),
            0 <= acc <= i * 100000,
        decreases stances.len() - i,
    {
        proof {
            lemma_sum_step(s, i as int, |st: SenatorStance| true, |st: SenatorStance| majority_contribution(st));
            assert(s[i as int].wf());
        }
        acc = acc + majority_contribution_exec(&stances[i]) as i128;
        i = i + 1;
    }
    proof {
        assert(s.subrange(0, s.len() as int) =~= s);
    }
    acc
}

fn clamp_cloture(x: i64) -> (r: i64)
    ensures
        r == clamp_cloture_unit(x as int),
{
    if x < 0 {
        0
    } else if x > 200000 {
        200000
    } else {
        x
    }
}

fn cloture_contribution(st: &SenatorStance, stage: &ProceduralStage) -> (r: i64)
    requires
        st.wf(),
    ensures
        r == cloture_contribution_spec(*st, *stage),
        0 <= r <= 200000,
{
    match st.procedural_posture {
        ProceduralPosture::SupportCloture => 200000,
        ProceduralPosture::OpposeCloture | ProceduralPosture::BlockByProcedure => 0,
        ProceduralPosture::SupportDebate | ProceduralPosture::SupportAmendmentProcess => clamp_cloture(
            90000 + 9 * st.procedural_support,
        ),
        ProceduralPosture::OpposeDebate => 20000,
        ProceduralPosture::Unclear => if matches!(stage, ProceduralStage::ClotureFiled | ProceduralStage::ClotureVote) {
            clamp_cloture(15 * st.procedural_support)
        } else {
            clamp_cloture(12 * st.procedural_support)
        },
    }
}

/// The exact probable cloture votes, in two-hundred-thousandths of a vote.
fn cloture_total(stances: &[SenatorStance], stage: &ProceduralStage) -> (r: i128)
    requires
        all_wf(stances@),
    ensures
        r == cloture_weight_sum(stances@, *stage),
        0 <= r <= stances@.len() * 200000,
{
    let ghost s = stances@;
    let mut acc: i128 = 0;
    let mut i: usize = 0;
    while i < stances.len()
        invariant
            s == stances@,
            i <= s.len(),
            all_wf(s),
            acc == cloture_weight_sum(s.subrange(0, i as int), *stage),
            0 <= acc <= i * 200000,
        decreases stances.len() - i,
    {
        proof {
            lemma_sum_step(s, i as int, |st: SenatorStance| true, |st: SenatorStance| cloture_contribution_spec(st, *stage));
            assert(s[i as int].wf());
        }
        acc = acc + cloture_contribution(&stances[i], stage) as i128;
        i = i + 1;
    }
    proof {
        assert(s.subrange(0, s.len() as int) =~= s);
    }
    acc
}

fn hostility_total(stances: &[SenatorStance]) -> (r: i128)
    requires
        all_wf(stances@),
    ensures
        r == hostility_sum(stances@),
        0 <= r <= stances@.len() * 10000,
{
    let ghost s = stances@;
    let mut acc: i128 = 0;
    let mut i: usize = 0;
    while i < stances.len()
        invariant
            s == stances@,
            i <= s.len(),
            all_wf(s),
            acc == hostility_sum(s.subrange(0, i as int)),
            0 <= acc <= i * 10000,
        decreases stances.len() - i,
    {
        proof {
            lemma_sum_step(s, i as int, |st: SenatorStance| st.procedural_support < 4000, |st: SenatorStance| st.rigidity as int);
            assert(s[i as int].wf());
        }
        if stances[i].procedural_support < 4000 {
            acc = acc + stances[i].rigidity as i128;
        }
        i = i + 1;
    }
    proof {
        assert(s.subrange(0, s.len() as int) =~= s);
    }
    acc
}

pub struct MemberSums {
    pub negotiability: i128,
    pub defection: i128,
    pub absence: i128,
    pub alignment: i128,
    pub rigidity: i128,
}

fn member_sums(stances: &[SenatorStance]) -> (r: MemberSums)
    requires
        all_wf(stances@),
    ensures
        r.negotiability == member_sum(stances@, |st: SenatorStance| st.negotiability as int),
        r.defection == member_sum(stances@, |st: SenatorStance| st.defection_probability as int),
        r.absence == member_sum(stances@, |st: SenatorStance| st.absence_probability as int),
        r.alignment == member_sum(stances@, |st: SenatorStance| st.substantive_support + st.procedural_support),
        r.rigidity == member_sum(stances@, |st: SenatorStance| st.rigidity as int),
        0 <= r.negotiability <= stances@.len() * 10000,
        0 <= r.defection <= stances@.len() * 10000,
        0 <= r.absence <= stances@.len() * 10000,
        0 <= r.alignment <= stances@.len() * 20000,
        0 <= r.rigidity <= stances@.len() * 10000,
{
    let ghost s = stances@;
    let mut m = MemberSums { negotiability: 0, defection: 0, absence: 0, alignment: 0, rigidity: 0 };
    let mut i: usize = 0;
    while i < stances.len()
        invariant
            s == stances@,
            i <= s.len(),
            all_wf(s),
            m.negotiability == member_sum(s.subrange(0, i as int), |st: SenatorStance| st.negotiability as int),
            m.defection == member_sum(s.subrange(0, i as int), |st: SenatorStance| st.defection_probability as int),
            m.absence == member_sum(s.subrange(0, i as int), |st: SenatorStance| st.absence_probability as int),
            m.alignment == member_sum(s.subrange(0, i as int), |st: SenatorStance| st.substantive_support + st.procedural_support),
            m.rigidity == member_sum(s.subrange(0, i as int), |st: SenatorStance| st.rigidity as int),
            0 <= m.negotiability <= i * 10000,
            0 <= m.defection <= i * 10000,
            0 <= m.absence <= i * 10000,
            0 <= m.alignment <= i * 20000,
            0 <= m.rigidity <= i * 10000,
        decreases stances.len() - i,
    {
        proof {
            let side = |st: SenatorStance| coalition_side(st.stance_label);
            lemma_sum_step(s, i as int, side, |st: SenatorStance| st.negotiability as int);
            lemma_sum_step(s, i as int, side, |st: SenatorStance| st.defection_probability as int);
            lemma_sum_step(s, i as int, side, |st: SenatorStance| st.absence_probability as int);
            lemma_sum_step(s, i as int, side, |st: SenatorStance| st.substantive_support + st.procedural_support);
            lemma_sum_step(s, i as int, side, |st: SenatorStance| st.rigidity as int);
            assert(s[i as int].wf());
        }
        let st = &stances[i];
        if matches!(st.stance_label, StanceLabel::Support | StanceLabel::LeanSupport) {
            m.negotiability = m.negotiability + st.negotiability as i128;
            m.defection = m.defection + st.defection_probability as i128;
            m.absence = m.absence + st.absence_probability as i128;
            m.alignment = m.alignment + (st.substantive_support + st.procedural_support) as i128;
            m.rigidity = m.rigidity + st.rigidity as i128;
        }
        i = i + 1;
    }
    proof {
        assert(s.subrange(0, s.len() as int) =~= s);
    }
    m
}

fn coalition_stability(
    stances: &[SenatorStance],
    counts: &LabelCounts,
    majority: i128,
    threshold: usize,
) -> (r: i64)
    requires
        all_wf(stances@),
        counts.support == count_label(stances@, StanceLabel::Support),
        counts.lean_support == count_label(stances@, StanceLabel::LeanSupport),
        counts.support + counts.lean_support <= stances@.len(),
        majority == majority_sum(stances@),
        0 <= majority <= stances@.len() * 10000,
        threshold == majority_threshold_spec(stances@),
        1 <= threshold <= stances@.len() + 1,
    ensures
        r == coalition_stability_spec(stances@),
        unit(r as int),
{
    let n_len = stances.len();
    let support = counts.support;
    let m = counts.support + counts.lean_support;
    if m == 0 {
        return 0;
    }
    let sums = member_sums(stances);
    let n = stances.len() as i128;
    let mi = m as i128;
    let lean_share = (10000 - ratio(support, m)) as i128;
    let neg = sums.negotiability / mi;
    let def = sums.defection / mi;
    let abs = sums.absence / mi;
    let align = sums.alignment / (2 * mi);
    let rig = sums.rigidity / mi;
    let thr = threshold as i128;
    let margin: i128 = if majority > thr * 10000 {
        (majority - thr * 10000) / thr
    } else {
        0
    };
    proof {
        let side_n = |st: SenatorStance| st.negotiability as int;
        lemma_member_bound(stances@, |st: SenatorStance| st.negotiability as int, 10000);
        lemma_member_bound(stances@, |st: SenatorStance| st.defection_probability as int, 10000);
        lemma_member_bound(stances@, |st: SenatorStance| st.absence_probability as int, 10000);
        lemma_member_bound(stances@, |st: SenatorStance| st.substantive_support + st.procedural_support, 20000);
        lemma_member_bound(stances@, |st: SenatorStance| st.rigidity as int, 10000);
        let mm = mi as int;
        lemma_avg_bound(sums.negotiability as int, mm, 10000);
        lemma_avg_bound(sums.defection as int, mm, 10000);
        lemma_avg_bound(sums.absence as int, mm, 10000);
        lemma_avg_bound(sums.rigidity as int, mm, 10000);
        lemma_avg_bound(sums.alignment as int, 2 * mm, 10000);
        let ti = thr as int;
        let mj = majority as int;
        if mj > ti * 10000 {
            let nn = n as int;
            assert(mj - ti * 10000 <= ti * (nn * 10000)) by (nonlinear_arith)
                requires
                    mj <= nn * 10000,
                    1 <= ti,
                    0 <= nn,
            ;
            lemma_avg_bound(mj - ti * 10000, ti, nn * 10000);
        }
    }
    clamp_wide_big(
        2000 * 10000 + margin * 3000 + align * 2000 + rig * 1500 - lean_share * 2000 - neg * 1200
            - def * 1800 - abs * 1000,
    )
}

/// A member sum is bounded by the member count times the per-senator bound.
proof fn lemma_member_bound(s: Seq<SenatorStance>, f: spec_fn(SenatorStance) -> int, b: int)
    requires
        0 <= b,
        forall|i: int| 0 <= i < s.len() ==> 0 <= #[trigger] f(s[i]) <= b,
    ensures
        0 <= member_sum(s, f) <= (count_label(s, StanceLabel::Support) + count_label(
            s,
            StanceLabel::LeanSupport,
        )) * b,
    decreases s.len(),
{
    if s.len() > 0 {
        let d = s.drop_last();
        assert forall|i: int| 0 <= i < d.len() implies 0 <= #[trigger] f(d[i]) <= b by {
            assert(d[i] == s[i]);
        }
        lemma_member_bound(d, f, b);
        assert(0 <= f(s[s.len() - 1]) <= b);
        let cd = count_label(d, StanceLabel::Support) + count_label(d, StanceLabel::LeanSupport);
        let cs = count_label(s, StanceLabel::Support) + count_label(s, StanceLabel::LeanSupport);
        let side = coalition_side(s.last().stance_label);
        assert(cs == cd + if side {
            1int
        } else {
            0int
        });
        assert((cd + 1) * b == cd * b + b) by (nonlinear_arith);
    }
}

proof fn lemma_avg_bound(total: int, m: int, b: int)
    requires
        0 < m,
        0 <= total <= m * b,
    ensures
        0 <= total / m <= b,
{
    assert(0 <= total / m <= b) by (nonlinear_arith)
        requires
            0 < m,
            0 <= total <= m * b,
    ;
}

fn threshold_pressure(majority: i128, threshold: usize, cloture: i128) -> (r: i64)
    requires
        0 <= majority,
        0 <= cloture,
        majority <= 0x7fff_ffff_ffff_ffff_ffff,
        cloture <= 0x7fff_ffff_ffff_ffff_ffff,
    ensures
        unit(r as int),
        r == max_spec(
            clamp_unit_spec((30000 - min_spec(abs_spec(majority - threshold * 10000), 30000)) / 3),
            clamp_unit_spec((40000 - min_spec(abs_spec(600000 - cloture), 40000)) / 4),
        ),
{
    let thr = threshold as i128;
    let dm = majority - thr * 10000;
    let mm = if dm < 0 {
        -dm
    } else {
        dm
    };
    let dc = 600000 - cloture;
    let cm = if dc < 0 {
        -dc
    } else {
        dc
    };
    let mm3: i64 = if mm < 30000 {
        mm as i64
    } else {
        30000
    };
    let cm4: i64 = if cm < 40000 {
        cm as i64
    } else {
        40000
    };
    let a = (30000 - mm3) / 3;
    let b = (40000 - cm4) / 4;
    let ca = if a > 10000 {
        10000
    } else {
        a
    };
    let cb = if b > 10000 {
        10000
    } else {
        b
    };
    if ca >= cb {
        ca
    } else {
        cb
    }
}

fn filibuster_risk(
    stances: &[SenatorStance],
    stage: &ProceduralStage,
    cloture: i128,
    blocker_count: usize,
    undecided: usize,
) -> (r: i64)
    requires
        all_wf(stances@),
        stances@.len() > 0,
        cloture == cloture_sum(stances@, *stage),
        0 <= cloture <= stances@.len() * 10000,
        undecided == count_label(stances@, StanceLabel::Undecided),
    ensures
        r == filibuster_risk_spec(stances@, *stage, blocker_count as int),
        unit(r as int),
{
    let n = stances.len();
    let gap: i128 = if cloture >= 600000 {
        0
    } else {
        (600000 - cloture) / 60
    };
    let intensity = ratio(blocker_count, n) as i128;
    let hostile = hostility_total(stances);
    let hostility = hostile / (n as i128);
    let undecided_share = ratio(undecided, n) as i128;
    proof {
        lemma_avg_bound(hostile as int, n as int, 10000);
    }
    clamp_wide_big(gap * 5500 + intensity * 2000 + hostility * 1500 + undecided_share * 1000)
}

fn push_text(out: &mut String, s: &str)
    ensures
        final(out)@ == old(out)@ + s@,
{
    out.append(s);
}

fn findings(
    support_votes: usize,
    expected: usize,
    majority: i128,
    threshold: usize,
    cloture: i128,
    smv: bool,
    cv: bool,
    stability: i64,
    blockers: usize,
    defectors: usize,
) -> (r: Vec<String>)
    requires
        0 <= majority,
        0 <= cloture,
    ensures
        string_views(r@) == findings_spec(
            support_votes as int,
            expected as int,
            majority as int,
            threshold as int,
            cloture as int,
            smv,
            cv,
            stability as int,
            blockers as int,
            defectors as int,
        ),
{
    let mut out: Vec<String> = Vec::new();
    let mut f1 = String::from_str("current support coalition is ");
    push_text(&mut f1, decimal_text(support_votes as u128).as_str());
    push_text(&mut f1, " likely/lean supporters out of ");
    push_text(&mut f1, decimal_text(expected as u128).as_str());
    push_text(&mut f1, " expected present");
    out.push(f1);
    let maj_tenths = ((majority / 1000) + if majority % 1000 >= 500 { 1 } else { 0 }) as u128;
    let clo_tenths = ((cloture / 1000) + if cloture % 1000 >= 500 { 1 } else { 0 }) as u128;
    let f2 = if smv {
        let mut t = String::from_str("simple majority is viable at an estimated ");
        push_text(&mut t, tenths_text(maj_tenths).as_str());
        push_text(&mut t, " votes against a ");
        push_text(&mut t, decimal_text(threshold as u128).as_str());
        push_text(&mut t, "-vote threshold");
        t
    } else {
        let mut t = String::from_str("simple majority is not yet viable; estimated support is ");
        push_text(&mut t, tenths_text(maj_tenths).as_str());
        push_text(&mut t, " against a ");
        push_text(&mut t, decimal_text(threshold as u128).as_str());
        push_text(&mut t, "-vote threshold");
        t
    };
    out.push(f2);
    let f3 = if cv {
        let mut t = String::from_str("procedural coalition reaches an estimated ");
        push_text(&mut t, tenths_text(clo_tenths).as_str());
        push_text(&mut t, " cloture votes and clears the 60-vote threshold");
        t
    } else {
        let mut t = String::from_str("cloture remains short at an estimated ");
        push_text(&mut t, tenths_text(clo_tenths).as_str());
        push_text(&mut t, " procedural votes");
        t
    };
    out.push(f3);
    let f4 = if stability >= 6500 {
        String::from_str("coalition stability is relatively strong at this snapshot")
    } else if stability >= 4000 {
        String::from_str("coalition exists but remains somewhat fragile")
    } else {
        String::from_str("coalition stability is weak and vulnerable to movement")
    };
    out.push(f4);
    if blockers > 0 {
        let mut t = decimal_text(blockers as u128);
        push_text(&mut t, " likely procedural blockers materially raise filibuster risk");
        out.push(t);
    }
    if defectors > 0 {
        let mut t = decimal_text(defectors as u128);
        push_text(&mut t, " coalition-side senators show meaningful defection risk");
        out.push(t);
    }
    proof {
        assert(string_views(out@) =~= findings_spec(
            support_votes as int,
            expected as int,
            majority as int,
            threshold as int,
            cloture as int,
            smv,
            cv,
            stability as int,
            blockers as int,
            defectors as int,
        ));
    }
    out
}

/// The chamber analysis that `analyze_chamber` produces, field by field.
pub open spec fn analysis_matches(
    a: SenateAnalysis,
    obj: LegislativeObject,
    ctx: LegislativeContext,
    s: Seq<SenatorStance>,
) -> bool {
    let stage = ctx.procedural_stage;
    let support = count_label(s, StanceLabel::Support);
    let lean = count_label(s, StanceLabel::LeanSupport);
    let blockers = top_blockers(s);
    let defectors = top_defectors(s);
    let pivots = top_pivots(s, stage);
    &&& a.object_id@ == obj.object_id@
    &&& a.procedural_stage == stage
    &&& a.total_senators == s.len()
    &&& a.likely_support_count == support
    &&& a.lean_support_count == lean
    &&& a.undecided_count == count_label(s, StanceLabel::Undecided)
    &&& a.lean_oppose_count == count_label(s, StanceLabel::LeanOppose)
    &&& a.likely_oppose_count == count_label(s, StanceLabel::Oppose)
    &&& a.expected_present_count == expected_present_spec(s)
    &&& a.simple_majority_viable == majority_viable_spec(s)
    &&& a.cloture_viable == cloture_viable_spec(s, stage)
    &&& a.filibuster_risk == filibuster_risk_spec(s, stage, blockers.len() as int)
    &&& a.coalition_stability == coalition_stability_spec(s)
    &&& a.likely_blockers@.len() == blockers.len()
    &&& forall|k: int| 0 <= k < blockers.len() ==> summarises(
        #[trigger] a.likely_blockers@[k],
        s[blockers[k].1],
        blocker_reason(),
    )
    &&& a.likely_defectors@.len() == defectors.len()
    &&& forall|k: int| 0 <= k < defectors.len() ==> summarises(
        #[trigger] a.likely_defectors@[k],
        s[defectors[k].1],
        defector_reason(),
    )
    &&& a.pivotal_senators@.len() == pivots.len()
    &&& forall|k: int| 0 <= k < pivots.len() ==> pivot_summarises(
        #[trigger] a.pivotal_senators@[k],
        s[pivots[k].1],
    )
    &&& string_views(a.top_findings@) == findings_spec(
        support + lean,
        expected_present_spec(s),
        majority_sum(s),
        majority_threshold_spec(s),
        cloture_sum(s, stage),
        majority_viable_spec(s),
        cloture_viable_spec(s, stage),
        coalition_stability_spec(s),
        blockers.len() as int,
        defectors.len() as int,
    )
}

/// Analyzes the chamber for one legislative object from every senator's
/// stance: stance buckets, expected attendance, probable majority and cloture
/// votes, filibuster risk, coalition stability, pivotal senators, likely
/// blockers and defectors, and the headline findings.
pub fn analyze_chamber(
    legislative_object: &LegislativeObject,
    context: &LegislativeContext,
    stances: &[SenatorStance],
) -> (r: Result<SenateAnalysis, SenateSimError>)
    ensures
        r is Ok <==> (legislative_object.wf() && context.wf() && stances_ok(
            *legislative_object,
            stances@,
        )),
        r matches Ok(a) ==> analysis_matches(a, *legislative_object, *context, stances@) && a.wf(),
        legislative_object.wf() && context.wf() && stances@.len() == 0 ==> (r matches Err(
            SenateSimError::Validation { field, .. },
        ) && field@ == "stances"@),
        legislative_object.wf() && context.wf() && all_wf(stances@) && (exists|i: int|
            0 <= i < stances@.len() && (#[trigger] stances@[i]).object_id@ != legislative_object.object_id@)
            ==> (r matches Err(SenateSimError::Validation { field, .. }) && field@ == "stances.object_id"@),
{
    legislative_object.validate()?;
    context.validate()?;
    if stances.len() == 0 {
        return Err(SenateSimError::validation("stances", "must contain at least one senator stance"));
    }
    let mut i: usize = 0;
    while i < stances.len()
        invariant
            i <= stances@.len(),
            forall|k: int| 0 <= k < i ==> (#[trigger] stances@[k]).wf() && stances@[k].object_id@
                == legislative_object.object_id@,
        decreases stances.len() - i,
    {
        stances[i].validate()?;
        if stances[i].object_id != legislative_object.object_id {
            return Err(SenateSimError::validation("stances.object_id", "all stances must refer to the analyzed legislative object"));
        }
        i = i + 1;
    }
    let ghost s = stances@;
    let n = stances.len();
    let counts = label_counts(stances);
    let presence = presence_total(stances);
    let rounded = (presence + 5000) / 10000;
    let expected_present: usize = if rounded > n as i128 {
        n
    } else {
        rounded as usize
    };
    let threshold = expected_present / 2 + 1;
    let support_votes = counts.support + counts.lean_support;
    let majority_exact = majority_total(stances);
    let smv = majority_exact >= (threshold as i128) * MAJORITY_UNIT;
    let majority = majority_exact / 10;
    let cloture_exact = cloture_total(stances, &context.procedural_stage);
    let cv = cloture_exact >= 60 * CLOTURE_UNIT;
    let cloture = cloture_exact / 20;
    let blockers = likely_blockers(stances);
    let defectors = likely_defectors(stances);
    let risk = filibuster_risk(stances, &context.procedural_stage, cloture, blockers.len(), counts.undecided);
    let stability = coalition_stability(stances, &counts, majority, threshold);
    let pressure = threshold_pressure(majority, threshold, cloture);
    proof {
        assert(pressure == threshold_pressure_spec(s, context.procedural_stage));
    }
    let pivots = pivotal_senators(stances, pressure);
    let top_findings = findings(
        support_votes,
        expected_present,
        majority,
        threshold,
        cloture,
        smv,
        cv,
        stability,
        blockers.len(),
        defectors.len(),
    );
    let analysis = SenateAnalysis {
        object_id: legislative_object.object_id.clone(),
        procedural_stage: context.procedural_stage.copy(),
        total_senators: n,
        likely_support_count: counts.support,
        lean_support_count: counts.lean_support,
        undecided_count: counts.undecided,
        lean_oppose_count: counts.lean_oppose,
        likely_oppose_count: counts.oppose,
        expected_present_count: expected_present,
        simple_majority_viable: smv,
        cloture_viable: cv,
        filibuster_risk: risk,
        coalition_stability: stability,
        pivotal_senators: pivots,
        likely_defectors: defectors,
        likely_blockers: blockers,
        top_findings,
    };
    analysis.validate()?;
    Ok(analysis)
}

/// How many stances hold a procedural posture.
pub open spec fn count_posture(s: Seq<SenatorStance>, p: ProceduralPosture) -> int
    decreases s.len(),
{
    if s.len() == 0 {
        0
    } else {
        count_posture(s.drop_last(), p) + if s.last().procedural_posture == p {
            1int
        } else {
            0int
        }
    }
}

/// Every stance adds between nothing and one whole vote to the probable
/// cloture count, and a stance that supports cloture adds one whole vote.
pub proof fn law_cloture_vote_bounds(s: Seq<SenatorStance>, stage: ProceduralStage)
    ensures
        200000 * count_posture(s, ProceduralPosture::SupportCloture) <= cloture_weight_sum(s, stage),
        cloture_weight_sum(s, stage) <= 200000 * s.len(),
        0 <= cloture_weight_sum(s, stage),
    decreases s.len(),
{
    if s.len() > 0 {
        law_cloture_vote_bounds(s.drop_last(), stage);
        let st = s.last();
        let c = cloture_contribution_spec(st, stage);
        assert(0 <= c <= 200000);
        assert(st.procedural_posture == ProceduralPosture::SupportCloture ==> c == 200000);
        assert(cloture_weight_sum(s, stage) == cloture_weight_sum(s.drop_last(), stage) + c);
    }
}

/// A chamber in which at least 60 senators support cloture has cloture in
/// reach: the probable cloture count (in ten-thousandths of a vote) is at
/// least one vote for each of them, and a chamber where every senator
/// supports cloture counts exactly one vote per senator.
pub proof fn law_cloture_supporters_make_cloture_viable(s: Seq<SenatorStance>, stage: ProceduralStage)
    ensures
        cloture_sum(s, stage) >= 10000 * count_posture(s, ProceduralPosture::SupportCloture),
        count_posture(s, ProceduralPosture::SupportCloture) >= 60 ==> cloture_viable_spec(s, stage),
        count_posture(s, ProceduralPosture::SupportCloture) == s.len() ==> cloture_sum(s, stage) == 10000 * s.len(),
{
    law_cloture_vote_bounds(s, stage);
}

/// The analysis `analyze_chamber` gives of a chamber where at least 60
/// senators support cloture finds cloture viable.
pub proof fn law_analysis_finds_cloture_with_sixty_supporters(
    a: SenateAnalysis,
    obj: LegislativeObject,
    ctx: LegislativeContext,
    s: Seq<SenatorStance>,
)
    requires
        analysis_matches(a, obj, ctx, s),
        count_posture(s, ProceduralPosture::SupportCloture) >= 60,
    ensures
        a.cloture_viable,
{
    law_cloture_supporters_make_cloture_viable(s, ctx.procedural_stage);
}

} // verus!
