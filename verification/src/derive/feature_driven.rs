//! Feature-driven stance derivation: scores built from a senator's historical
//! features (domain affinity, party alignment, procedural compatibility),
//! shrunk toward neutral when the feature coverage is thin.

use vstd::prelude::*;
use crate::derive::stance::{
    base_issue_alignment, base_issue_alignment_spec, context_id_spec, derive_procedural_posture,
    derive_public_position, derive_stance_heuristic, derive_stance_label, heuristic_scores,
    procedural_posture_spec, public_position_spec, stage_debug_text, stage_text,
    stance_has_scores, stance_label_spec, take_n, top_factors_spec, truncate_texts,
};
use crate::model::context::{Chamber, LegislativeContext, ProceduralStage};
use crate::model::error::SenateSimError;
use crate::model::legislative::LegislativeObject;
use crate::model::senator::Senator;
use crate::model::stance::{SenatorStance, StanceScoreBreakdown};
use crate::util::score::{
    abs_spec, clamp_cube, clamp_cube_spec, clamp_wide, clamp_wide_spec, floor_div, prod3,
    signed_unit, unit,
};
use crate::util::text::{
    copy_texts, decimal_digits, decimal_text, hundredths_digits, score_hundredths, score_text,
    string_views,
};

verus! {

/// Coverage at or below this (ten-thousandths) sends a senator to the
/// heuristic scorer.
pub const MIN_FEATURE_COVERAGE: i64 = 500;

/// Coverage below this (ten-thousandths) is called sparse.
pub const SPARSE_COVERAGE: i64 = 4500;

/// The senator's feature coverage, 0 when unknown.
pub open spec fn coverage_of(sen: Senator) -> int {
    match sen.feature_coverage_score {
        Some(c) => c as int,
        None => 0,
    }
}

/// Deadline pressure (ten-thousandths) for the feature-driven scorer.
pub open spec fn feature_deadline_pressure(days: Option<i32>) -> int {
    match days {
        Some(d) => if d <= 7 {
            10000
        } else if d <= 21 {
            7500
        } else if d <= 45 {
            4500
        } else {
            1500
        },
        None => 500,
    }
}

/// How close the senator's party stands to the leadership: 1 for the
/// majority party, 0.35 for the minority party, 0.55 otherwise.
pub open spec fn leadership_side(sen: Senator, ctx: LegislativeContext) -> int {
    if ctx.majority_party.same_spec(sen.identity.party) {
        10000
    } else if ctx.minority_party.same_spec(sen.identity.party) {
        3500
    } else {
        5500
    }
}

/// Party alignment: 0.45 loyalty + 0.18 party pressure + 0.15 leadership
/// deference + 0.17 leadership side times priority - 0.15 bipartisanship,
/// clamped to the unit interval.
pub open spec fn party_alignment_spec(sen: Senator, ctx: LegislativeContext) -> int {
    clamp_cube_spec(
        sen.structural.party_loyalty_baseline * 4500 * 10000 + sen.dynamic_state.current_party_pressure
            * 1800 * 10000 + sen.procedural.leadership_deference * 1500 * 10000 + leadership_side(
            sen,
            ctx,
        ) * ctx.leadership_priority * 1700 - sen.structural.bipartisanship_baseline * 1500 * 10000,
    )
}

/// Twice the stage's procedural baseline (final passage averages the
/// motion-to-proceed and cloture baselines).
pub open spec fn stage_base_twice(sen: Senator, stage: ProceduralStage) -> int {
    let p = sen.procedural;
    match stage {
        ProceduralStage::MotionToProceed => 2 * p.motion_to_proceed_baseline,
        ProceduralStage::ClotureFiled | ProceduralStage::ClotureVote => 2 * p.cloture_support_baseline,
        ProceduralStage::Debate | ProceduralStage::AmendmentPending => 2 * p.amendment_openness,
        ProceduralStage::FinalPassage => p.motion_to_proceed_baseline + p.cloture_support_baseline,
        _ => 2 * sen.dynamic_state.current_procedural_support,
    }
}

/// Procedural compatibility: 0.62 stage baseline + 0.18 current procedural
/// support + 0.12 party alignment - 0.10 objection tendency, clamped.
pub open spec fn procedural_compatibility_spec(sen: Senator, ctx: LegislativeContext, pa: int) -> int {
    clamp_wide_spec(
        stage_base_twice(sen, ctx.procedural_stage) * 3100 + sen.dynamic_state.current_procedural_support
            * 1800 + pa * 1200 - sen.procedural.uc_objection_tendency * 1000,
    )
}

/// (salience - 0.5) * 0.20 + deadline pressure * 0.08, rounded down.
pub open spec fn salience_adjustment_spec(obj: LegislativeObject, ctx: LegislativeContext) -> int {
    ((obj.salience - 5000) * 2000 + feature_deadline_pressure(ctx.days_until_deadline) * 800) / 10000
}

/// -(max(controversy - 0.4, 0) * (0.12 + loyalty * 0.08)), rounded down.
pub open spec fn controversy_adjustment_spec(sen: Senator, obj: LegislativeObject) -> int {
    let m = if obj.controversy >= 4000 {
        obj.controversy - 4000
    } else {
        0
    };
    (-(m * (12000000 + sen.structural.party_loyalty_baseline * 800))) / 100000000
}

/// 0.20 procedural drift from the cloture baseline + 0.15 party-pressure
/// drift from loyalty, rounded down.
pub open spec fn drift_adjustment_spec(sen: Senator) -> int {
    ((sen.dynamic_state.current_procedural_support - sen.procedural.cloture_support_baseline) * 2000
        + (sen.dynamic_state.current_party_pressure - sen.structural.party_loyalty_baseline) * 1500)
        / 10000
}

/// (attendance - 0.9) * 0.25, rounded down.
pub open spec fn attendance_adjustment_spec(sen: Senator) -> int {
    ((sen.procedural.attendance_reliability - 9000) * 2500) / 10000
}

/// A score pulled toward 0.5 by the share `0.35 * (1 - coverage)`.
pub open spec fn shrink_spec(score: int, cov: int) -> int {
    let w = (10000 - cov) * 3500;
    clamp_cube_spec(score * (100000000 - w) + 5000 * w)
}

/// The inputs the feature-driven scores are built from.
pub struct FeatureInputs {
    pub domain_affinity: int,
    pub procedural_compatibility: int,
    pub party_alignment: int,
    pub salience: int,
    pub controversy: int,
    pub drift: int,
    pub attendance: int,
    pub coverage: int,
    pub deadline: int,
}

pub open spec fn feature_inputs(sen: Senator, obj: LegislativeObject, ctx: LegislativeContext) -> FeatureInputs {
    let pa = party_alignment_spec(sen, ctx);
    FeatureInputs {
        domain_affinity: base_issue_alignment_spec(sen, obj.policy_domain),
        procedural_compatibility: procedural_compatibility_spec(sen, ctx, pa),
        party_alignment: pa,
        salience: salience_adjustment_spec(obj, ctx),
        controversy: controversy_adjustment_spec(sen, obj),
        drift: drift_adjustment_spec(sen),
        attendance: attendance_adjustment_spec(sen),
        coverage: coverage_of(sen),
        deadline: feature_deadline_pressure(ctx.days_until_deadline),
    }
}

/// Substantive support: 0.62 domain affinity + 0.18 party alignment + 0.35
/// salience + 0.20 controversy + 0.15 drift, clamped, then shrunk.
pub open spec fn feature_substantive(da: int, pa: int, sal: int, ca: int, drift: int, cov: int) -> int {
    shrink_spec(
        clamp_wide_spec(da * 6200 + pa * 1800 + sal * 3500 + ca * 2000 + drift * 1500),
        cov,
    )
}

/// Procedural support: 0.55 procedural compatibility + 0.22 party alignment
/// + 0.08 deadline + 0.20 drift, +0.06 when leaning toward support and -0.04
/// otherwise, clamped, then shrunk.
pub open spec fn feature_procedural(pc: int, pa: int, deadline: int, drift: int, cov: int, sub: int) -> int {
    shrink_spec(
        clamp_wide_spec(
            pc * 5500 + pa * 2200 + deadline * 800 + drift * 2000 + if sub >= 5000 {
                6000000
            } else {
                -4000000
            },
        ),
        cov,
    )
}

pub open spec fn feature_negotiability(sen: Senator, obj: LegislativeObject, ctx: LegislativeContext, pa: int, cov: int, sub: int) -> int {
    shrink_spec(
        clamp_wide_spec(
            sen.structural.bipartisanship_baseline * 2800 + sen.dynamic_state.current_negotiability
                * 2400 + sen.procedural.amendment_openness * 1800 + (10000 - pa) * 1200 + (5000
                - abs_spec(sub - 5000)) * 1600 - obj.controversy * 1600 - ctx.media_attention * 600,
        ),
        cov,
    )
}

pub open spec fn feature_rigidity(sen: Senator, obj: LegislativeObject, ctx: LegislativeContext, neg: int) -> int {
    clamp_wide_spec(
        sen.structural.party_loyalty_baseline * 2600 + sen.dynamic_state.current_party_pressure * 2000
            + (10000 - sen.structural.bipartisanship_baseline) * 1000 + (10000 - neg) * 2400
            + obj.controversy * 1200 + ctx.leadership_priority * 800,
    )
}

pub open spec fn feature_defection(sen: Senator, ctx: LegislativeContext, sub: int, rig: int) -> int {
    clamp_wide_spec(
        sen.structural.bipartisanship_baseline * 2400 + (10000 - sen.structural.party_loyalty_baseline)
            * 2600 + (10000 - ctx.leadership_priority) * 1200 + (5000 - abs_spec(sub - 5000)) * 2200
            - rig * 1800,
    )
}

pub open spec fn election_near(days: Option<i32>) -> bool {
    match days {
        Some(d) => d <= 30,
        None => false,
    }
}

pub open spec fn feature_absence(sen: Senator, ctx: LegislativeContext, cov: int) -> int {
    clamp_wide_spec(
        (10000 - sen.procedural.attendance_reliability) * 7000 + (10000
            - sen.dynamic_state.current_procedural_support) * 800 + (if election_near(
            ctx.days_until_election,
        ) {
            3000000int
        } else {
            0int
        }) + (10000 - cov) * 400,
    )
}

pub open spec fn feature_public(pa: int, sal: int, ca: int, cov: int, sub: int, rig: int, neg: int) -> int {
    shrink_spec(
        clamp_wide_spec(sub * 4800 + pa * 1800 + sal * 2800 + ca * 2400 + rig * 1200 - neg * 1000),
        cov,
    )
}

/// The seven scores of a feature-driven stance.
pub open spec fn feature_scores(sen: Senator, obj: LegislativeObject, ctx: LegislativeContext) -> crate::derive::stance::StanceScores {
    let fi = feature_inputs(sen, obj, ctx);
    let sub = feature_substantive(
        fi.domain_affinity,
        fi.party_alignment,
        fi.salience,
        fi.controversy,
        fi.drift,
        fi.coverage,
    );
    let neg = feature_negotiability(sen, obj, ctx, fi.party_alignment, fi.coverage, sub);
    let rig = feature_rigidity(sen, obj, ctx, neg);
    crate::derive::stance::StanceScores {
        substantive: sub,
        procedural: feature_procedural(
            fi.procedural_compatibility,
            fi.party_alignment,
            fi.deadline,
            fi.drift,
            fi.coverage,
            sub,
        ),
        public: feature_public(fi.party_alignment, fi.salience, fi.controversy, fi.coverage, sub, rig, neg),
        negotiability: neg,
        rigidity: rig,
        defection: feature_defection(sen, ctx, sub, rig),
        absence: feature_absence(sen, ctx, fi.coverage),
    }
}

pub open spec fn sparse_note() -> Seq<char> {
    "sparse historical coverage shrinks scores toward neutral"@
}

pub open spec fn fallback_note() -> Seq<char> {
    "historical feature coverage is too sparse; using legacy heuristic stance scorer"@
}

/// The senator's feature notes, with the sparse-coverage note when coverage
/// is below `SPARSE_COVERAGE`.
pub open spec fn feature_notes_spec(sen: Senator, cov: int) -> Seq<Seq<char>> {
    if cov < 4500 {
        string_views(sen.feature_notes@).push(sparse_note())
    } else {
        string_views(sen.feature_notes@)
    }
}

/// The texts with later repeats removed, first occurrences kept in order.
pub open spec fn dedup_texts(s: Seq<Seq<char>>) -> Seq<Seq<char>>
    decreases s.len(),
{
    if s.len() == 0 {
        s
    } else {
        let d = dedup_texts(s.drop_last());
        if d.contains(s.last()) {
            d
        } else {
            d.push(s.last())
        }
    }
}

pub open spec fn chamber_text(c: Chamber) -> Seq<char> {
    match c {
        Chamber::Senate => "Senate"@,
        Chamber::House => "House"@,
    }
}

/// The factors of a feature-driven stance, before repeats are removed.
pub open spec fn raw_feature_factors(obj: LegislativeObject, ctx: LegislativeContext, da: int, pc: int, pa: int, cov: int, notes: Seq<Seq<char>>) -> Seq<Seq<char>> {
    let f0 = seq![
        "historical domain affinity is "@ + hundredths_digits(score_hundredths(da)),
        stage_text(ctx.procedural_stage) + " procedural compatibility is "@ + hundredths_digits(
            score_hundredths(pc),
        ),
        "party-alignment score is "@ + hundredths_digits(score_hundredths(pa))
            + " under leadership priority "@ + hundredths_digits(
            score_hundredths(ctx.leadership_priority as int),
        ),
    ];
    let f1 = if obj.controversy >= 6000 {
        f0.push("high controversy increases rigidity and public signaling"@)
    } else {
        f0
    };
    let f2 = if cov < 4500 {
        f1.push("sparse feature coverage shrinks extreme stance outputs"@)
    } else {
        f1
    };
    f2 + notes
}

pub open spec fn feature_context_id(ctx: LegislativeContext) -> Seq<char> {
    decimal_digits(ctx.congress_number as nat) + "-"@ + stage_text(ctx.procedural_stage) + "-"@
        + chamber_text(ctx.current_chamber)
}

/// The feature-driven stance of a senator toward a legislative object.
pub open spec fn feature_stance_matches(st: SenatorStance, sen: Senator, obj: LegislativeObject, ctx: LegislativeContext) -> bool {
    let fi = feature_inputs(sen, obj, ctx);
    let sc = feature_scores(sen, obj, ctx);
    let notes = feature_notes_spec(sen, fi.coverage);
    let factors = take_n(
        dedup_texts(
            raw_feature_factors(
                obj,
                ctx,
                fi.domain_affinity,
                fi.procedural_compatibility,
                fi.party_alignment,
                fi.coverage,
                notes,
            ),
        ),
        6,
    );
    &&& st.senator_id@ == sen.identity.senator_id@
    &&& st.object_id@ == obj.object_id@
    &&& st.context_id matches Some(c) && c@ == feature_context_id(ctx)
    &&& stance_has_scores(st, sc, ctx.procedural_stage)
    &&& string_views(st.top_factors@) == factors
    &&& st.score_breakdown matches Some(b) && {
        &&& b.domain_affinity_score == fi.domain_affinity
        &&& b.procedural_compatibility_score == fi.procedural_compatibility
        &&& b.party_alignment_score == fi.party_alignment
        &&& b.salience_adjustment == fi.salience
        &&& b.controversy_adjustment == fi.controversy
        &&& b.recent_drift_adjustment == fi.drift
        &&& b.attendance_adjustment == fi.attendance
        &&& b.coverage_score == fi.coverage
        &&& string_views(b.fallback_notes@) == notes
        &&& string_views(b.top_factors@) == factors
    }
    &&& st.wf()
}

/// The heuristic stance, marked as a fallback for sparse feature coverage.
pub open spec fn fallback_stance_matches(st: SenatorStance, sen: Senator, obj: LegislativeObject, ctx: LegislativeContext) -> bool {
    let sc = heuristic_scores(sen, obj, ctx);
    let factors = top_factors_spec(sen, obj, ctx, sc).push(fallback_note());
    &&& st.senator_id@ == sen.identity.senator_id@
    &&& st.object_id@ == obj.object_id@
    &&& st.context_id matches Some(c) && c@ == context_id_spec(ctx)
    &&& stance_has_scores(st, sc, ctx.procedural_stage)
    &&& string_views(st.top_factors@) == factors
    &&& st.score_breakdown matches Some(b) && {
        &&& b.domain_affinity_score == 5000
        &&& b.procedural_compatibility_score == sc.procedural
        &&& b.party_alignment_score == sen.structural.party_loyalty_baseline
        &&& b.salience_adjustment == 0
        &&& b.controversy_adjustment == 0
        &&& b.recent_drift_adjustment == 0
        &&& b.attendance_adjustment == -sc.absence
        &&& b.coverage_score == coverage_of(sen)
        &&& string_views(b.fallback_notes@) == string_views(sen.feature_notes@).push(fallback_note())
        &&& string_views(b.top_factors@) == factors
    }
    &&& st.wf()
}

fn push_text(v: &mut Vec<String>, s: &str)
    ensures
        string_views(final(v)@) == string_views(old(v)@).push(s@),
{
    v.push(String::from_str(s));
    proof {
        assert(string_views(v@) =~= string_views(old(v)@).push(s@));
    }
}

fn heuristic_fallback(
    senator: &Senator,
    legislative_object: &LegislativeObject,
    context: &LegislativeContext,
    coverage_score: i64,
) -> (r: Result<SenatorStance, SenateSimError>)
    requires
        senator.wf(),
        legislative_object.wf(),
        context.wf(),
        coverage_score == coverage_of(*senator),
    ensures
        r matches Ok(st) && fallback_stance_matches(st, *senator, *legislative_object, *context),
{
    let note = "historical feature coverage is too sparse; using legacy heuristic stance scorer";
    let mut stance = match derive_stance_heuristic(senator, legislative_object, context) {
        Ok(s) => s,
        Err(e) => return Err(e),
    };
    let mut fallback_notes = copy_texts(&senator.feature_notes);
    push_text(&mut fallback_notes, note);
    let mut factors = copy_texts(&stance.top_factors);
    push_text(&mut factors, note);
    let breakdown_factors = copy_texts(&factors);
    stance.top_factors = factors;
    stance.score_breakdown = Some(
        StanceScoreBreakdown {
            domain_affinity_score: 5000,
            procedural_compatibility_score: stance.procedural_support,
            party_alignment_score: senator.structural.party_loyalty_baseline,
            salience_adjustment: 0,
            controversy_adjustment: 0,
            recent_drift_adjustment: 0,
            attendance_adjustment: -stance.absence_probability,
            coverage_score,
            fallback_notes,
            top_factors: breakdown_factors,
        },
    );
    match stance.validate() {
        Ok(()) => {},
        Err(e) => return Err(e),
    }
    Ok(stance)
}

fn feature_deadline(context: &LegislativeContext) -> (r: i64)
    ensures
        r == feature_deadline_pressure(context.days_until_deadline),
        unit(r as int),
{
    match context.days_until_deadline {
        Some(days) => if days <= 7 {
            10000
        } else if days <= 21 {
            7500
        } else if days <= 45 {
            4500
        } else {
            1500
        },
        None => 500,
    }
}

fn party_alignment_score(senator: &Senator, context: &LegislativeContext) -> (r: i64)
    requires
        senator.wf(),
        context.wf(),
    ensures
        r == party_alignment_spec(*senator, *context),
        unit(r as int),
{
    let side: i64 = if context.majority_party.same(&senator.identity.party) {
        10000
    } else if context.minority_party.same(&senator.identity.party) {
        3500
    } else {
        5500
    };
    clamp_cube(
        (senator.structural.party_loyalty_baseline as i128) * 4500 * 10000 + (
        senator.dynamic_state.current_party_pressure as i128) * 1800 * 10000 + (
        senator.procedural.leadership_deference as i128) * 1500 * 10000 + prod3(
            side,
            context.leadership_priority,
            1700,
        ) - (senator.structural.bipartisanship_baseline as i128) * 1500 * 10000,
    )
}

fn procedural_compatibility_score(senator: &Senator, context: &LegislativeContext, party_alignment: i64) -> (r: i64)
    requires
        senator.wf(),
        unit(party_alignment as int),
    ensures
        r == procedural_compatibility_spec(*senator, *context, party_alignment as int),
        unit(r as int),
{
    let p = &senator.procedural;
    let base_twice: i64 = match context.procedural_stage {
        ProceduralStage::MotionToProceed => 2 * p.motion_to_proceed_baseline,
        ProceduralStage::ClotureFiled | ProceduralStage::ClotureVote => 2 * p.cloture_support_baseline,
        ProceduralStage::Debate | ProceduralStage::AmendmentPending => 2 * p.amendment_openness,
        ProceduralStage::FinalPassage => p.motion_to_proceed_baseline + p.cloture_support_baseline,
        _ => 2 * senator.dynamic_state.current_procedural_support,
    };
    clamp_wide(
        base_twice * 3100 + senator.dynamic_state.current_procedural_support * 1800 + party_alignment
            * 1200 - p.uc_objection_tendency * 1000,
    )
}

fn shrink_to_neutral(score: i64, coverage: i64) -> (r: i64)
    requires
        unit(score as int),
        unit(coverage as int),
    ensures
        r == shrink_spec(score as int, coverage as int),
        unit(r as int),
{
    let pull = prod3(score - 5000, 10000 - coverage, 3500);
    proof {
        let s = score as int;
        let c = coverage as int;
        assert(s * (100000000 - (10000 - c) * 3500) + 5000 * ((10000 - c) * 3500) == s * 100000000 - (s
            - 5000) * (10000 - c) * 3500) by (nonlinear_arith);
    }
    clamp_cube((score as i128) * 100000000 - pull)
}

fn scaled_down(n: i64) -> (r: i64)
    requires
        -100000000 <= n <= 100000000,
    ensures
        r == n / 10000,
        -10000 <= r <= 10000,
{
    let q = floor_div(n as i128, 10000);
    proof {
        assert(-10000 <= (n as int) / 10000 <= 10000);
    }
    q as i64
}

fn distance_from_even(score: i64) -> (r: i64)
    requires
        unit(score as int),
    ensures
        r == abs_spec(score - 5000),
        0 <= r <= 5000,
{
    if score >= 5000 {
        score - 5000
    } else {
        5000 - score
    }
}

fn contains_text(v: &Vec<String>, s: &String) -> (r: bool)
    ensures
        r == string_views(v@).contains(s@),
{
    let mut i: usize = 0;
    while i < v.len()
        invariant
            i <= v.len(),
            forall|j: int| 0 <= j < i ==> v@[j]@ != s@,
        decreases v.len() - i,
    {
        if v[i] == *s {
            proof {
                assert(string_views(v@)[i as int] == s@);
            }
            return true;
        }
        i = i + 1;
    }
    proof {
        if string_views(v@).contains(s@) {
            let k = choose|k: int| 0 <= k < string_views(v@).len() && string_views(v@)[k] == s@;
            assert(v@[k]@ == s@);
        }
    }
    false
}

/// The texts with later repeats removed.
fn dedup_factors(v: Vec<String>) -> (r: Vec<String>)
    ensures
        string_views(r@) == dedup_texts(string_views(v@)),
{
    let ghost all = string_views(v@);
    let mut out: Vec<String> = Vec::new();
    let mut i: usize = 0;
    proof {
        assert(all.subrange(0, 0) =~= Seq::<Seq<char>>::empty());
        assert(string_views(out@) =~= Seq::<Seq<char>>::empty());
    }
    while i < v.len()
        invariant
            i <= v.len(),
            all == string_views(v@),
            string_views(out@) == dedup_texts(all.subrange(0, i as int)),
        decreases v.len() - i,
    {
        proof {
            assert(all.subrange(0, i + 1).drop_last() =~= all.subrange(0, i as int));
            assert(all.subrange(0, i + 1).last() == v@[i as int]@);
        }
        if !contains_text(&out, &v[i]) {
            let ghost before = string_views(out@);
            out.push(v[i].clone());
            proof {
                assert(string_views(out@) =~= before.push(v@[i as int]@));
            }
        }
        i = i + 1;
    }
    proof {
        assert(all.subrange(0, v.len() as int) =~= all);
    }
    out
}

fn append_all(v: &mut Vec<String>, more: &Vec<String>)
    ensures
        string_views(final(v)@) == string_views(old(v)@) + string_views(more@),
{
    let ghost start = string_views(v@);
    let mut i: usize = 0;
    while i < more.len()
        invariant
            i <= more.len(),
            string_views(v@) == start + string_views(more@).subrange(0, i as int),
        decreases more.len() - i,
    {
        let ghost before = string_views(v@);
        v.push(more[i].clone());
        proof {
            assert(string_views(v@) =~= before.push(more@[i as int]@));
            assert(string_views(more@).subrange(0, i + 1) =~= string_views(more@).subrange(
                0,
                i as int,
            ).push(more@[i as int]@));
        }
        i = i + 1;
    }
    proof {
        assert(string_views(more@).subrange(0, more.len() as int) =~= string_views(more@));
    }
}

fn feature_factors(
    legislative_object: &LegislativeObject,
    context: &LegislativeContext,
    domain_affinity: i64,
    procedural_compatibility: i64,
    party_alignment: i64,
    coverage: i64,
    notes: &Vec<String>,
) -> (r: Vec<String>)
    requires
        unit(domain_affinity as int),
        unit(procedural_compatibility as int),
        unit(party_alignment as int),
        context.wf(),
    ensures
        string_views(r@) == take_n(
            dedup_texts(
                raw_feature_factors(
                    *legislative_object,
                    *context,
                    domain_affinity as int,
                    procedural_compatibility as int,
                    party_alignment as int,
                    coverage as int,
                    string_views(notes@),
                ),
            ),
            6,
        ),
{
    let mut f: Vec<String> = Vec::new();
    let mut t0 = String::from_str("historical domain affinity is ");
    t0.append(score_text(domain_affinity).as_str());
    f.push(t0);
    let mut t1 = stage_debug_text(&context.procedural_stage);
    t1.append(" procedural compatibility is ");
    t1.append(score_text(procedural_compatibility).as_str());
    f.push(t1);
    let mut t2 = String::from_str("party-alignment score is ");
    t2.append(score_text(party_alignment).as_str());
    t2.append(" under leadership priority ");
    t2.append(score_text(context.leadership_priority).as_str());
    f.push(t2);
    proof {
        assert(string_views(f@) =~= seq![
            "historical domain affinity is "@ + hundredths_digits(score_hundredths(domain_affinity as int)),
            stage_text(context.procedural_stage) + " procedural compatibility is "@
                + hundredths_digits(score_hundredths(procedural_compatibility as int)),
            "party-alignment score is "@ + hundredths_digits(score_hundredths(party_alignment as int))
                + " under leadership priority "@ + hundredths_digits(
                score_hundredths(context.leadership_priority as int),
            ),
        ]);
    }
    if legislative_object.controversy >= 6000 {
        push_text(&mut f, "high controversy increases rigidity and public signaling");
    }
    if coverage < SPARSE_COVERAGE {
        push_text(&mut f, "sparse feature coverage shrinks extreme stance outputs");
    }
    append_all(&mut f, notes);
    let mut d = dedup_factors(f);
    truncate_texts(&mut d, 6);
    d
}

fn salience_adjustment(obj: &LegislativeObject, ctx: &LegislativeContext) -> (r: i64)
    requires
        obj.wf(),
    ensures
        r == salience_adjustment_spec(*obj, *ctx),
        signed_unit(r as int),
{
    let deadline = feature_deadline(ctx);
    scaled_down((obj.salience - 5000) * 2000 + deadline * 800)
}

fn controversy_adjustment(sen: &Senator, obj: &LegislativeObject) -> (r: i64)
    requires
        sen.wf(),
        obj.wf(),
    ensures
        r == controversy_adjustment_spec(*sen, *obj),
        -1200 <= r <= 0,
{
    let excess: i64 = if obj.controversy >= 4000 {
        obj.controversy - 4000
    } else {
        0
    };
    let wide = (excess as i128) * 12000000 + prod3(excess, sen.structural.party_loyalty_baseline, 800);
    proof {
        let m = excess as int;
        let l = sen.structural.party_loyalty_baseline as int;
        assert(m * (12000000 + l * 800) == m * 12000000 + m * l * 800) by (nonlinear_arith);
        assert(0 <= m * (12000000 + l * 800) <= 6000 * 20000000) by (nonlinear_arith)
            requires
                0 <= m <= 6000,
                0 <= l <= 10000,
        ;
        assert(-1200 <= (-(m * (12000000 + l * 800))) / 100000000 <= 0);
    }
    floor_div(-wide, 100000000) as i64
}

fn drift_adjustment(sen: &Senator) -> (r: i64)
    requires
        sen.wf(),
    ensures
        r == drift_adjustment_spec(*sen),
        signed_unit(r as int),
{
    scaled_down(
        (sen.dynamic_state.current_procedural_support - sen.procedural.cloture_support_baseline) * 2000
            + (sen.dynamic_state.current_party_pressure - sen.structural.party_loyalty_baseline)
            * 1500,
    )
}

fn attendance_adjustment(sen: &Senator) -> (r: i64)
    requires
        sen.wf(),
    ensures
        r == attendance_adjustment_spec(*sen),
        signed_unit(r as int),
{
    scaled_down((sen.procedural.attendance_reliability - 9000) * 2500)
}

fn substantive_score(da: i64, pa: i64, sal: i64, ca: i64, drift: i64, cov: i64) -> (r: i64)
    requires
        unit(da as int),
        unit(pa as int),
        signed_unit(sal as int),
        signed_unit(ca as int),
        signed_unit(drift as int),
        unit(cov as int),
    ensures
        r == feature_substantive(da as int, pa as int, sal as int, ca as int, drift as int, cov as int),
        unit(r as int),
{
    shrink_to_neutral(
        clamp_wide(da * 6200 + pa * 1800 + sal * 3500 + ca * 2000 + drift * 1500),
        cov,
    )
}

fn procedural_score(pc: i64, pa: i64, deadline: i64, drift: i64, cov: i64, sub: i64) -> (r: i64)
    requires
        unit(pc as int),
        unit(pa as int),
        unit(deadline as int),
        signed_unit(drift as int),
        unit(cov as int),
    ensures
        r == feature_procedural(
            pc as int,
            pa as int,
            deadline as int,
            drift as int,
            cov as int,
            sub as int,
        ),
        unit(r as int),
{
    let lean: i64 = if sub >= 5000 {
        6000000
    } else {
        -4000000
    };
    shrink_to_neutral(
        clamp_wide(pc * 5500 + pa * 2200 + deadline * 800 + drift * 2000 + lean),
        cov,
    )
}

fn negotiability_score(sen: &Senator, obj: &LegislativeObject, ctx: &LegislativeContext, pa: i64, cov: i64, sub: i64) -> (r: i64)
    requires
        sen.wf(),
        obj.wf(),
        ctx.wf(),
        unit(pa as int),
        unit(cov as int),
        unit(sub as int),
    ensures
        r == feature_negotiability(*sen, *obj, *ctx, pa as int, cov as int, sub as int),
        unit(r as int),
{
    let spread = distance_from_even(sub);
    shrink_to_neutral(
        clamp_wide(
            sen.structural.bipartisanship_baseline * 2800 + sen.dynamic_state.current_negotiability
                * 2400 + sen.procedural.amendment_openness * 1800 + (10000 - pa) * 1200 + (5000
                - spread) * 1600 - obj.controversy * 1600 - ctx.media_attention * 600,
        ),
        cov,
    )
}

fn rigidity_score(sen: &Senator, obj: &LegislativeObject, ctx: &LegislativeContext, neg: i64) -> (r: i64)
    requires
        sen.wf(),
        obj.wf(),
        ctx.wf(),
        unit(neg as int),
    ensures
        r == feature_rigidity(*sen, *obj, *ctx, neg as int),
        unit(r as int),
{
    clamp_wide(
        sen.structural.party_loyalty_baseline * 2600 + sen.dynamic_state.current_party_pressure * 2000
            + (10000 - sen.structural.bipartisanship_baseline) * 1000 + (10000 - neg) * 2400
            + obj.controversy * 1200 + ctx.leadership_priority * 800,
    )
}

fn defection_score(sen: &Senator, ctx: &LegislativeContext, sub: i64, rig: i64) -> (r: i64)
    requires
        sen.wf(),
        ctx.wf(),
        unit(sub as int),
        unit(rig as int),
    ensures
        r == feature_defection(*sen, *ctx, sub as int, rig as int),
        unit(r as int),
{
    let spread = distance_from_even(sub);
    clamp_wide(
        sen.structural.bipartisanship_baseline * 2400 + (10000 - sen.structural.party_loyalty_baseline)
            * 2600 + (10000 - ctx.leadership_priority) * 1200 + (5000 - spread) * 2200 - rig * 1800,
    )
}

fn absence_score(sen: &Senator, ctx: &LegislativeContext, cov: i64) -> (r: i64)
    requires
        sen.wf(),
        unit(cov as int),
    ensures
        r == feature_absence(*sen, *ctx, cov as int),
        unit(r as int),
{
    let election: i64 = match ctx.days_until_election {
        Some(d) => if d <= 30 {
            3000000
        } else {
            0
        },
        None => 0,
    };
    clamp_wide(
        (10000 - sen.procedural.attendance_reliability) * 7000 + (10000
            - sen.dynamic_state.current_procedural_support) * 800 + election + (10000 - cov) * 400,
    )
}

fn public_score(pa: i64, sal: i64, ca: i64, cov: i64, sub: i64, rig: i64, neg: i64) -> (r: i64)
    requires
        unit(pa as int),
        signed_unit(sal as int),
        signed_unit(ca as int),
        unit(cov as int),
        unit(sub as int),
        unit(rig as int),
        unit(neg as int),
    ensures
        r == feature_public(
            pa as int,
            sal as int,
            ca as int,
            cov as int,
            sub as int,
            rig as int,
            neg as int,
        ),
        unit(r as int),
{
    shrink_to_neutral(
        clamp_wide(sub * 4800 + pa * 1800 + sal * 2800 + ca * 2400 + rig * 1200 - neg * 1000),
        cov,
    )
}

fn chamber_name(c: Chamber) -> (r: &'static str)
    ensures
        r@ == chamber_text(c),
{
    match c {
        Chamber::Senate => "Senate",
        Chamber::House => "House",
    }
}

fn feature_context_id_text(context: &LegislativeContext) -> (r: String)
    ensures
        r@ == feature_context_id(*context),
{
    let mut t = decimal_text(context.congress_number as u128);
    t.append("-");
    t.append(stage_debug_text(&context.procedural_stage).as_str());
    t.append("-");
    t.append(chamber_name(context.current_chamber));
    t
}

/// Derives a senator's stance from historical features: domain affinity,
/// party alignment under the leadership's priority, procedural compatibility
/// with the stage, salience, controversy and recent drift. Every score is
/// pulled toward neutral in proportion to missing coverage; with coverage at
/// or below `MIN_FEATURE_COVERAGE` the heuristic scorer is used instead and
/// the stance says so.
pub fn derive_stance_feature_driven(
    senator: &Senator,
    legislative_object: &LegislativeObject,
    context: &LegislativeContext,
) -> (r: Result<SenatorStance, SenateSimError>)
    ensures
        r is Ok <==> (senator.wf() && legislative_object.wf() && context.wf()),
        r matches Ok(st) ==> (if coverage_of(*senator) <= MIN_FEATURE_COVERAGE {
            fallback_stance_matches(st, *senator, *legislative_object, *context)
        } else {
            feature_stance_matches(st, *senator, *legislative_object, *context)
        }),
{
    senator.validate()?;
    legislative_object.validate()?;
    context.validate()?;

    let coverage: i64 = match senator.feature_coverage_score {
        Some(c) => c,
        None => 0,
    };
    if coverage <= MIN_FEATURE_COVERAGE {
        return heuristic_fallback(senator, legislative_object, context, coverage);
    }
    let ghost fi = feature_inputs(*senator, *legislative_object, *context);

    let domain_affinity = base_issue_alignment(senator, &legislative_object.policy_domain);
    let party_alignment = party_alignment_score(senator, context);
    let procedural_compatibility = procedural_compatibility_score(senator, context, party_alignment);
    let deadline = feature_deadline(context);
    let salience = salience_adjustment(legislative_object, context);
    let controversy = controversy_adjustment(senator, legislative_object);
    let drift = drift_adjustment(senator);
    let attendance = attendance_adjustment(senator);
    let substantive = substantive_score(
        domain_affinity,
        party_alignment,
        salience,
        controversy,
        drift,
        coverage,
    );
    let procedural = procedural_score(
        procedural_compatibility,
        party_alignment,
        deadline,
        drift,
        coverage,
        substantive,
    );
    let negotiability = negotiability_score(
        senator,
        legislative_object,
        context,
        party_alignment,
        coverage,
        substantive,
    );
    let rigidity = rigidity_score(senator, legislative_object, context, negotiability);
    let defection = defection_score(senator, context, substantive, rigidity);
    let absence = absence_score(senator, context, coverage);
    let public = public_score(
        party_alignment,
        salience,
        controversy,
        coverage,
        substantive,
        rigidity,
        negotiability,
    );

    let mut notes = copy_texts(&senator.feature_notes);
    if coverage < SPARSE_COVERAGE {
        push_text(&mut notes, "sparse historical coverage shrinks scores toward neutral");
    }
    let factors = feature_factors(
        legislative_object,
        context,
        domain_affinity,
        procedural_compatibility,
        party_alignment,
        coverage,
        &notes,
    );
    let breakdown = StanceScoreBreakdown {
        domain_affinity_score: domain_affinity,
        procedural_compatibility_score: procedural_compatibility,
        party_alignment_score: party_alignment,
        salience_adjustment: salience,
        controversy_adjustment: controversy,
        recent_drift_adjustment: drift,
        attendance_adjustment: attendance,
        coverage_score: coverage,
        fallback_notes: notes,
        top_factors: copy_texts(&factors),
    };
    let stance = SenatorStance {
        senator_id: senator.identity.senator_id.clone(),
        object_id: legislative_object.object_id.clone(),
        context_id: Some(feature_context_id_text(context)),
        substantive_support: substantive,
        procedural_support: procedural,
        public_support: public,
        negotiability,
        rigidity,
        defection_probability: defection,
        absence_probability: absence,
        stance_label: derive_stance_label(substantive),
        procedural_posture: derive_procedural_posture(procedural, &context.procedural_stage),
        public_position: derive_public_position(public),
        top_factors: factors,
        score_breakdown: Some(breakdown),
    };
    stance.validate()?;
    Ok(stance)
}

} // verus!
