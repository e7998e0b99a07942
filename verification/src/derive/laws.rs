//! What holds across stance derivations: how the scores move when one input
//! of the senator moves and the rest stays the same.

use vstd::prelude::*;
use crate::derive::feature_driven::{
    coverage_of, election_near, feature_inputs, feature_scores, shrink_spec, stage_base_twice, MIN_FEATURE_COVERAGE,
};
use crate::derive::stance::{
    base_issue_alignment_spec, domain_preference, heuristic_scores, normalize_signed_spec, stance_for_mode,
    stance_has_scores, stage_baseline, stage_weight, StanceScores,
};
use crate::derive::StanceDerivationMode;
use crate::model::stance::SenatorStance;
use crate::model::legislative::{BudgetaryImpact, LegislativeObject};
use crate::model::context::LegislativeContext;
use crate::model::senator::{DynamicState, Procedural, Senator};
use crate::util::score::{clamp_cube_spec, clamp_unit_spec, clamp_wide_spec, CUBE};

verus! {

proof fn lemma_clamp_cube_monotone(x: int, y: int)
    requires
        x <= y,
    ensures
        clamp_cube_spec(x) <= clamp_cube_spec(y),
{
    if 0 < x && y < CUBE {
        vstd::arithmetic::div_mod::lemma_div_is_ordered(x, y, 100000000);
    } else if 0 < x && x < CUBE {
        vstd::arithmetic::div_mod::lemma_div_is_ordered(x, CUBE as int, 100000000);
    }
}

proof fn lemma_clamp_wide_monotone(x: int, y: int)
    requires
        x <= y,
    ensures
        clamp_wide_spec(x) <= clamp_wide_spec(y),
{
    if 0 < x && y < 100000000 {
        vstd::arithmetic::div_mod::lemma_div_is_ordered(x, y, 10000);
    } else if 0 < x && x < 100000000 {
        vstd::arithmetic::div_mod::lemma_div_is_ordered(x, 100000000, 10000);
    }
}

proof fn lemma_normalize_monotone(x: int, y: int)
    requires
        x <= y,
    ensures
        normalize_signed_spec(x) <= normalize_signed_spec(y),
        0 <= normalize_signed_spec(x) <= 10000,
{
    vstd::arithmetic::div_mod::lemma_div_is_ordered(x + 10000, y + 10000, 2);
}

/// Two senators that differ at most in their issue preferences.
pub open spec fn same_but_preferences(a: Senator, b: Senator) -> bool {
    &&& a.identity == b.identity
    &&& a.structural == b.structural
    &&& a.procedural == b.procedural
    &&& a.dynamic_state == b.dynamic_state
    &&& a.feature_coverage_score == b.feature_coverage_score
    &&& a.feature_notes == b.feature_notes
}

/// A senator who favors the object's policy domain at least as much as
/// another, and is no less favorable to taxes and spending, but is otherwise
/// the same, gets at least the same substantive support from the heuristic
/// scorer.
pub proof fn law_domain_alignment_raises_heuristic_support(
    aligned: Senator,
    other: Senator,
    obj: LegislativeObject,
    ctx: LegislativeContext,
)
    requires
        aligned.wf(),
        other.wf(),
        obj.wf(),
        same_but_preferences(aligned, other),
        domain_preference(aligned, obj.policy_domain) >= domain_preference(other, obj.policy_domain),
        aligned.issue_preferences.tax_spending >= other.issue_preferences.tax_spending,
    ensures
        heuristic_scores(aligned, obj, ctx).substantive >= heuristic_scores(other, obj, ctx).substantive,
{
    let b1 = base_issue_alignment_spec(aligned, obj.policy_domain);
    let b2 = base_issue_alignment_spec(other, obj.policy_domain);
    lemma_normalize_monotone(domain_preference(other, obj.policy_domain), domain_preference(aligned, obj.policy_domain));
    let t1 = normalize_signed_spec(aligned.issue_preferences.tax_spending as int);
    let t2 = normalize_signed_spec(other.issue_preferences.tax_spending as int);
    lemma_normalize_monotone(other.issue_preferences.tax_spending as int, aligned.issue_preferences.tax_spending as int);
    let sal = obj.salience as int;
    assert((b1 - b2) * (5500 * 10000 + (sal - 5000) * 2000) >= 0) by (nonlinear_arith)
        requires
            b1 >= b2,
            0 <= sal <= 10000,
    ;
    assert(b1 * 5500 * 10000 + (b1 - 5000) * (sal - 5000) * 2000 - (b2 * 5500 * 10000 + (b2 - 5000) * (sal - 5000)
        * 2000) == (b1 - b2) * (5500 * 10000 + (sal - 5000) * 2000)) by (nonlinear_arith);
    let raw1 = b1 * 5500 * 10000 + aligned.dynamic_state.current_substantive_support * 2500 * 10000
        + normalize_signed_spec(aligned.structural.ideology_score as int) * 1000 * 10000 + (b1 - 5000) * (
        obj.salience - 5000) * 2000 - obj.controversy * (10000 - aligned.structural.bipartisanship_baseline)
        * 1800 - (if obj.budgetary_impact == BudgetaryImpact::High {
        (10000 - t1) * 1600 * 10000
    } else {
        0
    });
    let raw2 = b2 * 5500 * 10000 + other.dynamic_state.current_substantive_support * 2500 * 10000
        + normalize_signed_spec(other.structural.ideology_score as int) * 1000 * 10000 + (b2 - 5000) * (
        obj.salience - 5000) * 2000 - obj.controversy * (10000 - other.structural.bipartisanship_baseline)
        * 1800 - (if obj.budgetary_impact == BudgetaryImpact::High {
        (10000 - t2) * 1600 * 10000
    } else {
        0
    });
    assert(raw1 >= raw2);
    lemma_clamp_cube_monotone(raw2, raw1);
}

proof fn lemma_shrink_monotone(x: int, y: int, cov: int)
    requires
        x <= y,
        0 <= cov <= 10000,
    ensures
        shrink_spec(x, cov) <= shrink_spec(y, cov),
{
    let w = (10000 - cov) * 3500;
    assert(x * (100000000 - w) + 5000 * w <= y * (100000000 - w) + 5000 * w) by (nonlinear_arith)
        requires
            x <= y,
            0 <= w <= 35000000,
    ;
    lemma_clamp_cube_monotone(x * (100000000 - w) + 5000 * w, y * (100000000 - w) + 5000 * w);
}

/// Less coverage pulls a unit score at least as close to the neutral 0.5.
proof fn lemma_shrink_toward_neutral(x: int, c1: int, c2: int)
    requires
        0 <= x <= 10000,
        0 <= c1 <= c2 <= 10000,
    ensures
        x >= 5000 ==> 5000 <= shrink_spec(x, c1) <= shrink_spec(x, c2),
        x < 5000 ==> shrink_spec(x, c2) <= shrink_spec(x, c1) <= 5000,
{
    let w1 = (10000 - c1) * 3500;
    let w2 = (10000 - c2) * 3500;
    let v1 = x * (100000000 - w1) + 5000 * w1;
    let v2 = x * (100000000 - w2) + 5000 * w2;
    assert(0 <= w2 <= w1 <= 35000000);
    if x >= 5000 {
        assert(500000000000 <= v1 <= v2) by (nonlinear_arith)
            requires
                5000 <= x <= 10000,
                0 <= w2 <= w1 <= 35000000,
                v1 == x * (100000000 - w1) + 5000 * w1,
                v2 == x * (100000000 - w2) + 5000 * w2,
        ;
        lemma_clamp_cube_monotone(v1, v2);
        lemma_clamp_cube_monotone(500000000000, v1);
    } else {
        assert(v2 <= v1 <= 500000000000) by (nonlinear_arith)
            requires
                0 <= x < 5000,
                0 <= w2 <= w1 <= 35000000,
                v1 == x * (100000000 - w1) + 5000 * w1,
                v2 == x * (100000000 - w2) + 5000 * w2,
        ;
        lemma_clamp_cube_monotone(v2, v1);
        lemma_clamp_cube_monotone(v1, 500000000000);
    }
}

/// The scores a scorer gives: the feature-driven scores when the senator's
/// coverage is above the minimum, the heuristic scores otherwise.
pub open spec fn mode_scores(
    sen: Senator,
    obj: LegislativeObject,
    ctx: LegislativeContext,
    mode: StanceDerivationMode,
) -> StanceScores {
    if mode == StanceDerivationMode::FeatureDriven && coverage_of(sen) > MIN_FEATURE_COVERAGE {
        feature_scores(sen, obj, ctx)
    } else {
        heuristic_scores(sen, obj, ctx)
    }
}

proof fn lemma_stance_scores(
    st: SenatorStance,
    sen: Senator,
    obj: LegislativeObject,
    ctx: LegislativeContext,
    mode: StanceDerivationMode,
)
    requires
        stance_for_mode(st, sen, obj, ctx, mode),
    ensures
        stance_has_scores(st, mode_scores(sen, obj, ctx, mode), ctx.procedural_stage),
{
}

proof fn lemma_feature_domain_alignment(aligned: Senator, other: Senator, obj: LegislativeObject, ctx: LegislativeContext)
    requires
        aligned.wf(),
        other.wf(),
        obj.wf(),
        same_but_preferences(aligned, other),
        domain_preference(aligned, obj.policy_domain) >= domain_preference(other, obj.policy_domain),
    ensures
        feature_scores(aligned, obj, ctx).substantive >= feature_scores(other, obj, ctx).substantive,
{
    let f1 = feature_inputs(aligned, obj, ctx);
    let f2 = feature_inputs(other, obj, ctx);
    lemma_normalize_monotone(domain_preference(other, obj.policy_domain), domain_preference(aligned, obj.policy_domain));
    assert(f1.party_alignment == f2.party_alignment);
    assert(f1.controversy == f2.controversy);
    assert(f1.drift == f2.drift);
    assert(f1.coverage == f2.coverage);
    let r1 = f1.domain_affinity * 6200 + f1.party_alignment * 1800 + f1.salience * 3500 + f1.controversy * 2000
        + f1.drift * 1500;
    let r2 = f2.domain_affinity * 6200 + f2.party_alignment * 1800 + f2.salience * 3500 + f2.controversy * 2000
        + f2.drift * 1500;
    lemma_clamp_wide_monotone(r2, r1);
    lemma_shrink_monotone(clamp_wide_spec(r2), clamp_wide_spec(r1), f1.coverage);
}

/// Whatever the scorer, a senator who favors the object's policy domain at
/// least as much as another (and taxes and spending no less), but is otherwise
/// the same, is given at least the same substantive support.
pub proof fn law_domain_alignment_raises_substantive_support(
    aligned: Senator,
    other: Senator,
    obj: LegislativeObject,
    ctx: LegislativeContext,
    mode: StanceDerivationMode,
    aligned_stance: SenatorStance,
    other_stance: SenatorStance,
)
    requires
        aligned.wf(),
        other.wf(),
        obj.wf(),
        same_but_preferences(aligned, other),
        domain_preference(aligned, obj.policy_domain) >= domain_preference(other, obj.policy_domain),
        aligned.issue_preferences.tax_spending >= other.issue_preferences.tax_spending,
        stance_for_mode(aligned_stance, aligned, obj, ctx, mode),
        stance_for_mode(other_stance, other, obj, ctx, mode),
    ensures
        aligned_stance.substantive_support >= other_stance.substantive_support,
{
    lemma_stance_scores(aligned_stance, aligned, obj, ctx, mode);
    lemma_stance_scores(other_stance, other, obj, ctx, mode);
    if mode == StanceDerivationMode::FeatureDriven && coverage_of(aligned) > MIN_FEATURE_COVERAGE {
        lemma_feature_domain_alignment(aligned, other, obj, ctx);
    } else {
        law_domain_alignment_raises_heuristic_support(aligned, other, obj, ctx);
    }
}

/// Two senators that differ at most in their feature coverage and notes.
pub open spec fn same_but_coverage(a: Senator, b: Senator) -> bool {
    &&& a.identity == b.identity
    &&& a.structural == b.structural
    &&& a.issue_preferences == b.issue_preferences
    &&& a.procedural == b.procedural
    &&& a.dynamic_state == b.dynamic_state
}

/// With the feature-driven scorer, a senator with sparser (but sufficient)
/// coverage than an otherwise identical one gets a substantive support no
/// farther from the neutral 0.5.
pub proof fn law_sparse_coverage_shrinks_toward_neutral(
    sparse: Senator,
    rich: Senator,
    obj: LegislativeObject,
    ctx: LegislativeContext,
    sparse_stance: SenatorStance,
    rich_stance: SenatorStance,
)
    requires
        sparse.wf(),
        rich.wf(),
        obj.wf(),
        ctx.wf(),
        same_but_coverage(sparse, rich),
        MIN_FEATURE_COVERAGE < coverage_of(sparse) <= coverage_of(rich),
        stance_for_mode(sparse_stance, sparse, obj, ctx, StanceDerivationMode::FeatureDriven),
        stance_for_mode(rich_stance, rich, obj, ctx, StanceDerivationMode::FeatureDriven),
    ensures
        crate::util::score::abs_spec(sparse_stance.substantive_support - 5000) <= crate::util::score::abs_spec(
            rich_stance.substantive_support - 5000,
        ),
{
    lemma_stance_scores(sparse_stance, sparse, obj, ctx, StanceDerivationMode::FeatureDriven);
    lemma_stance_scores(rich_stance, rich, obj, ctx, StanceDerivationMode::FeatureDriven);
    let f1 = feature_inputs(sparse, obj, ctx);
    let f2 = feature_inputs(rich, obj, ctx);
    assert(f1.domain_affinity == f2.domain_affinity);
    assert(f1.party_alignment == f2.party_alignment);
    assert(f1.controversy == f2.controversy);
    assert(f1.drift == f2.drift);
    let r = f1.domain_affinity * 6200 + f1.party_alignment * 1800 + f1.salience * 3500 + f1.controversy * 2000
        + f1.drift * 1500;
    let x = clamp_wide_spec(r);
    lemma_shrink_toward_neutral(x, coverage_of(sparse), coverage_of(rich));
}

/// Two senators that differ at most in their attendance record.
pub open spec fn same_but_attendance(a: Senator, b: Senator) -> bool {
    &&& a.identity == b.identity
    &&& a.structural == b.structural
    &&& a.issue_preferences == b.issue_preferences
    &&& a.procedural == Procedural { attendance_reliability: a.procedural.attendance_reliability, ..b.procedural }
    &&& a.dynamic_state == b.dynamic_state
    &&& a.feature_coverage_score == b.feature_coverage_score
    &&& a.feature_notes == b.feature_notes
}

/// Whatever the scorer, a senator who attends no more reliably than an
/// otherwise identical one is given at least the same absence probability.
pub proof fn law_lower_attendance_raises_absence(
    unreliable: Senator,
    reliable: Senator,
    obj: LegislativeObject,
    ctx: LegislativeContext,
    mode: StanceDerivationMode,
    unreliable_stance: SenatorStance,
    reliable_stance: SenatorStance,
)
    requires
        unreliable.wf(),
        reliable.wf(),
        same_but_attendance(unreliable, reliable),
        unreliable.procedural.attendance_reliability <= reliable.procedural.attendance_reliability,
        stance_for_mode(unreliable_stance, unreliable, obj, ctx, mode),
        stance_for_mode(reliable_stance, reliable, obj, ctx, mode),
    ensures
        unreliable_stance.absence_probability >= reliable_stance.absence_probability,
{
    lemma_stance_scores(unreliable_stance, unreliable, obj, ctx, mode);
    lemma_stance_scores(reliable_stance, reliable, obj, ctx, mode);
    if mode == StanceDerivationMode::FeatureDriven && coverage_of(unreliable) > MIN_FEATURE_COVERAGE {
        let e: int = if election_near(ctx.days_until_election) {
            3000000int
        } else {
            0int
        };
        let cps = unreliable.dynamic_state.current_procedural_support as int;
        let cov = coverage_of(unreliable);
        let a1 = (10000 - unreliable.procedural.attendance_reliability) * 7000 + (10000 - cps) * 800 + e + (10000
            - cov) * 400;
        let a2 = (10000 - reliable.procedural.attendance_reliability) * 7000 + (10000 - cps) * 800 + e + (10000
            - cov) * 400;
        lemma_clamp_wide_monotone(a2, a1);
    }
}

/// Two senators that differ at most in their current procedural support.
pub open spec fn same_but_procedural_support(a: Senator, b: Senator) -> bool {
    &&& a.identity == b.identity
    &&& a.structural == b.structural
    &&& a.issue_preferences == b.issue_preferences
    &&& a.procedural == b.procedural
    &&& a.dynamic_state == DynamicState {
        current_procedural_support: a.dynamic_state.current_procedural_support,
        ..b.dynamic_state
    }
    &&& a.feature_coverage_score == b.feature_coverage_score
    &&& a.feature_notes == b.feature_notes
}

proof fn lemma_feature_procedural_drift(high: Senator, low: Senator, obj: LegislativeObject, ctx: LegislativeContext)
    requires
        high.wf(),
        low.wf(),
        obj.wf(),
        same_but_procedural_support(high, low),
        high.dynamic_state.current_procedural_support >= low.dynamic_state.current_procedural_support,
    ensures
        feature_scores(high, obj, ctx).procedural >= feature_scores(low, obj, ctx).procedural,
{
    let f1 = feature_inputs(high, obj, ctx);
    let f2 = feature_inputs(low, obj, ctx);
    assert(f1.domain_affinity == f2.domain_affinity);
    assert(f1.party_alignment == f2.party_alignment);
    assert(f1.controversy == f2.controversy);
    assert(f1.coverage == f2.coverage);
    let pa = f1.party_alignment;
    let cov = f1.coverage;
    // procedural compatibility
    let s1 = stage_base_twice(high, ctx.procedural_stage);
    let s2 = stage_base_twice(low, ctx.procedural_stage);
    assert(s1 >= s2);
    lemma_clamp_wide_monotone(
        s2 * 3100 + low.dynamic_state.current_procedural_support * 1800 + pa * 1200
            - low.procedural.uc_objection_tendency * 1000,
        s1 * 3100 + high.dynamic_state.current_procedural_support * 1800 + pa * 1200
            - high.procedural.uc_objection_tendency * 1000,
    );
    assert(f1.procedural_compatibility >= f2.procedural_compatibility);
    // drift
    let d1 = (high.dynamic_state.current_procedural_support - high.procedural.cloture_support_baseline) * 2000 + (
    high.dynamic_state.current_party_pressure - high.structural.party_loyalty_baseline) * 1500;
    let d2 = (low.dynamic_state.current_procedural_support - low.procedural.cloture_support_baseline) * 2000 + (
    low.dynamic_state.current_party_pressure - low.structural.party_loyalty_baseline) * 1500;
    vstd::arithmetic::div_mod::lemma_div_is_ordered(d2, d1, 10000);
    assert(f1.drift >= f2.drift);
    // substantive
    let r1 = f1.domain_affinity * 6200 + pa * 1800 + f1.salience * 3500 + f1.controversy * 2000 + f1.drift * 1500;
    let r2 = f2.domain_affinity * 6200 + pa * 1800 + f2.salience * 3500 + f2.controversy * 2000 + f2.drift * 1500;
    lemma_clamp_wide_monotone(r2, r1);
    lemma_shrink_monotone(clamp_wide_spec(r2), clamp_wide_spec(r1), cov);
    let sub1 = feature_scores(high, obj, ctx).substantive;
    let sub2 = feature_scores(low, obj, ctx).substantive;
    assert(sub1 >= sub2);
    let b1: int = if sub1 >= 5000 {
        6000000
    } else {
        -4000000
    };
    let b2: int = if sub2 >= 5000 {
        6000000
    } else {
        -4000000
    };
    let p1 = f1.procedural_compatibility * 5500 + pa * 2200 + f1.deadline * 800 + f1.drift * 2000 + b1;
    let p2 = f2.procedural_compatibility * 5500 + pa * 2200 + f2.deadline * 800 + f2.drift * 2000 + b2;
    assert(p1 >= p2);
    lemma_clamp_wide_monotone(p2, p1);
    lemma_shrink_monotone(clamp_wide_spec(p2), clamp_wide_spec(p1), cov);
}

/// Whatever the scorer, a senator whose current procedural support is at
/// least another's, but who is otherwise the same, is given at least the same
/// procedural support.
pub proof fn law_procedural_drift_moves_procedural_support(
    high: Senator,
    low: Senator,
    obj: LegislativeObject,
    ctx: LegislativeContext,
    mode: StanceDerivationMode,
    high_stance: SenatorStance,
    low_stance: SenatorStance,
)
    requires
        high.wf(),
        low.wf(),
        obj.wf(),
        ctx.wf(),
        same_but_procedural_support(high, low),
        high.dynamic_state.current_procedural_support >= low.dynamic_state.current_procedural_support,
        stance_for_mode(high_stance, high, obj, ctx, mode),
        stance_for_mode(low_stance, low, obj, ctx, mode),
    ensures
        high_stance.procedural_support >= low_stance.procedural_support,
{
    lemma_stance_scores(high_stance, high, obj, ctx, mode);
    lemma_stance_scores(low_stance, low, obj, ctx, mode);
    if mode == StanceDerivationMode::FeatureDriven && coverage_of(high) > MIN_FEATURE_COVERAGE {
        lemma_feature_procedural_drift(high, low, obj, ctx);
    } else {
        let sub = heuristic_scores(high, obj, ctx).substantive;
        assert(sub == heuristic_scores(low, obj, ctx).substantive);
        let sb = stage_baseline(high, ctx.procedural_stage, sub);
        assert(sb == stage_baseline(low, ctx.procedural_stage, sub));
        let rest = sb * 4200 * 10000 + sb * stage_weight(ctx.procedural_stage) * 10000 + ctx.leadership_priority
            * high.procedural.leadership_deference * 2200 + high.dynamic_state.current_party_pressure * 1200
            * 10000 + (sub - 5000) * 1800 * 10000 - obj.controversy * high.procedural.uc_objection_tendency * 1000;
        lemma_clamp_cube_monotone(
            rest + low.dynamic_state.current_procedural_support * 1800 * 10000,
            rest + high.dynamic_state.current_procedural_support * 1800 * 10000,
        );
    }
}

} // verus!
