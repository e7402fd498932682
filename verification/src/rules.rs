//! Which replays are rendered on their own.
use crate::osu::ResolvedBeatmap;
use crate::types::{AutoRendererConfig, CountRule, CountRuleOp, Double, HitData, JudgmentRules};
use vstd::prelude::*;

verus! {

/// A number that a rule is held against, and whether it lies within a thousandth of the number of
/// the rule.
#[derive(Clone, Copy, PartialEq, Eq, Structural)]
pub struct Reading {
    pub value: Double,
    pub near: bool,
}

/// The smaller of two numbers; of a number and what is no number, the number.
pub open spec fn smaller(a: Double, b: Double) -> Double {
    if b.is_nan() || a.at_most(b) {
        a
    } else {
        b
    }
}

/// The larger of two numbers; of a number and what is no number, the number.
pub open spec fn larger(a: Double, b: Double) -> Double {
    if b.is_nan() || b.at_most(a) {
        a
    } else {
        b
    }
}

/// A rule holds of a number. A range holds of both of its ends, in whichever order they are given.
pub open spec fn holds(rule: CountRule, r: Reading) -> bool {
    if !rule.enabled {
        true
    } else {
        match rule.op {
            CountRuleOp::Eq => r.near,
            CountRuleOp::Gte => rule.value.at_most(r.value),
            CountRuleOp::Lte => r.value.at_most(rule.value),
            CountRuleOp::Between => {
                let max = match rule.max_value {
                    Some(m) => m,
                    None => rule.value,
                };
                smaller(rule.value, max).at_most(r.value) && r.value.at_most(larger(rule.value, max))
            },
        }
    }
}

/// Whether a rule holds of a number.
pub fn numeric_rule_matches(rule: &CountRule, reading: Reading) -> (r: bool)
    ensures
        r == holds(*rule, reading),
{
    if !rule.enabled {
        return true;
    }
    match rule.op {
        CountRuleOp::Eq => reading.near,
        CountRuleOp::Gte => rule.value.le(reading.value),
        CountRuleOp::Lte => reading.value.le(rule.value),
        CountRuleOp::Between => {
            let max = match rule.max_value {
                Some(m) => m,
                None => rule.value,
            };
            (rule.value.le(reading.value) || max.le(reading.value)) && (reading.value.le(rule.value)
                || reading.value.le(max))
        },
    }
}

/// Whether a rule holds of a number that may be missing. A rule that is enabled holds of no missing
/// number.
pub fn optional_numeric_rule_matches(rule: &CountRule, reading: Option<Reading>) -> (r: bool)
    ensures
        r == (!rule.enabled || (reading matches Some(x) && holds(*rule, x))),
{
    if !rule.enabled {
        return true;
    }
    match reading {
        Some(x) => numeric_rule_matches(rule, x),
        None => false,
    }
}

/// The numbers of a beatmap.
#[derive(Clone, Copy, PartialEq, Eq, Structural)]
pub struct BeatmapReadings {
    pub long_notes: Reading,
    pub normal_notes: Reading,
    pub total_notes: Reading,
    pub bpm: Reading,
    pub hp: Reading,
    pub cs: Reading,
    pub od: Reading,
    pub duration: Reading,
}

/// The numbers of a replay.
#[derive(Clone, Copy, PartialEq, Eq, Structural)]
pub struct AutoRendererReplayMetrics {
    pub max_combo: Reading,
    pub accuracy: Reading,
    pub pp: Option<Reading>,
    pub max: Reading,
    pub n300: Reading,
    pub n200: Reading,
    pub n100: Reading,
    pub n50: Reading,
    pub miss: Reading,
}

#[derive(Clone, Copy, PartialEq, Eq, Structural)]
pub enum AutoRendererFilterDecision {
    Match,
    Rejected,
    PpUnavailable,
}

/// How often each judgment of mania was given, under the names that the rules have for them.
#[derive(Clone, Copy, PartialEq, Eq, Structural)]
pub struct JudgmentCounts {
    pub max: i64,
    pub n300: i64,
    pub n200: i64,
    pub n100: i64,
    pub n50: i64,
    pub miss: i64,
}

/// The judgments of a play by their worth.
pub open spec fn judgments_of(hits: HitData) -> JudgmentCounts {
    JudgmentCounts {
        max: hits.geki,
        n300: hits.n300,
        n200: hits.katu,
        n100: hits.n100,
        n50: hits.n50,
        miss: hits.miss,
    }
}

/// How often each judgment of mania was given: what a replay counts as geki is the best of them, and
/// what it counts as katu is worth two hundred.
pub fn judgment_counts(hits: &HitData) -> (r: JudgmentCounts)
    ensures
        r == judgments_of(*hits),
        r == (JudgmentCounts {
            max: hits.geki,
            n300: hits.n300,
            n200: hits.katu,
            n100: hits.n100,
            n50: hits.n50,
            miss: hits.miss,
        }),
{
    JudgmentCounts {
        max: hits.geki,
        n300: hits.n300,
        n200: hits.katu,
        n100: hits.n100,
        n50: hits.n50,
        miss: hits.miss,
    }
}

/// All notes of a beatmap, as far as an `u32` counts.
pub open spec fn all_notes(long_notes: u32, normal_notes: u32) -> int {
    if long_notes + normal_notes > u32::MAX {
        u32::MAX as int
    } else {
        long_notes + normal_notes
    }
}

/// All notes of a beatmap, as far as an `u32` can count.
pub fn total_note_count(beatmap: &ResolvedBeatmap) -> (r: u32)
    ensures
        r == all_notes(beatmap.long_note_count, beatmap.normal_note_count),
        r == if beatmap.long_note_count + beatmap.normal_note_count > u32::MAX {
            u32::MAX as int
        } else {
            beatmap.long_note_count + beatmap.normal_note_count
        },
{
    beatmap.long_note_count.saturating_add(beatmap.normal_note_count)
}

/// A number of keys is wanted. An empty list wants all.
pub open spec fn keys_wanted(keys: Seq<u8>, key_count: u8) -> bool {
    keys.len() == 0 || keys.contains(key_count)
}

/// A beatmap is wanted, by its keys and by its numbers.
pub open spec fn beatmap_wanted(c: AutoRendererConfig, key_count: u8, b: BeatmapReadings) -> bool {
    &&& keys_wanted(c.key_counts@, key_count)
    &&& holds(c.long_note_rule, b.long_notes)
    &&& holds(c.normal_note_rule, b.normal_notes)
    &&& holds(c.total_note_rule, b.total_notes)
    &&& holds(c.bpm_rule, b.bpm)
    &&& holds(c.hp_rule, b.hp)
    &&& holds(c.cs_rule, b.cs)
    &&& holds(c.od_rule, b.od)
    &&& holds(c.duration_rule, b.duration)
}

/// A play is wanted, by the number of each of its judgments.
pub open spec fn judgments_wanted(j: JudgmentRules, m: AutoRendererReplayMetrics) -> bool {
    &&& holds(j.max, m.max)
    &&& holds(j.n300, m.n300)
    &&& holds(j.n200, m.n200)
    &&& holds(j.n100, m.n100)
    &&& holds(j.n50, m.n50)
    &&& holds(j.miss, m.miss)
}

/// A play is wanted, by its numbers.
pub open spec fn play_wanted(c: AutoRendererConfig, m: AutoRendererReplayMetrics) -> bool {
    &&& holds(c.max_combo_rule, m.max_combo)
    &&& holds(c.accuracy_rule, m.accuracy)
    &&& !c.pp_rule.enabled || (m.pp matches Some(pp) && holds(c.pp_rule, pp))
    &&& judgments_wanted(c.judgment_rules, m)
}

/// Whether a replay is rendered, by its beatmap and by its numbers.
pub open spec fn decision(
    c: AutoRendererConfig,
    key_count: u8,
    b: BeatmapReadings,
    m: AutoRendererReplayMetrics,
) -> AutoRendererFilterDecision {
    if !beatmap_wanted(c, key_count, b) {
        AutoRendererFilterDecision::Rejected
    } else if c.pp_rule.enabled && m.pp is None {
        AutoRendererFilterDecision::PpUnavailable
    } else if play_wanted(c, m) {
        AutoRendererFilterDecision::Match
    } else {
        AutoRendererFilterDecision::Rejected
    }
}

fn wants_keys(keys: &Vec<u8>, key_count: u8) -> (r: bool)
    ensures
        r == keys_wanted(keys@, key_count),
{
    if keys.len() == 0 {
        return true;
    }
    let mut i: usize = 0;
    while i < keys.len()
        invariant
            i <= keys@.len(),
            keys@.len() > 0,
            forall|j: int| 0 <= j < i ==> keys@[j] != key_count,
        decreases keys@.len() - i,
    {
        if keys[i] == key_count {
            return true;
        }
        i = i + 1;
    }
    false
}

/// What the rules on beatmaps alone say of one.
pub open spec fn beatmap_decision(
    c: AutoRendererConfig,
    key_count: u8,
    b: BeatmapReadings,
) -> AutoRendererFilterDecision {
    if beatmap_wanted(c, key_count, b) {
        AutoRendererFilterDecision::Match
    } else {
        AutoRendererFilterDecision::Rejected
    }
}

/// Whether a beatmap is wanted.
pub fn matches_auto_renderer_filters(
    auto_renderer: &AutoRendererConfig,
    key_count: u8,
    b: &BeatmapReadings,
) -> (r: AutoRendererFilterDecision)
    ensures
        r == beatmap_decision(*auto_renderer, key_count, *b),
        r == if beatmap_wanted(*auto_renderer, key_count, *b) {
            AutoRendererFilterDecision::Match
        } else {
            AutoRendererFilterDecision::Rejected
        },
{
    if !wants_keys(&auto_renderer.key_counts, key_count) {
        return AutoRendererFilterDecision::Rejected;
    }
    if numeric_rule_matches(&auto_renderer.long_note_rule, b.long_notes) && numeric_rule_matches(
        &auto_renderer.normal_note_rule,
        b.normal_notes,
    ) && numeric_rule_matches(&auto_renderer.total_note_rule, b.total_notes)
        && numeric_rule_matches(&auto_renderer.bpm_rule, b.bpm) && numeric_rule_matches(
        &auto_renderer.hp_rule,
        b.hp,
    ) && numeric_rule_matches(&auto_renderer.cs_rule, b.cs) && numeric_rule_matches(
        &auto_renderer.od_rule,
        b.od,
    ) && numeric_rule_matches(&auto_renderer.duration_rule, b.duration) {
        AutoRendererFilterDecision::Match
    } else {
        AutoRendererFilterDecision::Rejected
    }
}

fn judgments_match(j: &JudgmentRules, m: &AutoRendererReplayMetrics) -> (r: bool)
    ensures
        r == judgments_wanted(*j, *m),
{
    numeric_rule_matches(&j.max, m.max) && numeric_rule_matches(&j.n300, m.n300)
        && numeric_rule_matches(&j.n200, m.n200) && numeric_rule_matches(&j.n100, m.n100)
        && numeric_rule_matches(&j.n50, m.n50) && numeric_rule_matches(&j.miss, m.miss)
}

/// Whether a replay is rendered.
pub fn matches_auto_renderer_filters_with_metrics(
    auto_renderer: &AutoRendererConfig,
    key_count: u8,
    b: &BeatmapReadings,
    metrics: &AutoRendererReplayMetrics,
) -> (r: AutoRendererFilterDecision)
    ensures
        r == decision(*auto_renderer, key_count, *b, *metrics),
{
    if matches_auto_renderer_filters(auto_renderer, key_count, b)
        == AutoRendererFilterDecision::Rejected {
        return AutoRendererFilterDecision::Rejected;
    }
    if auto_renderer.pp_rule.enabled && metrics.pp.is_none() {
        return AutoRendererFilterDecision::PpUnavailable;
    }
    if numeric_rule_matches(&auto_renderer.max_combo_rule, metrics.max_combo)
        && numeric_rule_matches(&auto_renderer.accuracy_rule, metrics.accuracy)
        && optional_numeric_rule_matches(&auto_renderer.pp_rule, metrics.pp) && judgments_match(
        &auto_renderer.judgment_rules,
        metrics,
    ) {
        AutoRendererFilterDecision::Match
    } else {
        AutoRendererFilterDecision::Rejected
    }
}

// ---------------------------------------------------------------------------------------------
// Laws
// ---------------------------------------------------------------------------------------------

/// Without keys and without rules every replay is rendered.
pub proof fn no_filter_matches_all(
    c: AutoRendererConfig,
    key_count: u8,
    b: BeatmapReadings,
    m: AutoRendererReplayMetrics,
)
    requires
        c.key_counts@.len() == 0,
        !c.long_note_rule.enabled && !c.normal_note_rule.enabled && !c.total_note_rule.enabled,
        !c.bpm_rule.enabled && !c.hp_rule.enabled && !c.cs_rule.enabled && !c.od_rule.enabled,
        !c.duration_rule.enabled && !c.max_combo_rule.enabled && !c.accuracy_rule.enabled,
        !c.pp_rule.enabled,
        !c.judgment_rules.max.enabled && !c.judgment_rules.n300.enabled,
        !c.judgment_rules.n200.enabled && !c.judgment_rules.n100.enabled,
        !c.judgment_rules.n50.enabled && !c.judgment_rules.miss.enabled,
    ensures
        decision(c, key_count, b, m) == AutoRendererFilterDecision::Match,
{
}

/// A replay on a beatmap that is not wanted is rejected, whatever the play was.
pub proof fn unwanted_beatmaps_are_rejected(
    c: AutoRendererConfig,
    key_count: u8,
    b: BeatmapReadings,
    m: AutoRendererReplayMetrics,
)
    requires
        !beatmap_wanted(c, key_count, b),
    ensures
        decision(c, key_count, b, m) == AutoRendererFilterDecision::Rejected,
{
}

/// Points are missed only where a rule asks for them.
pub proof fn points_are_missed_only_where_asked(
    c: AutoRendererConfig,
    key_count: u8,
    b: BeatmapReadings,
    m: AutoRendererReplayMetrics,
)
    requires
        decision(c, key_count, b, m) == AutoRendererFilterDecision::PpUnavailable,
    ensures
        c.pp_rule.enabled,
        m.pp is None,
{
}

/// A range is the same whichever of its ends comes first.
pub proof fn ranges_have_no_order(a: Double, b: Double, r: Reading)
    requires
        !a.is_nan() && !b.is_nan(),
    ensures
        holds(
            CountRule {
                enabled: true,
                op: CountRuleOp::Between,
                value: a,
                max_value: Some(b),
            },
            r,
        ) == holds(
            CountRule {
                enabled: true,
                op: CountRuleOp::Between,
                value: b,
                max_value: Some(a),
            },
            r,
        ),
{
}

/// What is no number meets no condition that compares.
pub proof fn no_number_meets_nothing(rule: CountRule, r: Reading)
    requires
        rule.enabled && rule.op != CountRuleOp::Eq,
        r.value.is_nan(),
    ensures
        !holds(rule, r),
{
}

/// One rule that is enabled and fails its own number is enough that a replay is not rendered, whichever of
/// the rules it is; so are keys that are not among the wanted ones, and points that are missing where a
/// rule asks for them.
pub proof fn one_failed_rule_is_enough(
    c: AutoRendererConfig,
    key_count: u8,
    b: BeatmapReadings,
    m: AutoRendererReplayMetrics,
)
    ensures
        c.long_note_rule.enabled && !holds(c.long_note_rule, b.long_notes) ==> decision(c, key_count, b, m)
            != AutoRendererFilterDecision::Match,
        c.normal_note_rule.enabled && !holds(c.normal_note_rule, b.normal_notes) ==> decision(c, key_count, b, m)
            != AutoRendererFilterDecision::Match,
        c.total_note_rule.enabled && !holds(c.total_note_rule, b.total_notes) ==> decision(c, key_count, b, m)
            != AutoRendererFilterDecision::Match,
        c.bpm_rule.enabled && !holds(c.bpm_rule, b.bpm) ==> decision(c, key_count, b, m)
            != AutoRendererFilterDecision::Match,
        c.hp_rule.enabled && !holds(c.hp_rule, b.hp) ==> decision(c, key_count, b, m)
            != AutoRendererFilterDecision::Match,
        c.cs_rule.enabled && !holds(c.cs_rule, b.cs) ==> decision(c, key_count, b, m)
            != AutoRendererFilterDecision::Match,
        c.od_rule.enabled && !holds(c.od_rule, b.od) ==> decision(c, key_count, b, m)
            != AutoRendererFilterDecision::Match,
        c.duration_rule.enabled && !holds(c.duration_rule, b.duration) ==> decision(c, key_count, b, m)
            != AutoRendererFilterDecision::Match,
        c.max_combo_rule.enabled && !holds(c.max_combo_rule, m.max_combo) ==> decision(c, key_count, b, m)
            != AutoRendererFilterDecision::Match,
        c.accuracy_rule.enabled && !holds(c.accuracy_rule, m.accuracy) ==> decision(c, key_count, b, m)
            != AutoRendererFilterDecision::Match,
        c.judgment_rules.max.enabled && !holds(c.judgment_rules.max, m.max) ==> decision(c, key_count, b, m)
            != AutoRendererFilterDecision::Match,
        c.judgment_rules.n300.enabled && !holds(c.judgment_rules.n300, m.n300) ==> decision(c, key_count, b, m)
            != AutoRendererFilterDecision::Match,
        c.judgment_rules.n200.enabled && !holds(c.judgment_rules.n200, m.n200) ==> decision(c, key_count, b, m)
            != AutoRendererFilterDecision::Match,
        c.judgment_rules.n100.enabled && !holds(c.judgment_rules.n100, m.n100) ==> decision(c, key_count, b, m)
            != AutoRendererFilterDecision::Match,
        c.judgment_rules.n50.enabled && !holds(c.judgment_rules.n50, m.n50) ==> decision(c, key_count, b, m)
            != AutoRendererFilterDecision::Match,
        c.judgment_rules.miss.enabled && !holds(c.judgment_rules.miss, m.miss) ==> decision(c, key_count, b, m)
            != AutoRendererFilterDecision::Match,
        c.pp_rule.enabled && m.pp is None ==> decision(c, key_count, b, m)
            != AutoRendererFilterDecision::Match,
        c.pp_rule.enabled && (m.pp matches Some(pp) && !holds(c.pp_rule, pp)) ==> decision(
            c,
            key_count,
            b,
            m,
        ) == AutoRendererFilterDecision::Rejected,
        c.key_counts@.len() > 0 && !c.key_counts@.contains(key_count) ==> decision(c, key_count, b, m)
            == AutoRendererFilterDecision::Rejected,
{
}

/// A replay is rendered where its keys are among the wanted ones, or none are named, and where every rule
/// that is enabled holds of its own number. Nothing else is asked of it.
pub proof fn replays_that_meet_every_rule_are_rendered(
    c: AutoRendererConfig,
    key_count: u8,
    b: BeatmapReadings,
    m: AutoRendererReplayMetrics,
)
    requires
        c.key_counts@.len() == 0 || c.key_counts@.contains(key_count),
        c.long_note_rule.enabled ==> holds(c.long_note_rule, b.long_notes),
        c.normal_note_rule.enabled ==> holds(c.normal_note_rule, b.normal_notes),
        c.total_note_rule.enabled ==> holds(c.total_note_rule, b.total_notes),
        c.bpm_rule.enabled ==> holds(c.bpm_rule, b.bpm),
        c.hp_rule.enabled ==> holds(c.hp_rule, b.hp),
        c.cs_rule.enabled ==> holds(c.cs_rule, b.cs),
        c.od_rule.enabled ==> holds(c.od_rule, b.od),
        c.duration_rule.enabled ==> holds(c.duration_rule, b.duration),
        c.max_combo_rule.enabled ==> holds(c.max_combo_rule, m.max_combo),
        c.accuracy_rule.enabled ==> holds(c.accuracy_rule, m.accuracy),
        c.judgment_rules.max.enabled ==> holds(c.judgment_rules.max, m.max),
        c.judgment_rules.n300.enabled ==> holds(c.judgment_rules.n300, m.n300),
        c.judgment_rules.n200.enabled ==> holds(c.judgment_rules.n200, m.n200),
        c.judgment_rules.n100.enabled ==> holds(c.judgment_rules.n100, m.n100),
        c.judgment_rules.n50.enabled ==> holds(c.judgment_rules.n50, m.n50),
        c.judgment_rules.miss.enabled ==> holds(c.judgment_rules.miss, m.miss),
        c.pp_rule.enabled ==> (m.pp matches Some(pp) && holds(c.pp_rule, pp)),
    ensures
        decision(c, key_count, b, m) == AutoRendererFilterDecision::Match,
{
}

/// Points that are missing are told where a rule asks for them and the beatmap is wanted, whatever the rest
/// of the play was.
pub proof fn missing_points_are_told(
    c: AutoRendererConfig,
    key_count: u8,
    b: BeatmapReadings,
    m: AutoRendererReplayMetrics,
)
    requires
        c.key_counts@.len() == 0 || c.key_counts@.contains(key_count),
        c.long_note_rule.enabled ==> holds(c.long_note_rule, b.long_notes),
        c.normal_note_rule.enabled ==> holds(c.normal_note_rule, b.normal_notes),
        c.total_note_rule.enabled ==> holds(c.total_note_rule, b.total_notes),
        c.bpm_rule.enabled ==> holds(c.bpm_rule, b.bpm),
        c.hp_rule.enabled ==> holds(c.hp_rule, b.hp),
        c.cs_rule.enabled ==> holds(c.cs_rule, b.cs),
        c.od_rule.enabled ==> holds(c.od_rule, b.od),
        c.duration_rule.enabled ==> holds(c.duration_rule, b.duration),
        c.pp_rule.enabled,
        m.pp is None,
    ensures
        decision(c, key_count, b, m) == AutoRendererFilterDecision::PpUnavailable,
{
}

/// A rule that is switched off holds of everything, and one that is switched on says of a number what its
/// sign does: at least, at most, within a thousandth of, or between, both ends included.
pub proof fn rules_say_what_their_sign_does(rule: CountRule, r: Reading)
    ensures
        !rule.enabled ==> holds(rule, r),
        rule.enabled && rule.op == CountRuleOp::Gte ==> (holds(rule, r) <==> rule.value.at_most(
            r.value,
        )),
        rule.enabled && rule.op == CountRuleOp::Lte ==> (holds(rule, r) <==> r.value.at_most(
            rule.value,
        )),
        rule.enabled && rule.op == CountRuleOp::Eq ==> (holds(rule, r) <==> r.near),
        rule.enabled && rule.op == CountRuleOp::Between && (rule.max_value matches Some(m)
            && rule.value.at_most(m)) ==> (holds(rule, r) <==> rule.value.at_most(r.value)
            && r.value.at_most(rule.max_value->0)),
        rule.enabled && rule.op == CountRuleOp::Between && (rule.max_value matches Some(m)
            && m.at_most(rule.value)) ==> (holds(rule, r) <==> rule.max_value->0.at_most(r.value)
            && r.value.at_most(rule.value)),
        rule.enabled && rule.op == CountRuleOp::Between && rule.max_value is None ==> (holds(rule, r)
            <==> rule.value.at_most(r.value) && r.value.at_most(rule.value)),
{
}

/// A larger number meets every lower bound that a smaller one meets, and a smaller number every upper
/// bound that a larger one meets; a bound is met by itself.
pub proof fn bounds_are_kept_by_better_numbers(rule: CountRule, a: Reading, b: Reading)
    requires
        rule.enabled,
        a.value.at_most(b.value),
    ensures
        rule.op == CountRuleOp::Gte && holds(rule, a) ==> holds(rule, b),
        rule.op == CountRuleOp::Lte && holds(rule, b) ==> holds(rule, a),
        rule.op != CountRuleOp::Eq && a.value == rule.value ==> holds(rule, a),
{
}

/// A hit counts under its own worth: a geki is a maximum and a katu is worth two hundred.
pub proof fn hits_count_under_their_worth(h: crate::types::HitData)
    ensures
        judgments_of(h).max == h.geki && judgments_of(h).n300 == h.n300 && judgments_of(h).n200 == h.katu,
        judgments_of(h).n100 == h.n100 && judgments_of(h).n50 == h.n50 && judgments_of(h).miss == h.miss,
{
}

/// Held notes and other notes are the notes of a beatmap.
pub proof fn notes_add_up(long_notes: u32, normal_notes: u32)
    ensures
        long_notes + normal_notes <= 0xffff_ffff ==> all_notes(long_notes, normal_notes) == long_notes
            + normal_notes,
        long_notes + normal_notes > 0xffff_ffff ==> all_notes(long_notes, normal_notes) == 0xffff_ffff,
{
}

/// The rules on beatmaps refuse a beatmap exactly where its keys are not wanted or one of its numbers fails its
/// rule, and no replay on a beatmap that they refuse is rendered.
pub proof fn beatmaps_are_judged_by_every_rule(
    c: AutoRendererConfig,
    key_count: u8,
    b: BeatmapReadings,
    m: AutoRendererReplayMetrics,
)
    ensures
        beatmap_decision(c, key_count, b) == AutoRendererFilterDecision::Match <==> {
            &&& c.key_counts@.len() > 0 ==> c.key_counts@.contains(key_count)
            &&& c.long_note_rule.enabled ==> holds(c.long_note_rule, b.long_notes)
            &&& c.normal_note_rule.enabled ==> holds(c.normal_note_rule, b.normal_notes)
            &&& c.total_note_rule.enabled ==> holds(c.total_note_rule, b.total_notes)
            &&& c.bpm_rule.enabled ==> holds(c.bpm_rule, b.bpm)
            &&& c.hp_rule.enabled ==> holds(c.hp_rule, b.hp)
            &&& c.cs_rule.enabled ==> holds(c.cs_rule, b.cs)
            &&& c.od_rule.enabled ==> holds(c.od_rule, b.od)
            &&& c.duration_rule.enabled ==> holds(c.duration_rule, b.duration)
        },
        beatmap_decision(c, key_count, b) != AutoRendererFilterDecision::Match ==> decision(
            c,
            key_count,
            b,
            m,
        ) == AutoRendererFilterDecision::Rejected,
{
}

} // verus!
