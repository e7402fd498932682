//! The settings that a user enters: what is accepted of them, and what they change.
use crate::error;
use crate::error::{invalid, AppResult, ErrorView};
use crate::server::sanitize_server_name;
use crate::text;
use crate::text::{blank, bytes_in, cat, same_text, trim};
use crate::types::{
    AppConfig, AutoRendererConfig, AutoRendererSource, AutoRendererView, ConfigView, CountRule,
    DiscordConfig, Double, JudgmentRules, SaveSettingsInput, DEFAULT_API_URL,
    DEFAULT_FRONTEND_URL,
};
use crate::weburl;
use crate::weburl::{validate_discord_webhook, validate_public_miru_url};
use vstd::prelude::*;

verus! {

// ---------------------------------------------------------------------------------------------
// Identifiers
// ---------------------------------------------------------------------------------------------

/// The most bytes of an identifier.
pub const MAX_ID_BYTES: u128 = 128;

/// An identifier without the white space around it. One that is empty is none; a long one is refused.
pub open spec fn id_outcome(value: Option<Seq<char>>, label: Seq<char>) -> Result<
    Option<Seq<char>>,
    ErrorView,
> {
    match value {
        None => Ok(None),
        Some(v) => if text::is_blank(v) {
            Ok(None)
        } else if text::byte_len(text::trimmed(v)) > MAX_ID_BYTES {
            Err(ErrorView::InvalidInput(label + " id is too long"@))
        } else {
            Ok(Some(text::trimmed(v)))
        },
    }
}

/// An identifier that may be missing.
pub fn sanitize_optional_id(value: Option<String>, label: &str) -> (r: AppResult<Option<String>>)
    ensures
        match r {
            Ok(o) => id_outcome(text::opt_text(value), label@) == Ok::<_, ErrorView>(
                text::opt_text(o),
            ),
            Err(e) => id_outcome(text::opt_text(value), label@) == Err::<Option<Seq<char>>, _>(e@),
        },
{
    let raw = match value {
        Some(v) => v,
        None => {
            return Ok(None);
        },
    };
    if blank(raw.as_str()) {
        return Ok(None);
    }
    let id = trim(raw.as_str());
    if bytes_in(id.as_str()) > MAX_ID_BYTES {
        return Err(invalid(cat(label, " id is too long").as_str()));
    }
    Ok(Some(id))
}

/// An identifier that has another one in its place where it is missing.
pub open spec fn required_id(value: Seq<char>, label: Seq<char>, fallback: Seq<char>) -> Result<
    Seq<char>,
    ErrorView,
> {
    match id_outcome(Some(value), label) {
        Ok(Some(id)) => Ok(id),
        Ok(None) => Ok(fallback),
        Err(e) => Err(e),
    }
}

/// An identifier that has another one in its place where it is missing.
pub fn sanitize_required_id(value: String, label: &str, fallback: &str) -> (r: AppResult<String>)
    ensures
        error::outcome(r) == required_id(value@, label@, fallback@),
{
    match sanitize_optional_id(Some(value), label) {
        Ok(Some(id)) => Ok(id),
        Ok(None) => Ok(fallback.to_owned()),
        Err(e) => Err(e),
    }
}

// ---------------------------------------------------------------------------------------------
// Rules
// ---------------------------------------------------------------------------------------------

// The limits of the rules, each by the bits of a [`Double`].

/// 5 000 000: more notes than any beatmap has.
pub const MOST_NOTES: u64 = 0x4153_12d0_0000_0000;

/// 100: the best accuracy.
pub const MOST_ACCURACY: u64 = 0x4059_0000_0000_0000;

/// 100 000: more points than any play has.
pub const MOST_POINTS: u64 = 0x40f8_6a00_0000_0000;

/// 10 000 beats per minute.
pub const MOST_BPM: u64 = 0x40c3_8800_0000_0000;

/// 20, the largest health and the largest overall difficulty.
pub const MOST_DIFFICULTY: u64 = 0x4034_0000_0000_0000;

/// 18, the largest circle size.
pub const MOST_KEYS: u64 = 0x4032_0000_0000_0000;

/// 86 400: the seconds of a day.
pub const MOST_SECONDS: u64 = 0x40f5_1800_0000_0000;

/// The numbers of a rule, rounded to three places. The second one counts where the rule has it.
#[derive(Clone, Copy, PartialEq, Eq, Structural)]
pub struct Rounded {
    pub value: Double,
    pub max_value: Double,
}

/// The numbers of the rules on hits, rounded.
#[derive(Clone, Copy, PartialEq, Eq, Structural)]
pub struct RoundedJudgments {
    pub max: Rounded,
    pub n300: Rounded,
    pub n200: Rounded,
    pub n100: Rounded,
    pub n50: Rounded,
    pub miss: Rounded,
}

/// The numbers of all rules, rounded.
#[derive(Clone, Copy, PartialEq, Eq, Structural)]
pub struct RoundedRules {
    pub long_note: Rounded,
    pub normal_note: Rounded,
    pub total_note: Rounded,
    pub max_combo: Rounded,
    pub accuracy: Rounded,
    pub pp: Rounded,
    pub bpm: Rounded,
    pub hp: Rounded,
    pub cs: Rounded,
    pub od: Rounded,
    pub duration: Rounded,
    pub judgments: RoundedJudgments,
}

/// A number that a rule may hold: finite and not below zero.
pub open spec fn countable(d: Double) -> bool {
    d.is_finite() && Double::zero().at_most(d)
}

/// A number lies above a limit.
pub open spec fn above(d: Double, limit: u64) -> bool {
    let most = Double { bits: limit };
    !d.is_nan() && !most.is_nan() && d.rank() > most.rank()
}

/// A rule with its numbers rounded.
pub open spec fn rounded_rule(rule: CountRule, n: Rounded) -> CountRule {
    CountRule {
        value: n.value,
        max_value: if rule.max_value is Some {
            Some(n.max_value)
        } else {
            None
        },
        ..rule
    }
}

/// What is wrong with a rule: a number that is infinite or below zero, or one above the limit where the
/// rule is enabled.
pub open spec fn rule_problem(rule: CountRule, n: Rounded, label: Seq<char>, limit: u64) -> Option<
    ErrorView,
> {
    if !countable(rule.value) {
        Some(ErrorView::InvalidInput(label + " must be a non-negative finite number"@))
    } else if rule.max_value matches Some(m) && !countable(m) {
        Some(ErrorView::InvalidInput(label + " max must be a non-negative finite number"@))
    } else if rule.enabled && (above(n.value, limit) || (rule.max_value is Some && above(
        n.max_value,
        limit,
    ))) {
        Some(ErrorView::InvalidInput(label + " is above the supported safety limit"@))
    } else {
        None
    }
}

fn is_countable(d: Double) -> (r: bool)
    ensures
        r == countable(d),
{
    d.finite() && (Double { bits: 0 }).le(d)
}

fn is_above(d: Double, limit: u64) -> (r: bool)
    ensures
        r == above(d, limit),
{
    let most = Double { bits: limit };
    !d.nan() && !most.nan() && !d.le(most)
}

/// Checks a rule and rounds its numbers.
pub fn sanitize_count_rule(rule: CountRule, n: Rounded, label: &str, limit: u64) -> (r: AppResult<
    CountRule,
>)
    ensures
        error::plain(r) == match rule_problem(rule, n, label@, limit) {
            Some(e) => Err(e),
            None => Ok(rounded_rule(rule, n)),
        },
{
    if !is_countable(rule.value) {
        return Err(invalid(cat(label, " must be a non-negative finite number").as_str()));
    }
    let mut max_value: Option<Double> = None;
    let mut high = is_above(n.value, limit);
    if let Some(m) = rule.max_value {
        if !is_countable(m) {
            return Err(invalid(cat(label, " max must be a non-negative finite number").as_str()));
        }
        max_value = Some(n.max_value);
        high = high || is_above(n.max_value, limit);
    }
    if rule.enabled && high {
        return Err(invalid(cat(label, " is above the supported safety limit").as_str()));
    }
    Ok(CountRule { enabled: rule.enabled, op: rule.op, value: n.value, max_value })
}

/// The first of two problems.
pub open spec fn first(a: Option<ErrorView>, b: Option<ErrorView>) -> Option<ErrorView> {
    if a is Some {
        a
    } else {
        b
    }
}

/// What is wrong with the rules on hits.
pub open spec fn judgments_problem(j: JudgmentRules, n: RoundedJudgments) -> Option<ErrorView> {
    first(
        rule_problem(j.max, n.max, "MAX count"@, MOST_NOTES),
        first(
            rule_problem(j.n300, n.n300, "300 count"@, MOST_NOTES),
            first(
                rule_problem(j.n200, n.n200, "200 count"@, MOST_NOTES),
                first(
                    rule_problem(j.n100, n.n100, "100 count"@, MOST_NOTES),
                    first(
                        rule_problem(j.n50, n.n50, "50 count"@, MOST_NOTES),
                        rule_problem(j.miss, n.miss, "Miss count"@, MOST_NOTES),
                    ),
                ),
            ),
        ),
    )
}

/// The rules on hits with their numbers rounded.
pub open spec fn rounded_judgments(j: JudgmentRules, n: RoundedJudgments) -> JudgmentRules {
    JudgmentRules {
        max: rounded_rule(j.max, n.max),
        n300: rounded_rule(j.n300, n.n300),
        n200: rounded_rule(j.n200, n.n200),
        n100: rounded_rule(j.n100, n.n100),
        n50: rounded_rule(j.n50, n.n50),
        miss: rounded_rule(j.miss, n.miss),
    }
}

/// Checks the rules on hits and rounds their numbers.
pub fn sanitize_judgment_rules(rules: JudgmentRules, n: RoundedJudgments) -> (r: AppResult<
    JudgmentRules,
>)
    ensures
        error::plain(r) == match judgments_problem(rules, n) {
            Some(e) => Err(e),
            None => Ok(rounded_judgments(rules, n)),
        },
{
    let max = match sanitize_count_rule(rules.max, n.max, "MAX count", MOST_NOTES) {
        Ok(v) => v,
        Err(e) => {
            return Err(e);
        },
    };
    let n300 = match sanitize_count_rule(rules.n300, n.n300, "300 count", MOST_NOTES) {
        Ok(v) => v,
        Err(e) => {
            return Err(e);
        },
    };
    let n200 = match sanitize_count_rule(rules.n200, n.n200, "200 count", MOST_NOTES) {
        Ok(v) => v,
        Err(e) => {
            return Err(e);
        },
    };
    let n100 = match sanitize_count_rule(rules.n100, n.n100, "100 count", MOST_NOTES) {
        Ok(v) => v,
        Err(e) => {
            return Err(e);
        },
    };
    let n50 = match sanitize_count_rule(rules.n50, n.n50, "50 count", MOST_NOTES) {
        Ok(v) => v,
        Err(e) => {
            return Err(e);
        },
    };
    let miss = match sanitize_count_rule(rules.miss, n.miss, "Miss count", MOST_NOTES) {
        Ok(v) => v,
        Err(e) => {
            return Err(e);
        },
    };
    Ok(JudgmentRules { max, n300, n200, n100, n50, miss })
}

/// What is wrong with the rules on notes and plays.
pub open spec fn play_rules_problem(c: AutoRendererView, n: RoundedRules) -> Option<ErrorView> {
    first(
        rule_problem(c.long_note_rule, n.long_note, "Long note count"@, MOST_NOTES),
        first(
            rule_problem(c.normal_note_rule, n.normal_note, "Normal note count"@, MOST_NOTES),
            first(
                rule_problem(c.total_note_rule, n.total_note, "Total note count"@, MOST_NOTES),
                first(
                    rule_problem(c.max_combo_rule, n.max_combo, "Max combo"@, MOST_NOTES),
                    first(
                        rule_problem(c.accuracy_rule, n.accuracy, "Accuracy"@, MOST_ACCURACY),
                        rule_problem(c.pp_rule, n.pp, "PP"@, MOST_POINTS),
                    ),
                ),
            ),
        ),
    )
}

/// What is wrong with the rules on the beatmap.
pub open spec fn beatmap_rules_problem(c: AutoRendererView, n: RoundedRules) -> Option<ErrorView> {
    first(
        rule_problem(c.bpm_rule, n.bpm, "BPM"@, MOST_BPM),
        first(
            rule_problem(c.hp_rule, n.hp, "HP"@, MOST_DIFFICULTY),
            first(
                rule_problem(c.cs_rule, n.cs, "CS"@, MOST_KEYS),
                first(
                    rule_problem(c.od_rule, n.od, "OD"@, MOST_DIFFICULTY),
                    rule_problem(c.duration_rule, n.duration, "Duration"@, MOST_SECONDS),
                ),
            ),
        ),
    )
}

/// What is wrong with the rules, in the order in which they are checked.
pub open spec fn rules_problem(c: AutoRendererView, n: RoundedRules) -> Option<ErrorView> {
    first(
        play_rules_problem(c, n),
        first(beatmap_rules_problem(c, n), judgments_problem(c.judgment_rules, n.judgments)),
    )
}

/// The settings with the numbers of all rules rounded.
pub open spec fn with_rounded_rules(c: AutoRendererView, n: RoundedRules) -> AutoRendererView {
    AutoRendererView {
        long_note_rule: rounded_rule(c.long_note_rule, n.long_note),
        normal_note_rule: rounded_rule(c.normal_note_rule, n.normal_note),
        total_note_rule: rounded_rule(c.total_note_rule, n.total_note),
        max_combo_rule: rounded_rule(c.max_combo_rule, n.max_combo),
        accuracy_rule: rounded_rule(c.accuracy_rule, n.accuracy),
        pp_rule: rounded_rule(c.pp_rule, n.pp),
        bpm_rule: rounded_rule(c.bpm_rule, n.bpm),
        hp_rule: rounded_rule(c.hp_rule, n.hp),
        cs_rule: rounded_rule(c.cs_rule, n.cs),
        od_rule: rounded_rule(c.od_rule, n.od),
        duration_rule: rounded_rule(c.duration_rule, n.duration),
        judgment_rules: rounded_judgments(c.judgment_rules, n.judgments),
        ..c
    }
}

/// Checks a rule in its place and rounds its numbers.
fn settle(rule: &mut CountRule, n: Rounded, label: &str, limit: u64) -> (r: AppResult<()>)
    ensures
        match rule_problem(*old(rule), n, label@, limit) {
            Some(e) => error::plain(r) == Err::<(), _>(e),
            None => r is Ok && *final(rule) == rounded_rule(*old(rule), n),
        },
{
    match sanitize_count_rule(*rule, n, label, limit) {
        Ok(v) => {
            *rule = v;
            Ok(())
        },
        Err(e) => Err(e),
    }
}

fn settle_play_rules(c: &mut AutoRendererConfig, n: &RoundedRules) -> (r: AppResult<()>)
    ensures
        match play_rules_problem(old(c)@, *n) {
            Some(e) => error::plain(r) == Err::<(), _>(e),
            None => r is Ok && final(c)@ == (AutoRendererView {
                long_note_rule: rounded_rule(old(c).long_note_rule, n.long_note),
                normal_note_rule: rounded_rule(old(c).normal_note_rule, n.normal_note),
                total_note_rule: rounded_rule(old(c).total_note_rule, n.total_note),
                max_combo_rule: rounded_rule(old(c).max_combo_rule, n.max_combo),
                accuracy_rule: rounded_rule(old(c).accuracy_rule, n.accuracy),
                pp_rule: rounded_rule(old(c).pp_rule, n.pp),
                ..old(c)@
            }),
        },
{
    if let Err(e) = settle(&mut c.long_note_rule, n.long_note, "Long note count", MOST_NOTES) {
        return Err(e);
    }
    if let Err(e) = settle(&mut c.normal_note_rule, n.normal_note, "Normal note count", MOST_NOTES) {
        return Err(e);
    }
    if let Err(e) = settle(&mut c.total_note_rule, n.total_note, "Total note count", MOST_NOTES) {
        return Err(e);
    }
    if let Err(e) = settle(&mut c.max_combo_rule, n.max_combo, "Max combo", MOST_NOTES) {
        return Err(e);
    }
    if let Err(e) = settle(&mut c.accuracy_rule, n.accuracy, "Accuracy", MOST_ACCURACY) {
        return Err(e);
    }
    settle(&mut c.pp_rule, n.pp, "PP", MOST_POINTS)
}

fn settle_beatmap_rules(c: &mut AutoRendererConfig, n: &RoundedRules) -> (r: AppResult<()>)
    ensures
        match beatmap_rules_problem(old(c)@, *n) {
            Some(e) => error::plain(r) == Err::<(), _>(e),
            None => r is Ok && final(c)@ == (AutoRendererView {
                bpm_rule: rounded_rule(old(c).bpm_rule, n.bpm),
                hp_rule: rounded_rule(old(c).hp_rule, n.hp),
                cs_rule: rounded_rule(old(c).cs_rule, n.cs),
                od_rule: rounded_rule(old(c).od_rule, n.od),
                duration_rule: rounded_rule(old(c).duration_rule, n.duration),
                ..old(c)@
            }),
        },
{
    if let Err(e) = settle(&mut c.bpm_rule, n.bpm, "BPM", MOST_BPM) {
        return Err(e);
    }
    if let Err(e) = settle(&mut c.hp_rule, n.hp, "HP", MOST_DIFFICULTY) {
        return Err(e);
    }
    if let Err(e) = settle(&mut c.cs_rule, n.cs, "CS", MOST_KEYS) {
        return Err(e);
    }
    if let Err(e) = settle(&mut c.od_rule, n.od, "OD", MOST_DIFFICULTY) {
        return Err(e);
    }
    settle(&mut c.duration_rule, n.duration, "Duration", MOST_SECONDS)
}

// ---------------------------------------------------------------------------------------------
// Numbers of keys
// ---------------------------------------------------------------------------------------------

/// Every number of keys lies between one and eighteen.
pub open spec fn keys_in_range(keys: Seq<u8>) -> bool {
    forall|i: int| 0 <= i < keys.len() ==> 1 <= #[trigger] keys[i] <= 18
}

/// The numbers from one up to a bound that stand in a list, in their order and each one once.
pub open spec fn keys_up_to(keys: Seq<u8>, bound: nat) -> Seq<u8>
    decreases bound,
{
    if bound == 0 {
        Seq::empty()
    } else {
        let below = keys_up_to(keys, (bound - 1) as nat);
        if keys.contains(bound as u8) {
            below.push(bound as u8)
        } else {
            below
        }
    }
}

/// The numbers of keys of a list, in their order and each one once.
pub open spec fn sorted_keys(keys: Seq<u8>) -> Seq<u8> {
    keys_up_to(keys, 18)
}

fn holds_key(keys: &Vec<u8>, k: u8) -> (r: bool)
    ensures
        r == keys@.contains(k),
{
    let mut i: usize = 0;
    while i < keys.len()
        invariant
            i <= keys@.len(),
            forall|j: int| 0 <= j < i ==> keys@[j] != k,
        decreases keys@.len() - i,
    {
        if keys[i] == k {
            return true;
        }
        i = i + 1;
    }
    false
}

/// Checks the numbers of keys and puts them into their order.
pub fn sanitize_key_counts(keys: &Vec<u8>) -> (r: AppResult<Vec<u8>>)
    ensures
        error::outcome(r) == if keys_in_range(keys@) {
            Ok(sorted_keys(keys@))
        } else {
            Err(ErrorView::InvalidInput("Key count filters must stay between 1K and 18K"@))
        },
{
    let mut i: usize = 0;
    while i < keys.len()
        invariant
            i <= keys@.len(),
            forall|j: int| 0 <= j < i ==> 1 <= #[trigger] keys@[j] <= 18,
        decreases keys@.len() - i,
    {
        if keys[i] < 1 || keys[i] > 18 {
            return Err(invalid("Key count filters must stay between 1K and 18K"));
        }
        i = i + 1;
    }
    let mut out: Vec<u8> = Vec::new();
    let mut k: u8 = 0;
    while k < 18
        invariant
            k <= 18,
            out@ == keys_up_to(keys@, k as nat),
        decreases 18 - k,
    {
        k = k + 1;
        if holds_key(keys, k) {
            out.push(k);
        }
    }
    Ok(out)
}

/// The numbers of keys of a list lie in their order, none stands there twice, and they are those that
/// the list holds up to the bound.
pub proof fn keys_are_sorted(keys: Seq<u8>, bound: nat)
    requires
        bound <= 255,
    ensures
        forall|i: int, j: int|
            0 <= i < j < keys_up_to(keys, bound).len() ==> #[trigger] keys_up_to(keys, bound)[i]
                < #[trigger] keys_up_to(keys, bound)[j],
        forall|i: int|
            0 <= i < keys_up_to(keys, bound).len() ==> 1 <= #[trigger] keys_up_to(keys, bound)[i]
                <= bound,
        forall|k: u8|
            #[trigger] keys_up_to(keys, bound).contains(k) <==> keys.contains(k) && 1 <= k <= bound,
    decreases bound,
{
    if bound > 0 {
        let below = keys_up_to(keys, (bound - 1) as nat);
        let all = keys_up_to(keys, bound);
        keys_are_sorted(keys, (bound - 1) as nat);
        assert forall|k: u8| #[trigger] all.contains(k) <==> keys.contains(k) && 1 <= k
            <= bound by {
            if all.contains(k) {
                let i = choose|i: int| 0 <= i < all.len() && all[i] == k;
                if i < below.len() {
                    assert(below[i] == k);
                    assert(below.contains(k));
                }
            }
            if keys.contains(k) && 1 <= k <= bound {
                if k < bound {
                    assert(below.contains(k));
                    let i = choose|i: int| 0 <= i < below.len() && below[i] == k;
                    assert(all[i] == k);
                } else {
                    assert(all[below.len() as int] == k);
                }
            }
        }
    }
}

/// The order of the numbers of keys in the settings, and how often each one stands there, do not
/// matter.
pub proof fn key_order_does_not_matter(a: Seq<u8>, b: Seq<u8>, bound: nat)
    requires
        bound <= 255,
        forall|k: u8| a.contains(k) <==> b.contains(k),
    ensures
        keys_up_to(a, bound) == keys_up_to(b, bound),
    decreases bound,
{
    if bound > 0 {
        key_order_does_not_matter(a, b, (bound - 1) as nat);
    }
}

// ---------------------------------------------------------------------------------------------
// The settings of the auto renderer
// ---------------------------------------------------------------------------------------------

/// The settings of the auto renderer as they are kept, or what is wrong with them. The folder of the
/// game was checked before.
pub open spec fn auto_renderer_outcome(
    c: AutoRendererView,
    n: RoundedRules,
    folder: Result<Seq<char>, ErrorView>,
) -> Result<AutoRendererView, ErrorView> {
    if !keys_in_range(c.key_counts) {
        Err(ErrorView::InvalidInput("Key count filters must stay between 1K and 18K"@))
    } else {
        match folder {
            Err(e) => Err(e),
            Ok(folder) => match id_outcome(c.selected_preset_id, "Preset"@) {
                Err(e) => Err(e),
                Ok(preset) => match required_id(c.selected_skin_id, "Skin"@, "default"@) {
                    Err(e) => Err(e),
                    Ok(skin) => match rules_problem(c, n) {
                        Some(e) => Err(e),
                        None => Ok(
                            AutoRendererView {
                                source: AutoRendererSource::OsuStable,
                                osu_stable_path_override: folder,
                                selected_preset_id: preset,
                                selected_skin_id: skin,
                                key_counts: sorted_keys(c.key_counts),
                                ..with_rounded_rules(c, n)
                            },
                        ),
                    },
                },
            },
        }
    }
}

fn settle_rules(c: &mut AutoRendererConfig, n: &RoundedRules) -> (r: AppResult<()>)
    ensures
        match rules_problem(old(c)@, *n) {
            Some(e) => error::plain(r) == Err::<(), _>(e),
            None => r is Ok && final(c)@ == with_rounded_rules(old(c)@, *n),
        },
{
    if let Err(e) = settle_play_rules(c, n) {
        return Err(e);
    }
    if let Err(e) = settle_beatmap_rules(c, n) {
        return Err(e);
    }
    match sanitize_judgment_rules(c.judgment_rules, n.judgments) {
        Ok(j) => {
            c.judgment_rules = j;
            Ok(())
        },
        Err(e) => Err(e),
    }
}

/// Checks the settings of the auto renderer, given the folder of the game as it was checked and the
/// numbers of the rules as they were rounded.
pub fn sanitize_auto_renderer_config(
    input: AutoRendererConfig,
    n: &RoundedRules,
    folder: AppResult<String>,
) -> (r: AppResult<AutoRendererConfig>)
    ensures
        error::outcome(r) == auto_renderer_outcome(input@, *n, error::outcome(folder)),
{
    let key_counts = match sanitize_key_counts(&input.key_counts) {
        Ok(k) => k,
        Err(e) => {
            return Err(e);
        },
    };
    let folder = match folder {
        Ok(f) => f,
        Err(e) => {
            return Err(e);
        },
    };
    let mut c = input;
    let preset = match sanitize_optional_id(text::clone_opt_text(&c.selected_preset_id), "Preset") {
        Ok(p) => p,
        Err(e) => {
            return Err(e);
        },
    };
    let skin = match sanitize_required_id(c.selected_skin_id.clone(), "Skin", "default") {
        Ok(s) => s,
        Err(e) => {
            return Err(e);
        },
    };
    if let Err(e) = settle_rules(&mut c, n) {
        return Err(e);
    }
    c.source = AutoRendererSource::OsuStable;
    c.osu_stable_path_override = folder;
    c.selected_preset_id = preset;
    c.selected_skin_id = skin;
    c.key_counts = key_counts;
    Ok(c)
}

/// A rule that is accepted and enabled lies within its limit.
pub proof fn accepted_rules_are_bounded(rule: CountRule, n: Rounded, label: Seq<char>, limit: u64)
    requires
        rule_problem(rule, n, label, limit) is None,
    ensures
        countable(rule.value),
        rule.enabled ==> !above(rounded_rule(rule, n).value, limit),
        rule.enabled ==> (rounded_rule(rule, n).max_value matches Some(m) ==> !above(m, limit)),
{
}

// ---------------------------------------------------------------------------------------------
// Saving
// ---------------------------------------------------------------------------------------------

/// The outcome of the checks of what a user entered, given what the addresses were read as.
pub open spec fn settings_outcome(
    api: Result<(), ErrorView>,
    frontend: Result<(), ErrorView>,
    auto: Result<AutoRendererView, ErrorView>,
) -> Result<AutoRendererView, ErrorView> {
    match api {
        Err(e) => Err(e),
        Ok(_) => match frontend {
            Err(e) => Err(e),
            Ok(_) => auto,
        },
    }
}

/// Checks what a user entered: the two addresses, then the settings of the auto renderer, given the
/// outcomes of the checks.
pub fn judge_settings(
    api: AppResult<()>,
    frontend: AppResult<()>,
    auto: AppResult<AutoRendererConfig>,
) -> (r: AppResult<AutoRendererConfig>)
    ensures
        error::outcome(r) == settings_outcome(
            error::plain(api),
            error::plain(frontend),
            error::outcome(auto),
        ),
{
    if let Err(e) = api {
        return Err(e);
    }
    if let Err(e) = frontend {
        return Err(e);
    }
    auto
}

/// Checks what a user entered.
pub fn check_settings(
    api_url: &str,
    frontend_url: &str,
    auto_renderer: AutoRendererConfig,
    n: &RoundedRules,
    folder: AppResult<String>,
) -> (r: AppResult<AutoRendererConfig>)
    ensures
        error::outcome(r) == settings_outcome(
            weburl::public_url_outcome(
                api_url@,
                weburl::parsed_url(api_url@),
                DEFAULT_API_URL@,
                weburl::parsed_url(DEFAULT_API_URL@),
                "API URL"@,
            ),
            weburl::public_url_outcome(
                frontend_url@,
                weburl::parsed_url(frontend_url@),
                DEFAULT_FRONTEND_URL@,
                weburl::parsed_url(DEFAULT_FRONTEND_URL@),
                "Frontend URL"@,
            ),
            auto_renderer_outcome(auto_renderer@, *n, error::outcome(folder)),
        ),
{
    judge_settings(
        validate_public_miru_url(api_url, DEFAULT_API_URL, "API URL"),
        validate_public_miru_url(frontend_url, DEFAULT_FRONTEND_URL, "Frontend URL"),
        sanitize_auto_renderer_config(auto_renderer, n, folder),
    )
}

/// What is done with the webhook.
pub enum WebhookAction {
    /// It stays as it is.
    Keep,
    Store(String),
    Remove,
}

/// What [`WebhookAction`] holds.
pub enum WebhookView {
    Keep,
    Store(Seq<char>),
    Remove,
}

impl View for WebhookAction {
    type V = WebhookView;

    open spec fn view(&self) -> WebhookView {
        match self {
            WebhookAction::Keep => WebhookView::Keep,
            WebhookAction::Store(s) => WebhookView::Store(s@),
            WebhookAction::Remove => WebhookView::Remove,
        }
    }
}

/// What is done with a webhook that was entered, given the outcome of its check. One without an
/// address is removed.
pub open spec fn webhook_action(webhook: Option<Seq<char>>, check: Result<(), ErrorView>) -> Result<
    WebhookView,
    ErrorView,
> {
    match webhook {
        None => Ok(WebhookView::Keep),
        Some(w) => if text::is_blank(w) {
            Ok(WebhookView::Remove)
        } else {
            match check {
                Ok(_) => Ok(WebhookView::Store(text::trimmed(w))),
                Err(e) => Err(e),
            }
        },
    }
}

/// What is done with a webhook that was entered, given the outcome of its check.
pub fn judge_webhook(webhook: Option<&str>, check: AppResult<()>) -> (r: AppResult<WebhookAction>)
    ensures
        error::outcome(r) == webhook_action(text::opt_str(webhook), error::plain(check)),
{
    let w = match webhook {
        Some(w) => w,
        None => {
            return Ok(WebhookAction::Keep);
        },
    };
    if blank(w) {
        return Ok(WebhookAction::Remove);
    }
    match check {
        Ok(_) => Ok(WebhookAction::Store(trim(w))),
        Err(e) => Err(e),
    }
}

/// What is done with a webhook that was entered.
pub fn save_webhook(webhook: Option<&str>) -> (r: AppResult<WebhookAction>)
    ensures
        error::outcome(r) == webhook_action(
            text::opt_str(webhook),
            match webhook {
                Some(w) => weburl::webhook_outcome(weburl::parsed_url(w@)),
                None => Ok(()),
            },
        ),
{
    let check = match webhook {
        Some(w) => validate_discord_webhook(w),
        None => Ok(()),
    };
    judge_webhook(webhook, check)
}

/// What is told to the server about the worker once the settings are saved.
#[derive(Clone, Copy, PartialEq, Eq, Structural)]
pub enum WorkerSync {
    Nothing,
    /// Send the settings.
    Send,
    /// Ask whether the worker is registered, and send the settings if it is.
    AskFirst,
}

/// What saving the settings has changed.
#[derive(Clone, Copy, PartialEq, Eq, Structural)]
pub struct SettingsChange {
    /// How the client starts.
    pub autostart: bool,
    pub sync: WorkerSync,
}

/// The settings that a user entered have changed how the client starts.
pub open spec fn autostart_changed(c: ConfigView, input: SaveSettingsInput) -> bool {
    c.autostart != input.autostart || c.start_minimized_to_tray != input.start_minimized_to_tray
}

/// The settings that a user entered have changed something of the worker.
pub open spec fn worker_changed(c: ConfigView, input: SaveSettingsInput) -> bool {
    ||| text::trimmed(c.server_name) != text::trimmed(input.server_name@)
    ||| c.show_discord_renderer_role != input.show_discord_renderer_role
    ||| c.show_gpu_in_status_image != input.show_gpu_in_status_image
    ||| c.connect_worker_on_launch != input.connect_worker_on_launch
}

/// What is told to the server. A worker that is registered by the account is always told about.
pub open spec fn sync_of(c: ConfigView, changed: bool) -> WorkerSync {
    if c.is_server && c.registered_user_id == c.user_id {
        WorkerSync::Send
    } else if changed && !text::is_blank(c.user_id) {
        WorkerSync::AskFirst
    } else {
        WorkerSync::Nothing
    }
}

/// The settings once what a user entered is saved.
pub open spec fn saved(
    c: ConfigView,
    input: SaveSettingsInput,
    auto_renderer: AutoRendererView,
    webhook_set: bool,
) -> ConfigView {
    ConfigView {
        api_url: DEFAULT_API_URL@,
        frontend_url: DEFAULT_FRONTEND_URL@,
        resolution: input.resolution,
        auto_renderer,
        discord: DiscordConfig { enabled: input.discord_enabled, webhook_set },
        server_name: text::trimmed(input.server_name@),
        renderer_override_path: text::trimmed(input.renderer_override_path@),
        autostart: input.autostart,
        start_minimized_to_tray: input.start_minimized_to_tray,
        show_discord_renderer_role: input.show_discord_renderer_role,
        show_gpu_in_status_image: input.show_gpu_in_status_image,
        connect_worker_on_launch: input.connect_worker_on_launch,
        close_to_tray_on_exit: input.close_to_tray_on_exit,
        ..c
    }
}

fn sync_for(config: &AppConfig, changed: bool) -> (r: WorkerSync)
    ensures
        r == sync_of(config@, changed),
{
    if config.is_server && same_text(config.registered_user_id.as_str(), config.user_id.as_str()) {
        WorkerSync::Send
    } else if changed && !blank(config.user_id.as_str()) {
        WorkerSync::AskFirst
    } else {
        WorkerSync::Nothing
    }
}

fn differs(config: &AppConfig, input: &SaveSettingsInput) -> (r: (bool, bool))
    ensures
        r.0 == autostart_changed(config@, *input),
        r.1 == worker_changed(config@, *input),
{
    let starts = config.autostart != input.autostart || config.start_minimized_to_tray
        != input.start_minimized_to_tray;
    let worker = !same_text(
        trim(config.server_name.as_str()).as_str(),
        trim(input.server_name.as_str()).as_str(),
    ) || config.show_discord_renderer_role != input.show_discord_renderer_role
        || config.show_gpu_in_status_image != input.show_gpu_in_status_image
        || config.connect_worker_on_launch != input.connect_worker_on_launch;
    (starts, worker)
}

/// The settings after a save and what has changed, or why nothing was saved.
pub open spec fn save_outcome(
    c: ConfigView,
    input: SaveSettingsInput,
    auto_renderer: AutoRendererView,
    webhook_set: bool,
) -> Result<(ConfigView, SettingsChange), ErrorView> {
    if text::trimmed(input.server_name@).len() > 18 {
        Err(ErrorView::InvalidInput("server name must be 18 characters or fewer"@))
    } else {
        Ok(
            (
                saved(c, input, auto_renderer, webhook_set),
                SettingsChange {
                    autostart: autostart_changed(c, input),
                    sync: sync_of(c, worker_changed(c, input)),
                },
            ),
        )
    }
}

/// Saves what a user entered, once it was checked. A name of the worker that is too long changes
/// nothing.
pub fn save_settings(
    config: &mut AppConfig,
    input: &SaveSettingsInput,
    auto_renderer: AutoRendererConfig,
    webhook_set: bool,
) -> (r: AppResult<SettingsChange>)
    ensures
        match save_outcome(old(config)@, *input, auto_renderer@, webhook_set) {
            Ok((c, change)) => final(config)@ == c && error::plain(r) == Ok::<SettingsChange, ErrorView>(
                change,
            ),
            Err(e) => final(config)@ == old(config)@ && error::plain(r) == Err::<
                SettingsChange,
                ErrorView,
            >(e),
        },
        if text::trimmed(input.server_name@).len() > 18 {
            &&& error::plain(r) == Err::<SettingsChange, _>(
                ErrorView::InvalidInput("server name must be 18 characters or fewer"@),
            )
            &&& final(config)@ == old(config)@
        } else {
            &&& final(config)@ == saved(old(config)@, *input, auto_renderer@, webhook_set)
            &&& error::plain(r) == Ok::<_, ErrorView>(
                SettingsChange {
                    autostart: autostart_changed(old(config)@, *input),
                    sync: sync_of(old(config)@, worker_changed(old(config)@, *input)),
                },
            )
        },
{
    let (starts, worker) = differs(config, input);
    let sync = sync_for(config, worker);
    let name = match sanitize_server_name(input.server_name.as_str()) {
        Ok(n) => n,
        Err(e) => {
            return Err(e);
        },
    };
    let path = trim(input.renderer_override_path.as_str());
    config.api_url = DEFAULT_API_URL.to_owned();
    config.frontend_url = DEFAULT_FRONTEND_URL.to_owned();
    config.resolution = input.resolution;
    config.auto_renderer = auto_renderer;
    config.discord = DiscordConfig { enabled: input.discord_enabled, webhook_set };
    config.server_name = name;
    config.renderer_override_path = path;
    config.autostart = input.autostart;
    config.start_minimized_to_tray = input.start_minimized_to_tray;
    config.show_discord_renderer_role = input.show_discord_renderer_role;
    config.show_gpu_in_status_image = input.show_gpu_in_status_image;
    config.connect_worker_on_launch = input.connect_worker_on_launch;
    config.close_to_tray_on_exit = input.close_to_tray_on_exit;
    assert(config@ == saved(old(config)@, *input, auto_renderer@, webhook_set));
    Ok(SettingsChange { autostart: starts, sync })
}

/// Saving the same settings once more changes nothing, neither how the client starts nor the worker.
pub proof fn saving_twice_changes_nothing(
    c: ConfigView,
    input: SaveSettingsInput,
    auto_renderer: AutoRendererView,
    webhook_set: bool,
)
    ensures
        saved(saved(c, input, auto_renderer, webhook_set), input, auto_renderer, webhook_set)
            == saved(c, input, auto_renderer, webhook_set),
        !autostart_changed(saved(c, input, auto_renderer, webhook_set), input),
        !worker_changed(saved(c, input, auto_renderer, webhook_set), input),
{
    text::trimmed_idempotent(input.server_name@);
}

/// Saving the settings keeps the account, the machine and the registration of the worker.
pub proof fn saving_keeps_the_account(
    c: ConfigView,
    input: SaveSettingsInput,
    auto_renderer: AutoRendererView,
    webhook_set: bool,
)
    ensures
        ({
            let s = saved(c, input, auto_renderer, webhook_set);
            &&& s.machine_id == c.machine_id
            &&& s.user_id == c.user_id
            &&& s.username == c.username
            &&& s.user_role == c.user_role
            &&& s.user_plan == c.user_plan
            &&& s.is_server == c.is_server
            &&& s.registered_user_id == c.registered_user_id
            &&& s.server_client_id == c.server_client_id
            &&& s.server_status == c.server_status
        }),
{
}

/// How the client starts is changed only where the setting is another one.
pub fn set_autostart(config: &mut AppConfig, enabled: bool) -> (changed: bool)
    ensures
        changed == (old(config).autostart != enabled),
        final(config)@ == (ConfigView { autostart: enabled, ..old(config)@ }),
{
    let changed = config.autostart != enabled;
    config.autostart = enabled;
    changed
}

/// After a save each setting that was entered is the one that is kept, whatever was kept before; texts are
/// kept without the white space around them, and the addresses are those of the service.
pub proof fn entered_settings_are_kept(
    c: ConfigView,
    input: SaveSettingsInput,
    auto_renderer: AutoRendererView,
    webhook_set: bool,
)
    ensures
        ({
            let s = saved(c, input, auto_renderer, webhook_set);
            &&& s.resolution == input.resolution
            &&& s.auto_renderer == auto_renderer
            &&& s.discord.enabled == input.discord_enabled
            &&& s.discord.webhook_set == webhook_set
            &&& s.server_name == text::trimmed(input.server_name@)
            &&& s.renderer_override_path == text::trimmed(input.renderer_override_path@)
            &&& s.autostart == input.autostart
            &&& s.start_minimized_to_tray == input.start_minimized_to_tray
            &&& s.show_discord_renderer_role == input.show_discord_renderer_role
            &&& s.show_gpu_in_status_image == input.show_gpu_in_status_image
            &&& s.connect_worker_on_launch == input.connect_worker_on_launch
            &&& s.close_to_tray_on_exit == input.close_to_tray_on_exit
            &&& s.api_url == "https://app.miru.uno/api/v1"@
            &&& s.frontend_url == "https://app.miru.uno"@
        }),
{
}

/// Saving changes nothing but what can be entered.
pub proof fn other_settings_stay(
    c: ConfigView,
    input: SaveSettingsInput,
    auto_renderer: AutoRendererView,
    webhook_set: bool,
)
    ensures
        ({
            let s = saved(c, input, auto_renderer, webhook_set);
            &&& s.machine_id == c.machine_id && s.user_id == c.user_id && s.username == c.username
            &&& s.user_avatar_url == c.user_avatar_url
            &&& s.user_role == c.user_role && s.user_plan == c.user_plan
            &&& s.discord_linked == c.discord_linked
            &&& s.is_server == c.is_server && s.registered_user_id == c.registered_user_id
            &&& s.server_client_id == c.server_client_id && s.server_status == c.server_status
            &&& s.server_gpu == c.server_gpu && s.server_auto_reconnect == c.server_auto_reconnect
            &&& s.imported_legacy_config == c.imported_legacy_config
        }),
{
}

/// Two saves: what the first one has kept of what can be entered does not matter after the second.
pub proof fn the_last_save_counts(
    c: ConfigView,
    d: ConfigView,
    input: SaveSettingsInput,
    auto_renderer: AutoRendererView,
    webhook_set: bool,
)
    ensures
        ({
            let a = saved(c, input, auto_renderer, webhook_set);
            let b = saved(d, input, auto_renderer, webhook_set);
            &&& a.resolution == b.resolution && a.auto_renderer == b.auto_renderer
            &&& a.discord == b.discord && a.server_name == b.server_name
            &&& a.renderer_override_path == b.renderer_override_path && a.autostart == b.autostart
            &&& a.start_minimized_to_tray == b.start_minimized_to_tray
            &&& a.show_discord_renderer_role == b.show_discord_renderer_role
            &&& a.show_gpu_in_status_image == b.show_gpu_in_status_image
            &&& a.connect_worker_on_launch == b.connect_worker_on_launch
            &&& a.close_to_tray_on_exit == b.close_to_tray_on_exit
        }),
{
}

/// How the client starts has changed exactly where one of the two settings about it is another one.
pub proof fn starts_are_told_to_change(c: ConfigView, input: SaveSettingsInput)
    ensures
        autostart_changed(c, input) <==> !(c.autostart == input.autostart && c.start_minimized_to_tray
            == input.start_minimized_to_tray),
{
}

/// A worker that this account has registered is always told about; another one is asked about only by
/// somebody who is logged in, and only where something of the worker has changed.
pub proof fn servers_are_told_of_changes(c: ConfigView, input: SaveSettingsInput)
    ensures
        ({
            let sync = sync_of(c, worker_changed(c, input));
            let own = c.is_server && c.registered_user_id == c.user_id;
            let same = text::trimmed(c.server_name) == text::trimmed(input.server_name@)
                && c.show_discord_renderer_role == input.show_discord_renderer_role
                && c.show_gpu_in_status_image == input.show_gpu_in_status_image
                && c.connect_worker_on_launch == input.connect_worker_on_launch;
            &&& own <==> sync == WorkerSync::Send
            &&& !own && !same && !text::is_blank(c.user_id) <==> sync == WorkerSync::AskFirst
            &&& !own && (same || text::is_blank(c.user_id)) <==> sync == WorkerSync::Nothing
        }),
{
}

/// An identifier is accepted where its text takes no more than a hundred and twenty-eight bytes, and is
/// kept without the white space around it; a blank one is none.
pub proof fn short_identifiers_are_kept(value: Seq<char>, label: Seq<char>)
    ensures
        id_outcome(None, label) == Ok::<Option<Seq<char>>, ErrorView>(None),
        text::trimmed(value).len() == 0 ==> id_outcome(Some(value), label) == Ok::<
            Option<Seq<char>>,
            ErrorView,
        >(None),
        0 < text::trimmed(value).len() && text::byte_len(text::trimmed(value)) <= 128 ==> id_outcome(
            Some(value),
            label,
        ) == Ok::<Option<Seq<char>>, ErrorView>(Some(text::trimmed(value))),
        text::trimmed(value).len() > 0 && text::byte_len(text::trimmed(value)) > 128 ==> id_outcome(
            Some(value),
            label,
        ) is Err,
{
}

/// A rule is kept as it was entered, but for its numbers, which are rounded: it is switched on or off, and
/// compares, as before.
pub open spec fn kept_as_entered(kept: CountRule, entered: CountRule, n: Rounded) -> bool {
    &&& kept.enabled == entered.enabled
    &&& kept.op == entered.op
    &&& kept.value == n.value
    &&& entered.max_value is Some ==> kept.max_value == Some(n.max_value)
    &&& entered.max_value is None ==> kept.max_value is None
}

/// A rule can be kept: its numbers are finite and not below zero, and at most the limit where it is enabled.
pub open spec fn can_be_kept(rule: CountRule, n: Rounded, limit: Double) -> bool {
    &&& rule.value.is_finite() && (Double { bits: 0 }).at_most(rule.value)
    &&& rule.max_value matches Some(m) ==> m.is_finite() && (Double { bits: 0 }).at_most(m)
    &&& rule.enabled ==> n.value.is_nan() || n.value.at_most(limit)
    &&& rule.enabled && rule.max_value is Some ==> n.max_value.is_nan() || n.max_value.at_most(limit)
}

proof fn rules_without_problem_can_be_kept(rule: CountRule, n: Rounded, label: Seq<char>, limit: u64)
    requires
        !(Double { bits: limit }).is_nan(),
    ensures
        rule_problem(rule, n, label, limit) is None <==> can_be_kept(rule, n, Double { bits: limit }),
        kept_as_entered(rounded_rule(rule, n), rule, n),
{
}

/// Settings of the auto renderer that are accepted keep every rule under its own name, with its numbers
/// rounded, the same keys in order, the folder that was checked, and the preset and the skin without space
/// around them; without a skin it is the default one.
pub proof fn accepted_settings_are_kept(
    c: AutoRendererView,
    n: RoundedRules,
    folder: Result<Seq<char>, ErrorView>,
)
    requires
        auto_renderer_outcome(c, n, folder) is Ok,
    ensures
        ({
            let r = auto_renderer_outcome(c, n, folder)->Ok_0;
            &&& folder == Ok::<Seq<char>, ErrorView>(r.osu_stable_path_override)
            &&& kept_as_entered(r.long_note_rule, c.long_note_rule, n.long_note)
            &&& kept_as_entered(r.normal_note_rule, c.normal_note_rule, n.normal_note)
            &&& kept_as_entered(r.total_note_rule, c.total_note_rule, n.total_note)
            &&& kept_as_entered(r.max_combo_rule, c.max_combo_rule, n.max_combo)
            &&& kept_as_entered(r.accuracy_rule, c.accuracy_rule, n.accuracy)
            &&& kept_as_entered(r.pp_rule, c.pp_rule, n.pp)
            &&& kept_as_entered(r.bpm_rule, c.bpm_rule, n.bpm)
            &&& kept_as_entered(r.hp_rule, c.hp_rule, n.hp)
            &&& kept_as_entered(r.cs_rule, c.cs_rule, n.cs)
            &&& kept_as_entered(r.od_rule, c.od_rule, n.od)
            &&& kept_as_entered(r.duration_rule, c.duration_rule, n.duration)
            &&& kept_as_entered(r.judgment_rules.max, c.judgment_rules.max, n.judgments.max)
            &&& kept_as_entered(r.judgment_rules.n300, c.judgment_rules.n300, n.judgments.n300)
            &&& kept_as_entered(r.judgment_rules.n200, c.judgment_rules.n200, n.judgments.n200)
            &&& kept_as_entered(r.judgment_rules.n100, c.judgment_rules.n100, n.judgments.n100)
            &&& kept_as_entered(r.judgment_rules.n50, c.judgment_rules.n50, n.judgments.n50)
            &&& kept_as_entered(r.judgment_rules.miss, c.judgment_rules.miss, n.judgments.miss)
            &&& forall|k: u8| #[trigger] r.key_counts.contains(k) <==> c.key_counts.contains(k)
            &&& forall|i: int, j: int|
                0 <= i < j < r.key_counts.len() ==> #[trigger] r.key_counts[i] < #[trigger] r.key_counts[j]
            &&& (c.selected_preset_id matches Some(id) && !text::is_blank(id)) ==> r.selected_preset_id
                == Some(text::trimmed(c.selected_preset_id->0))
            &&& c.selected_preset_id is None || text::is_blank(c.selected_preset_id->0)
                ==> r.selected_preset_id is None
            &&& !text::is_blank(c.selected_skin_id) ==> r.selected_skin_id == text::trimmed(
                c.selected_skin_id,
            )
            &&& text::is_blank(c.selected_skin_id) ==> r.selected_skin_id == "default"@
        }),
{
    keys_are_sorted(c.key_counts, 18);
    assert forall|k: u8| #[trigger] sorted_keys(c.key_counts).contains(k) <==> c.key_counts.contains(k) by {
        if c.key_counts.contains(k) {
            let i = choose|i: int| 0 <= i < c.key_counts.len() && c.key_counts[i] == k;
            assert(1 <= c.key_counts[i] <= 18);
        }
    }
}

/// Settings of the auto renderer are accepted exactly where the keys lie between one and eighteen, the folder
/// is fine, the preset and the skin are short enough, and every rule can be kept: five million notes and
/// combo, an accuracy of a hundred, a hundred thousand points, ten thousand beats a minute, a health and a
/// difficulty of twenty, eighteen keys and a day are the most that a rule may ask for.
pub proof fn only_sound_settings_are_accepted(
    c: AutoRendererView,
    n: RoundedRules,
    folder: Result<Seq<char>, ErrorView>,
)
    ensures
        auto_renderer_outcome(c, n, folder) is Ok <==> {
            &&& forall|k: u8| #[trigger] c.key_counts.contains(k) ==> 1 <= k <= 18
            &&& folder is Ok
            &&& c.selected_preset_id matches Some(id) ==> text::byte_len(text::trimmed(id)) <= 128
                || text::is_blank(id)
            &&& text::byte_len(text::trimmed(c.selected_skin_id)) <= 128 || text::is_blank(
                c.selected_skin_id,
            )
            &&& can_be_kept(c.long_note_rule, n.long_note, Double { bits: 0x4153_12d0_0000_0000 })
            &&& can_be_kept(c.normal_note_rule, n.normal_note, Double { bits: 0x4153_12d0_0000_0000 })
            &&& can_be_kept(c.total_note_rule, n.total_note, Double { bits: 0x4153_12d0_0000_0000 })
            &&& can_be_kept(c.max_combo_rule, n.max_combo, Double { bits: 0x4153_12d0_0000_0000 })
            &&& can_be_kept(c.accuracy_rule, n.accuracy, Double { bits: 0x4059_0000_0000_0000 })
            &&& can_be_kept(c.pp_rule, n.pp, Double { bits: 0x40f8_6a00_0000_0000 })
            &&& can_be_kept(c.bpm_rule, n.bpm, Double { bits: 0x40c3_8800_0000_0000 })
            &&& can_be_kept(c.hp_rule, n.hp, Double { bits: 0x4034_0000_0000_0000 })
            &&& can_be_kept(c.cs_rule, n.cs, Double { bits: 0x4032_0000_0000_0000 })
            &&& can_be_kept(c.od_rule, n.od, Double { bits: 0x4034_0000_0000_0000 })
            &&& can_be_kept(c.duration_rule, n.duration, Double { bits: 0x40f5_1800_0000_0000 })
            &&& can_be_kept(c.judgment_rules.max, n.judgments.max, Double { bits: 0x4153_12d0_0000_0000 })
            &&& can_be_kept(c.judgment_rules.n300, n.judgments.n300, Double { bits: 0x4153_12d0_0000_0000 })
            &&& can_be_kept(c.judgment_rules.n200, n.judgments.n200, Double { bits: 0x4153_12d0_0000_0000 })
            &&& can_be_kept(c.judgment_rules.n100, n.judgments.n100, Double { bits: 0x4153_12d0_0000_0000 })
            &&& can_be_kept(c.judgment_rules.n50, n.judgments.n50, Double { bits: 0x4153_12d0_0000_0000 })
            &&& can_be_kept(c.judgment_rules.miss, n.judgments.miss, Double { bits: 0x4153_12d0_0000_0000 })
        },
{
    rules_without_problem_can_be_kept(c.long_note_rule, n.long_note, "Long note count"@, 0x4153_12d0_0000_0000);
    rules_without_problem_can_be_kept(c.normal_note_rule, n.normal_note, "Normal note count"@, 0x4153_12d0_0000_0000);
    rules_without_problem_can_be_kept(c.total_note_rule, n.total_note, "Total note count"@, 0x4153_12d0_0000_0000);
    rules_without_problem_can_be_kept(c.max_combo_rule, n.max_combo, "Max combo"@, 0x4153_12d0_0000_0000);
    rules_without_problem_can_be_kept(c.accuracy_rule, n.accuracy, "Accuracy"@, 0x4059_0000_0000_0000);
    rules_without_problem_can_be_kept(c.pp_rule, n.pp, "PP"@, 0x40f8_6a00_0000_0000);
    rules_without_problem_can_be_kept(c.bpm_rule, n.bpm, "BPM"@, 0x40c3_8800_0000_0000);
    rules_without_problem_can_be_kept(c.hp_rule, n.hp, "HP"@, 0x4034_0000_0000_0000);
    rules_without_problem_can_be_kept(c.cs_rule, n.cs, "CS"@, 0x4032_0000_0000_0000);
    rules_without_problem_can_be_kept(c.od_rule, n.od, "OD"@, 0x4034_0000_0000_0000);
    rules_without_problem_can_be_kept(c.duration_rule, n.duration, "Duration"@, 0x40f5_1800_0000_0000);
    rules_without_problem_can_be_kept(c.judgment_rules.max, n.judgments.max, "MAX count"@, 0x4153_12d0_0000_0000);
    rules_without_problem_can_be_kept(c.judgment_rules.n300, n.judgments.n300, "300 count"@, 0x4153_12d0_0000_0000);
    rules_without_problem_can_be_kept(c.judgment_rules.n200, n.judgments.n200, "200 count"@, 0x4153_12d0_0000_0000);
    rules_without_problem_can_be_kept(c.judgment_rules.n100, n.judgments.n100, "100 count"@, 0x4153_12d0_0000_0000);
    rules_without_problem_can_be_kept(c.judgment_rules.n50, n.judgments.n50, "50 count"@, 0x4153_12d0_0000_0000);
    rules_without_problem_can_be_kept(c.judgment_rules.miss, n.judgments.miss, "Miss count"@, 0x4153_12d0_0000_0000);
    assert(keys_in_range(c.key_counts) <==> forall|k: u8| #[trigger]
        c.key_counts.contains(k) ==> 1 <= k <= 18) by {
        if forall|k: u8| #[trigger] c.key_counts.contains(k) ==> 1 <= k <= 18 {
            assert forall|i: int| 0 <= i < c.key_counts.len() implies 1 <= #[trigger] c.key_counts[i]
                <= 18 by {
                assert(c.key_counts.contains(c.key_counts[i]));
            }
        }
    }
}

/// A webhook that is not entered stays, a blank one is taken away, and another one is stored where its check
/// was fine.
pub proof fn webhooks_are_stored_or_removed(w: Seq<char>, check: Result<(), ErrorView>)
    ensures
        webhook_action(None, check) == Ok::<WebhookView, ErrorView>(WebhookView::Keep),
        text::is_blank(w) ==> webhook_action(Some(w), check) == Ok::<WebhookView, ErrorView>(
            WebhookView::Remove,
        ),
        !text::is_blank(w) && check is Ok ==> webhook_action(Some(w), check) == Ok::<
            WebhookView,
            ErrorView,
        >(WebhookView::Store(text::trimmed(w))),
        !text::is_blank(w) && check is Err ==> webhook_action(Some(w), check) == Err::<
            WebhookView,
            ErrorView,
        >(check->Err_0),
{
}

/// Settings are kept only where both addresses and the settings of the auto renderer are fine.
pub proof fn every_check_counts(
    api: Result<(), ErrorView>,
    frontend: Result<(), ErrorView>,
    auto: Result<AutoRendererView, ErrorView>,
)
    ensures
        settings_outcome(api, frontend, auto) is Ok <==> api is Ok && frontend is Ok && auto is Ok,
        settings_outcome(api, frontend, auto) is Ok ==> settings_outcome(api, frontend, auto) == auto,
{
}

/// Settings are saved exactly where the name of the machine has no more than eighteen characters, and then what
/// was entered is what is kept.
pub proof fn saves_succeed_with_short_names(
    c: ConfigView,
    input: SaveSettingsInput,
    auto_renderer: AutoRendererView,
    webhook_set: bool,
)
    ensures
        text::trimmed(input.server_name@).len() <= 18 <==> save_outcome(c, input, auto_renderer, webhook_set)
            is Ok,
        save_outcome(c, input, auto_renderer, webhook_set) matches Ok((d, change)) ==> {
            &&& d.resolution == input.resolution && d.auto_renderer == auto_renderer
            &&& d.server_name == text::trimmed(input.server_name@)
            &&& d.autostart == input.autostart && d.discord.enabled == input.discord_enabled
            &&& !change.autostart ==> c.autostart == input.autostart && c.start_minimized_to_tray
                == input.start_minimized_to_tray
            &&& change.autostart ==> c.autostart != input.autostart || c.start_minimized_to_tray
                != input.start_minimized_to_tray
        },
{
}

/// Every rule can be kept, but for the one of that number perhaps.
pub open spec fn others_can_be_kept(c: AutoRendererView, n: RoundedRules, but: int) -> bool {
    &&& but != 0 ==> can_be_kept(c.long_note_rule, n.long_note, Double { bits: 0x4153_12d0_0000_0000 })
    &&& but != 1 ==> can_be_kept(c.normal_note_rule, n.normal_note, Double { bits: 0x4153_12d0_0000_0000 })
    &&& but != 2 ==> can_be_kept(c.total_note_rule, n.total_note, Double { bits: 0x4153_12d0_0000_0000 })
    &&& but != 3 ==> can_be_kept(c.max_combo_rule, n.max_combo, Double { bits: 0x4153_12d0_0000_0000 })
    &&& but != 4 ==> can_be_kept(c.accuracy_rule, n.accuracy, Double { bits: 0x4059_0000_0000_0000 })
    &&& but != 5 ==> can_be_kept(c.pp_rule, n.pp, Double { bits: 0x40f8_6a00_0000_0000 })
    &&& but != 6 ==> can_be_kept(c.bpm_rule, n.bpm, Double { bits: 0x40c3_8800_0000_0000 })
    &&& but != 7 ==> can_be_kept(c.hp_rule, n.hp, Double { bits: 0x4034_0000_0000_0000 })
    &&& but != 8 ==> can_be_kept(c.cs_rule, n.cs, Double { bits: 0x4032_0000_0000_0000 })
    &&& but != 9 ==> can_be_kept(c.od_rule, n.od, Double { bits: 0x4034_0000_0000_0000 })
    &&& but != 10 ==> can_be_kept(c.duration_rule, n.duration, Double { bits: 0x40f5_1800_0000_0000 })
    &&& but != 11 ==> can_be_kept(c.judgment_rules.max, n.judgments.max, Double { bits: 0x4153_12d0_0000_0000 })
    &&& but != 12 ==> can_be_kept(c.judgment_rules.n300, n.judgments.n300, Double { bits: 0x4153_12d0_0000_0000 })
    &&& but != 13 ==> can_be_kept(c.judgment_rules.n200, n.judgments.n200, Double { bits: 0x4153_12d0_0000_0000 })
    &&& but != 14 ==> can_be_kept(c.judgment_rules.n100, n.judgments.n100, Double { bits: 0x4153_12d0_0000_0000 })
    &&& but != 15 ==> can_be_kept(c.judgment_rules.n50, n.judgments.n50, Double { bits: 0x4153_12d0_0000_0000 })
    &&& but != 16 ==> can_be_kept(c.judgment_rules.miss, n.judgments.miss, Double { bits: 0x4153_12d0_0000_0000 })
}

proof fn problems_begin_with_their_label(rule: CountRule, n: Rounded, label: Seq<char>, limit: u64)
    ensures
        rule_problem(rule, n, label, limit) matches Some(e) ==> (e matches ErrorView::InvalidInput(m)
            && crate::scan::begins(m, label)),
{
    let a = label + " must be a non-negative finite number"@;
    let b = label + " max must be a non-negative finite number"@;
    let c = label + " is above the supported safety limit"@;
    let k = label.len() as int;
    assert(a.subrange(0, k) =~= label);
    assert(b.subrange(0, k) =~= label);
    assert(c.subrange(0, k) =~= label);
}

/// A rule that cannot be kept is named at the beginning of the error, whichever of the rules it is.
pub proof fn errors_name_the_rule(c: AutoRendererView, n: RoundedRules)
    ensures
        others_can_be_kept(c, n, 0) && !can_be_kept(c.long_note_rule, n.long_note, Double { bits: 0x4153_12d0_0000_0000 }) ==> (rules_problem(
            c,
            n,
        ) matches Some(ErrorView::InvalidInput(m)) && crate::scan::begins(m, "Long note count"@)),
        others_can_be_kept(c, n, 1) && !can_be_kept(c.normal_note_rule, n.normal_note, Double { bits: 0x4153_12d0_0000_0000 }) ==> (rules_problem(
            c,
            n,
        ) matches Some(ErrorView::InvalidInput(m)) && crate::scan::begins(m, "Normal note count"@)),
        others_can_be_kept(c, n, 2) && !can_be_kept(c.total_note_rule, n.total_note, Double { bits: 0x4153_12d0_0000_0000 }) ==> (rules_problem(
            c,
            n,
        ) matches Some(ErrorView::InvalidInput(m)) && crate::scan::begins(m, "Total note count"@)),
        others_can_be_kept(c, n, 3) && !can_be_kept(c.max_combo_rule, n.max_combo, Double { bits: 0x4153_12d0_0000_0000 }) ==> (rules_problem(
            c,
            n,
        ) matches Some(ErrorView::InvalidInput(m)) && crate::scan::begins(m, "Max combo"@)),
        others_can_be_kept(c, n, 4) && !can_be_kept(c.accuracy_rule, n.accuracy, Double { bits: 0x4059_0000_0000_0000 }) ==> (rules_problem(
            c,
            n,
        ) matches Some(ErrorView::InvalidInput(m)) && crate::scan::begins(m, "Accuracy"@)),
        others_can_be_kept(c, n, 5) && !can_be_kept(c.pp_rule, n.pp, Double { bits: 0x40f8_6a00_0000_0000 }) ==> (rules_problem(
            c,
            n,
        ) matches Some(ErrorView::InvalidInput(m)) && crate::scan::begins(m, "PP"@)),
        others_can_be_kept(c, n, 6) && !can_be_kept(c.bpm_rule, n.bpm, Double { bits: 0x40c3_8800_0000_0000 }) ==> (rules_problem(
            c,
            n,
        ) matches Some(ErrorView::InvalidInput(m)) && crate::scan::begins(m, "BPM"@)),
        others_can_be_kept(c, n, 7) && !can_be_kept(c.hp_rule, n.hp, Double { bits: 0x4034_0000_0000_0000 }) ==> (rules_problem(
            c,
            n,
        ) matches Some(ErrorView::InvalidInput(m)) && crate::scan::begins(m, "HP"@)),
        others_can_be_kept(c, n, 8) && !can_be_kept(c.cs_rule, n.cs, Double { bits: 0x4032_0000_0000_0000 }) ==> (rules_problem(
            c,
            n,
        ) matches Some(ErrorView::InvalidInput(m)) && crate::scan::begins(m, "CS"@)),
        others_can_be_kept(c, n, 9) && !can_be_kept(c.od_rule, n.od, Double { bits: 0x4034_0000_0000_0000 }) ==> (rules_problem(
            c,
            n,
        ) matches Some(ErrorView::InvalidInput(m)) && crate::scan::begins(m, "OD"@)),
        others_can_be_kept(c, n, 10) && !can_be_kept(c.duration_rule, n.duration, Double { bits: 0x40f5_1800_0000_0000 }) ==> (rules_problem(
            c,
            n,
        ) matches Some(ErrorView::InvalidInput(m)) && crate::scan::begins(m, "Duration"@)),
        others_can_be_kept(c, n, 11) && !can_be_kept(c.judgment_rules.max, n.judgments.max, Double { bits: 0x4153_12d0_0000_0000 }) ==> (rules_problem(
            c,
            n,
        ) matches Some(ErrorView::InvalidInput(m)) && crate::scan::begins(m, "MAX count"@)),
        others_can_be_kept(c, n, 12) && !can_be_kept(c.judgment_rules.n300, n.judgments.n300, Double { bits: 0x4153_12d0_0000_0000 }) ==> (rules_problem(
            c,
            n,
        ) matches Some(ErrorView::InvalidInput(m)) && crate::scan::begins(m, "300 count"@)),
        others_can_be_kept(c, n, 13) && !can_be_kept(c.judgment_rules.n200, n.judgments.n200, Double { bits: 0x4153_12d0_0000_0000 }) ==> (rules_problem(
            c,
            n,
        ) matches Some(ErrorView::InvalidInput(m)) && crate::scan::begins(m, "200 count"@)),
        others_can_be_kept(c, n, 14) && !can_be_kept(c.judgment_rules.n100, n.judgments.n100, Double { bits: 0x4153_12d0_0000_0000 }) ==> (rules_problem(
            c,
            n,
        ) matches Some(ErrorView::InvalidInput(m)) && crate::scan::begins(m, "100 count"@)),
        others_can_be_kept(c, n, 15) && !can_be_kept(c.judgment_rules.n50, n.judgments.n50, Double { bits: 0x4153_12d0_0000_0000 }) ==> (rules_problem(
            c,
            n,
        ) matches Some(ErrorView::InvalidInput(m)) && crate::scan::begins(m, "50 count"@)),
        others_can_be_kept(c, n, 16) && !can_be_kept(c.judgment_rules.miss, n.judgments.miss, Double { bits: 0x4153_12d0_0000_0000 }) ==> (rules_problem(
            c,
            n,
        ) matches Some(ErrorView::InvalidInput(m)) && crate::scan::begins(m, "Miss count"@)),
{
    rules_without_problem_can_be_kept(c.long_note_rule, n.long_note, "Long note count"@, 0x4153_12d0_0000_0000);
    problems_begin_with_their_label(c.long_note_rule, n.long_note, "Long note count"@, 0x4153_12d0_0000_0000);
    rules_without_problem_can_be_kept(c.normal_note_rule, n.normal_note, "Normal note count"@, 0x4153_12d0_0000_0000);
    problems_begin_with_their_label(c.normal_note_rule, n.normal_note, "Normal note count"@, 0x4153_12d0_0000_0000);
    rules_without_problem_can_be_kept(c.total_note_rule, n.total_note, "Total note count"@, 0x4153_12d0_0000_0000);
    problems_begin_with_their_label(c.total_note_rule, n.total_note, "Total note count"@, 0x4153_12d0_0000_0000);
    rules_without_problem_can_be_kept(c.max_combo_rule, n.max_combo, "Max combo"@, 0x4153_12d0_0000_0000);
    problems_begin_with_their_label(c.max_combo_rule, n.max_combo, "Max combo"@, 0x4153_12d0_0000_0000);
    rules_without_problem_can_be_kept(c.accuracy_rule, n.accuracy, "Accuracy"@, 0x4059_0000_0000_0000);
    problems_begin_with_their_label(c.accuracy_rule, n.accuracy, "Accuracy"@, 0x4059_0000_0000_0000);
    rules_without_problem_can_be_kept(c.pp_rule, n.pp, "PP"@, 0x40f8_6a00_0000_0000);
    problems_begin_with_their_label(c.pp_rule, n.pp, "PP"@, 0x40f8_6a00_0000_0000);
    rules_without_problem_can_be_kept(c.bpm_rule, n.bpm, "BPM"@, 0x40c3_8800_0000_0000);
    problems_begin_with_their_label(c.bpm_rule, n.bpm, "BPM"@, 0x40c3_8800_0000_0000);
    rules_without_problem_can_be_kept(c.hp_rule, n.hp, "HP"@, 0x4034_0000_0000_0000);
    problems_begin_with_their_label(c.hp_rule, n.hp, "HP"@, 0x4034_0000_0000_0000);
    rules_without_problem_can_be_kept(c.cs_rule, n.cs, "CS"@, 0x4032_0000_0000_0000);
    problems_begin_with_their_label(c.cs_rule, n.cs, "CS"@, 0x4032_0000_0000_0000);
    rules_without_problem_can_be_kept(c.od_rule, n.od, "OD"@, 0x4034_0000_0000_0000);
    problems_begin_with_their_label(c.od_rule, n.od, "OD"@, 0x4034_0000_0000_0000);
    rules_without_problem_can_be_kept(c.duration_rule, n.duration, "Duration"@, 0x40f5_1800_0000_0000);
    problems_begin_with_their_label(c.duration_rule, n.duration, "Duration"@, 0x40f5_1800_0000_0000);
    rules_without_problem_can_be_kept(c.judgment_rules.max, n.judgments.max, "MAX count"@, 0x4153_12d0_0000_0000);
    problems_begin_with_their_label(c.judgment_rules.max, n.judgments.max, "MAX count"@, 0x4153_12d0_0000_0000);
    rules_without_problem_can_be_kept(c.judgment_rules.n300, n.judgments.n300, "300 count"@, 0x4153_12d0_0000_0000);
    problems_begin_with_their_label(c.judgment_rules.n300, n.judgments.n300, "300 count"@, 0x4153_12d0_0000_0000);
    rules_without_problem_can_be_kept(c.judgment_rules.n200, n.judgments.n200, "200 count"@, 0x4153_12d0_0000_0000);
    problems_begin_with_their_label(c.judgment_rules.n200, n.judgments.n200, "200 count"@, 0x4153_12d0_0000_0000);
    rules_without_problem_can_be_kept(c.judgment_rules.n100, n.judgments.n100, "100 count"@, 0x4153_12d0_0000_0000);
    problems_begin_with_their_label(c.judgment_rules.n100, n.judgments.n100, "100 count"@, 0x4153_12d0_0000_0000);
    rules_without_problem_can_be_kept(c.judgment_rules.n50, n.judgments.n50, "50 count"@, 0x4153_12d0_0000_0000);
    problems_begin_with_their_label(c.judgment_rules.n50, n.judgments.n50, "50 count"@, 0x4153_12d0_0000_0000);
    rules_without_problem_can_be_kept(c.judgment_rules.miss, n.judgments.miss, "Miss count"@, 0x4153_12d0_0000_0000);
    problems_begin_with_their_label(c.judgment_rules.miss, n.judgments.miss, "Miss count"@, 0x4153_12d0_0000_0000);
}

} // verus!
