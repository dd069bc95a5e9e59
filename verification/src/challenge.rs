//! The `/coude` duel challenge: the checks made before a duel is offered,
//! the identifiers of the confirmation buttons and the texts the attacker
//! reads, and the checks repeated when the attacker confirms.

use vstd::prelude::*;
use crate::text::{
    chars_of, index_from, index_of, int_text, is_prefix, lemma_index_of_first, lemma_int_text_parses,
    owned, parse_i64, parse_i64_spec, push_i64, push_str, push_u64, starts_with, str_eq, string_of,
};

verus! {

/// Prefix of the "Confirmer" button shown before a duel is created.
pub const PRECONFIRM_OK_PREFIX: &'static str = "coude_prec_ok|";
/// Prefix of the "Annuler" button of the same confirmation.
pub const PRECONFIRM_NO_PREFIX: &'static str = "coude_prec_no|";
/// Below this share of its hit points (in percent) a player cannot fight.
pub const MIN_FIGHT_HP_PERCENT: i64 = 10;

// ───────────────────────── hit points ─────────────────────────

/// Rust's `/` on integers: the quotient rounded toward zero (`b > 0`).
pub open spec fn div_toward_zero(a: int, b: int) -> int {
    if a >= 0 {
        a / b
    } else {
        -((-a) / b)
    }
}

/// Current and maximum hit points, 100 each where the player has none.
pub open spec fn hp_or_full(hp: Option<i64>) -> int {
    match hp {
        Some(v) => v as int,
        None => 100,
    }
}

/// Share of hit points in percent, 0 for a non-positive maximum.
pub open spec fn hp_percent_spec(current: int, max: int) -> int {
    if max > 0 {
        div_toward_zero(current * 100, max)
    } else {
        0
    }
}

/// `current * 100` fits in 64 bits.
pub open spec fn hp_in_range(current: i64) -> bool {
    -92233720368547758 <= current <= 92233720368547758
}

/// Share of hit points in percent: `current * 100 / max`, rounded toward
/// zero, or 0 when `max` is not positive.
pub fn hp_percent(current: i64, max: i64) -> (p: i64)
    requires
        hp_in_range(current),
    ensures
        p == hp_percent_spec(current as int, max as int),
{
    if max <= 0 {
        return 0;
    }
    let scaled: i64 = current * 100;
    if scaled >= 0 {
        scaled / max
    } else {
        let neg: i64 = -scaled;
        -(neg / max)
    }
}

/// Warning shown under the attacker's hit points.
#[derive(PartialEq, Eq, Structural, Clone, Copy, Debug)]
pub enum HpWarning {
    /// More than half of the hit points.
    NoWarning,
    /// At most half of the hit points.
    BelowHalf,
    /// At most a quarter of the hit points.
    VeryLow,
}

pub open spec fn hp_warning_spec(percent: int) -> HpWarning {
    if percent <= 25 {
        HpWarning::VeryLow
    } else if percent <= 50 {
        HpWarning::BelowHalf
    } else {
        HpWarning::NoWarning
    }
}

/// Warning level for a share of hit points.
pub fn hp_warning(percent: i64) -> (w: HpWarning)
    ensures
        w == hp_warning_spec(percent as int),
{
    if percent <= 25 {
        HpWarning::VeryLow
    } else if percent <= 50 {
        HpWarning::BelowHalf
    } else {
        HpWarning::NoWarning
    }
}

pub open spec fn hp_warning_text_spec(w: HpWarning) -> Seq<char> {
    match w {
        HpWarning::VeryLow => "\n\n\u{26a0}\u{fe0f} **Tu es tres bas en PV !** Si tu lances ce combat tu risques une faillite HP rapide."@,
        HpWarning::BelowHalf => "\n\n\u{26a0}\u{fe0f} Tu as moins de la moitie de tes PV. Pense a `/repos` avant si tu peux."@,
        HpWarning::NoWarning => ""@,
    }
}

/// Sentence of a hit-point warning (empty when there is none).
pub fn hp_warning_text(w: HpWarning) -> (s: String)
    ensures
        s@ == hp_warning_text_spec(w),
{
    match w {
        HpWarning::VeryLow => owned(
            "\n\n\u{26a0}\u{fe0f} **Tu es tres bas en PV !** Si tu lances ce combat tu risques une faillite HP rapide.",
        ),
        HpWarning::BelowHalf => owned(
            "\n\n\u{26a0}\u{fe0f} Tu as moins de la moitie de tes PV. Pense a `/repos` avant si tu peux.",
        ),
        HpWarning::NoWarning => owned(""),
    }
}

/// Colour of the confirmation: red at a quarter of the hit points or
/// less, yellow otherwise.
pub fn confirm_color(percent: i64) -> (c: u32)
    ensures
        c == (if percent <= 25 { 0xE74C3Cu32 } else { 0xF1C40Fu32 }),
{
    if percent <= 25 {
        0xE74C3C
    } else {
        0xF1C40F
    }
}

// ───────────────────────── the challenge checks ─────────────────────────

/// What the bot knows when `/coude` is used: the two players, the bet and
/// the answers of the game API (in the order the checks ask for them).
pub struct ChallengeFacts {
    pub attacker_id: u64,
    pub target_id: u64,
    pub target_is_bot: bool,
    pub hp_current: Option<i64>,
    pub hp_max: Option<i64>,
    pub attacker_level: i32,
    pub defender_level: i32,
    /// The catalogue's matchmaking refuses the level gap.
    pub level_gap_blocked: bool,
    pub mise: i64,
    pub min_bet: i64,
    pub max_bet: i64,
    pub attacker_coins: i64,
    /// The attacker already has a pending challenge.
    pub pending: bool,
    /// The special attack asked for, if any.
    pub special: Option<String>,
    /// The attacker owns the special attack's item.
    pub has_item: bool,
    /// The defender's coins, read again just before the confirmation.
    pub defender_coins: i64,
}

/// Why a challenge is not offered.
#[derive(PartialEq, Eq, Structural, Clone, Copy, Debug)]
pub enum ChallengeRefusal {
    SelfChallenge,
    TargetIsBot,
    LowHp { current: i64, max: i64, percent: i64 },
    LevelGap { gap: i64, attacker_level: i32, defender_level: i32, target_id: u64 },
    BetTooLow { min: i64 },
    BetTooHigh { max: i64 },
    NotEnoughCoins { coins: i64, mise: i64 },
    AlreadyPending,
    MissingItem,
    DefenderBroke { target_id: u64 },
}

/// What the confirmation shows when the challenge may go on.
#[derive(PartialEq, Eq, Structural, Clone, Copy, Debug)]
pub struct ChallengeOffer {
    pub hp_current: i64,
    pub hp_max: i64,
    pub hp_percent: i64,
    pub warning: HpWarning,
    /// The defender's coins when they are fewer than the bet: the most the
    /// attacker can win.
    pub defender_cap: Option<i64>,
}

pub open spec fn abs_int(x: int) -> int {
    if x < 0 {
        -x
    } else {
        x
    }
}

/// The facts are within machine range: hit points times 100 fit in 64 bits.
pub open spec fn facts_in_range(f: ChallengeFacts) -> bool {
    hp_in_range(hp_or_full(f.hp_current) as i64)
}

/// The checks of `/coude`, in the order the command makes them; the first
/// that fails decides.
pub open spec fn challenge_spec(f: ChallengeFacts) -> Result<ChallengeOffer, ChallengeRefusal> {
    let cur = hp_or_full(f.hp_current);
    let max = hp_or_full(f.hp_max);
    let pct = hp_percent_spec(cur, max);
    if f.target_id == f.attacker_id {
        Err(ChallengeRefusal::SelfChallenge)
    } else if f.target_is_bot {
        Err(ChallengeRefusal::TargetIsBot)
    } else if pct < 10 {
        Err(ChallengeRefusal::LowHp { current: cur as i64, max: max as i64, percent: pct as i64 })
    } else if f.level_gap_blocked {
        Err(
            ChallengeRefusal::LevelGap {
                gap: abs_int(f.attacker_level - f.defender_level) as i64,
                attacker_level: f.attacker_level,
                defender_level: f.defender_level,
                target_id: f.target_id,
            },
        )
    } else if f.mise < f.min_bet {
        Err(ChallengeRefusal::BetTooLow { min: f.min_bet })
    } else if f.mise > f.max_bet {
        Err(ChallengeRefusal::BetTooHigh { max: f.max_bet })
    } else if f.attacker_coins < f.mise {
        Err(ChallengeRefusal::NotEnoughCoins { coins: f.attacker_coins, mise: f.mise })
    } else if f.pending {
        Err(ChallengeRefusal::AlreadyPending)
    } else if f.special is Some && !f.has_item {
        Err(ChallengeRefusal::MissingItem)
    } else if f.defender_coins <= 0 {
        Err(ChallengeRefusal::DefenderBroke { target_id: f.target_id })
    } else {
        Ok(
            ChallengeOffer {
                hp_current: cur as i64,
                hp_max: max as i64,
                hp_percent: pct as i64,
                warning: hp_warning_spec(pct),
                defender_cap: if f.defender_coins < f.mise {
                    Some(f.defender_coins)
                } else {
                    None
                },
            },
        )
    }
}

fn unwrap_hp(hp: Option<i64>) -> (v: i64)
    ensures
        v as int == hp_or_full(hp),
{
    match hp {
        Some(v) => v,
        None => 100,
    }
}

/// Decides whether `/coude` offers the duel, and what the confirmation
/// shows, or which check refuses it.
pub fn check_challenge(f: &ChallengeFacts) -> (r: Result<ChallengeOffer, ChallengeRefusal>)
    requires
        facts_in_range(*f),
    ensures
        r == challenge_spec(*f),
{
    let cur = unwrap_hp(f.hp_current);
    let max = unwrap_hp(f.hp_max);
    let pct = hp_percent(cur, max);
    if f.target_id == f.attacker_id {
        return Err(ChallengeRefusal::SelfChallenge);
    }
    if f.target_is_bot {
        return Err(ChallengeRefusal::TargetIsBot);
    }
    if pct < MIN_FIGHT_HP_PERCENT {
        return Err(ChallengeRefusal::LowHp { current: cur, max, percent: pct });
    }
    if f.level_gap_blocked {
        let diff: i64 = f.attacker_level as i64 - f.defender_level as i64;
        let gap: i64 = if diff < 0 {
            -diff
        } else {
            diff
        };
        return Err(
            ChallengeRefusal::LevelGap {
                gap,
                attacker_level: f.attacker_level,
                defender_level: f.defender_level,
                target_id: f.target_id,
            },
        );
    }
    if f.mise < f.min_bet {
        return Err(ChallengeRefusal::BetTooLow { min: f.min_bet });
    }
    if f.mise > f.max_bet {
        return Err(ChallengeRefusal::BetTooHigh { max: f.max_bet });
    }
    if f.attacker_coins < f.mise {
        return Err(ChallengeRefusal::NotEnoughCoins { coins: f.attacker_coins, mise: f.mise });
    }
    if f.pending {
        return Err(ChallengeRefusal::AlreadyPending);
    }
    if f.special.is_some() && !f.has_item {
        return Err(ChallengeRefusal::MissingItem);
    }
    if f.defender_coins <= 0 {
        return Err(ChallengeRefusal::DefenderBroke { target_id: f.target_id });
    }
    let cap = if f.defender_coins < f.mise {
        Some(f.defender_coins)
    } else {
        None
    };
    Ok(ChallengeOffer { hp_current: cur, hp_max: max, hp_percent: pct, warning: hp_warning(pct), defender_cap: cap })
}


// ───────────────────────── texts of the refusals ─────────────────────────

/// Text of the refusal `r`; `item` is the special attack asked for.
pub open spec fn refusal_text_spec(r: ChallengeRefusal, item: Seq<char>) -> Seq<char> {
    match r {
        ChallengeRefusal::SelfChallenge => "Tu ne peux pas te defier toi-meme !"@,
        ChallengeRefusal::TargetIsBot => "Tu ne peux pas defier un bot !"@,
        ChallengeRefusal::LowHp { current, max, percent } => "\u{1f480} Tu es trop bas en PV pour combattre ! ("@
            + int_text(current as int) + "/"@ + int_text(max as int) + " \u{2014} "@ + int_text(percent as int)
            + "%)\nUtilise `/repos` (cooldown 12h) ou attends la regen passive."@,
        ChallengeRefusal::LevelGap { gap, attacker_level, defender_level, target_id } =>
            "Ecart de niveau trop important ! ("@ + int_text(gap as int) + " niveaux d'ecart, max 9)\nTon niveau : "@
            + int_text(attacker_level as int) + " | Niveau de <@"@ + int_text(target_id as int) + "> : "@
            + int_text(defender_level as int),
        ChallengeRefusal::BetTooLow { min } => "La mise minimum est de "@ + int_text(min as int) + " coins."@,
        ChallengeRefusal::BetTooHigh { max } => "La mise maximum est de "@ + int_text(max as int) + " coins."@,
        ChallengeRefusal::NotEnoughCoins { coins, mise } => "Tu n'as pas assez de coins ! (tu as "@
            + int_text(coins as int) + " coins, mise demandee : "@ + int_text(mise as int) + ")"@,
        ChallengeRefusal::AlreadyPending => "Tu as deja un defi en attente !"@,
        ChallengeRefusal::MissingItem => "Tu n'as pas l'objet **"@ + item + "** dans ton inventaire !"@,
        ChallengeRefusal::DefenderBroke { target_id } => "Impossible de defier <@"@ + int_text(target_id as int)
            + "> : ce joueur n'a aucun coin. Pas de duel sans enjeu !"@,
    }
}

/// The sentence the attacker reads when the challenge is refused.
pub fn refusal_text(r: ChallengeRefusal, item: &str) -> (s: String)
    ensures
        s@ == refusal_text_spec(r, item@),
{
    let mut s = String::new();
    match r {
        ChallengeRefusal::SelfChallenge => push_str(&mut s, "Tu ne peux pas te defier toi-meme !"),
        ChallengeRefusal::TargetIsBot => push_str(&mut s, "Tu ne peux pas defier un bot !"),
        ChallengeRefusal::LowHp { current, max, percent } => {
            push_str(&mut s, "\u{1f480} Tu es trop bas en PV pour combattre ! (");
            push_i64(&mut s, current);
            push_str(&mut s, "/");
            push_i64(&mut s, max);
            push_str(&mut s, " \u{2014} ");
            push_i64(&mut s, percent);
            push_str(&mut s, "%)\nUtilise `/repos` (cooldown 12h) ou attends la regen passive.");
        },
        ChallengeRefusal::LevelGap { gap, attacker_level, defender_level, target_id } => {
            push_str(&mut s, "Ecart de niveau trop important ! (");
            push_i64(&mut s, gap);
            push_str(&mut s, " niveaux d'ecart, max 9)\nTon niveau : ");
            push_i64(&mut s, attacker_level as i64);
            push_str(&mut s, " | Niveau de <@");
            push_u64(&mut s, target_id);
            push_str(&mut s, "> : ");
            push_i64(&mut s, defender_level as i64);
        },
        ChallengeRefusal::BetTooLow { min } => {
            push_str(&mut s, "La mise minimum est de ");
            push_i64(&mut s, min);
            push_str(&mut s, " coins.");
        },
        ChallengeRefusal::BetTooHigh { max } => {
            push_str(&mut s, "La mise maximum est de ");
            push_i64(&mut s, max);
            push_str(&mut s, " coins.");
        },
        ChallengeRefusal::NotEnoughCoins { coins, mise } => {
            push_str(&mut s, "Tu n'as pas assez de coins ! (tu as ");
            push_i64(&mut s, coins);
            push_str(&mut s, " coins, mise demandee : ");
            push_i64(&mut s, mise);
            push_str(&mut s, ")");
        },
        ChallengeRefusal::AlreadyPending => push_str(&mut s, "Tu as deja un defi en attente !"),
        ChallengeRefusal::MissingItem => {
            push_str(&mut s, "Tu n'as pas l'objet **");
            push_str(&mut s, item);
            push_str(&mut s, "** dans ton inventaire !");
        },
        ChallengeRefusal::DefenderBroke { target_id } => {
            push_str(&mut s, "Impossible de defier <@");
            push_u64(&mut s, target_id);
            push_str(&mut s, "> : ce joueur n'a aucun coin. Pas de duel sans enjeu !");
        },
    }
    s
}

// ───────────────────────── the confirmation ─────────────────────────

pub open spec fn special_suffix_spec(special: Option<Seq<char>>) -> Seq<char> {
    match special {
        Some(sp) => " | Special : **"@ + sp + "**"@,
        None => Seq::empty(),
    }
}

pub open spec fn defender_warning_spec(target_id: u64, cap: Option<i64>, mise: i64) -> Seq<char> {
    match cap {
        Some(dc) => "\n\n\u{26a0}\u{fe0f} **<@"@ + int_text(target_id as int) + "> n'a que "@ + int_text(dc as int)
            + " coins !** Si tu gagnes, tu ne recupereras que **"@ + int_text(dc as int) + " coins** (pas "@
            + int_text(mise as int) + "). Si tu perds, tu perdras bien les "@ + int_text(mise as int)
            + " coins mises."@,
        None => Seq::empty(),
    }
}

/// Text of the confirmation shown to the attacker before the duel is
/// created.
pub open spec fn confirm_description_spec(
    target_id: u64,
    mise: i64,
    special: Option<Seq<char>>,
    offer: ChallengeOffer,
) -> Seq<char> {
    "Tu vas defier <@"@ + int_text(target_id as int) + "> pour **"@ + int_text(mise as int) + " coins**."@
        + special_suffix_spec(special) + "\n\n\u{2764}\u{fe0f} **Tes PV actuels : "@ + int_text(
        offer.hp_current as int,
    ) + " / "@ + int_text(offer.hp_max as int) + "**"@ + hp_warning_text_spec(offer.warning)
        + defender_warning_spec(target_id, offer.defender_cap, mise) + "\n\nLancer le combat ?"@
}

fn special_suffix(special: &Option<String>) -> (s: String)
    ensures
        s@ == special_suffix_spec(
            match special {
                Some(x) => Some(x@),
                None => None,
            },
        ),
{
    let mut s = String::new();
    match special {
        Some(sp) => {
            push_str(&mut s, " | Special : **");
            push_str(&mut s, sp.as_str());
            push_str(&mut s, "**");
        },
        None => {},
    }
    s
}

fn defender_warning(target_id: u64, cap: Option<i64>, mise: i64) -> (s: String)
    ensures
        s@ == defender_warning_spec(target_id, cap, mise),
{
    let mut s = String::new();
    match cap {
        Some(dc) => {
            push_str(&mut s, "\n\n\u{26a0}\u{fe0f} **<@");
            push_u64(&mut s, target_id);
            push_str(&mut s, "> n'a que ");
            push_i64(&mut s, dc);
            push_str(&mut s, " coins !** Si tu gagnes, tu ne recupereras que **");
            push_i64(&mut s, dc);
            push_str(&mut s, " coins** (pas ");
            push_i64(&mut s, mise);
            push_str(&mut s, "). Si tu perds, tu perdras bien les ");
            push_i64(&mut s, mise);
            push_str(&mut s, " coins mises.");
        },
        None => {},
    }
    s
}

/// The confirmation's text for an offered challenge.
pub fn confirm_description(target_id: u64, mise: i64, special: &Option<String>, offer: &ChallengeOffer) -> (s:
    String)
    ensures
        s@ == confirm_description_spec(
            target_id,
            mise,
            match special {
                Some(x) => Some(x@),
                None => None,
            },
            *offer,
        ),
{
    let mut s = String::new();
    push_str(&mut s, "Tu vas defier <@");
    push_u64(&mut s, target_id);
    push_str(&mut s, "> pour **");
    push_i64(&mut s, mise);
    push_str(&mut s, " coins**.");
    let suffix = special_suffix(special);
    push_str(&mut s, suffix.as_str());
    push_str(&mut s, "\n\n\u{2764}\u{fe0f} **Tes PV actuels : ");
    push_i64(&mut s, offer.hp_current);
    push_str(&mut s, " / ");
    push_i64(&mut s, offer.hp_max);
    push_str(&mut s, "**");
    let w = hp_warning_text(offer.warning);
    push_str(&mut s, w.as_str());
    let dw = defender_warning(target_id, offer.defender_cap, mise);
    push_str(&mut s, dw.as_str());
    push_str(&mut s, "\n\nLancer le combat ?");
    s
}

// ───────────────────────── confirmation buttons ─────────────────────────

/// What a confirmation button carries for a missing special attack.
pub open spec fn special_or_dash(special: Option<Seq<char>>) -> Seq<char> {
    match special {
        Some(sp) => sp,
        None => "-"@,
    }
}

/// Identifier of a confirmation button: the prefix, then the target, the
/// bet and the special attack (`-` for none), separated by `|`.
pub open spec fn preconfirm_id_spec(prefix: Seq<char>, target_id: u64, mise: i64, special: Seq<char>) -> Seq<
    char,
> {
    prefix + int_text(target_id as int) + "|"@ + int_text(mise as int) + "|"@ + special
}

/// The identifier of a confirmation button.
pub fn preconfirm_id(prefix: &str, target_id: u64, mise: i64, special: &Option<String>) -> (s: String)
    ensures
        s@ == preconfirm_id_spec(
            prefix@,
            target_id,
            mise,
            special_or_dash(
                match special {
                    Some(x) => Some(x@),
                    None => None,
                },
            ),
        ),
{
    let mut s = String::new();
    push_str(&mut s, prefix);
    push_u64(&mut s, target_id);
    push_str(&mut s, "|");
    push_i64(&mut s, mise);
    push_str(&mut s, "|");
    match special {
        Some(sp) => push_str(&mut s, sp.as_str()),
        None => push_str(&mut s, "-"),
    }
    s
}

/// The three `|`-separated fields after the prefix: what comes before the
/// first `|`, between the first and the second, and all after the second.
pub open spec fn preconfirm_fields(rest: Seq<char>) -> Option<(Seq<char>, Seq<char>, Seq<char>)> {
    match index_of(rest, '|') {
        Some(i) => {
            let after = rest.skip(i + 1);
            match index_of(after, '|') {
                Some(j) => Some((rest.take(i), after.take(j), after.skip(j + 1))),
                None => None,
            }
        },
        None => None,
    }
}

/// Reads a confirmation button's identifier: `None` unless it starts with
/// `prefix`, has three fields and its bet reads as an `i64`.
pub open spec fn parse_preconfirm_spec(id: Seq<char>, prefix: Seq<char>) -> Option<(Seq<char>, i64, Seq<char>)> {
    if is_prefix(prefix, id) {
        match preconfirm_fields(id.skip(prefix.len() as int)) {
            Some((t, m, sp)) => match parse_i64_spec(m) {
                Some(v) => Some((t, v, sp)),
                None => None,
            },
            None => None,
        }
    } else {
        None
    }
}

/// Target, bet and special attack carried by a confirmation button.
pub fn parse_preconfirm_id(id: &str, prefix: &str) -> (r: Option<(String, i64, String)>)
    ensures
        match r {
            Some((t, m, sp)) => parse_preconfirm_spec(id@, prefix@) == Some((t@, m, sp@)),
            None => parse_preconfirm_spec(id@, prefix@) is None,
        },
{
    if !starts_with(id, prefix) {
        return None;
    }
    let cs = chars_of(id);
    let pl = chars_of(prefix).len();
    let n = cs.len();
    let ghost rest = id@.skip(pl as int);
    let first = match index_from(cs.as_slice(), pl, '|') {
        Some(i) => i,
        None => return None,
    };
    assert(rest.skip(0) =~= rest);
    let second = match index_from(cs.as_slice(), first + 1, '|') {
        Some(j) => j,
        None => {
            assert(rest.skip(first - pl + 1) =~= cs@.skip(first + 1));
            return None;
        },
    };
    assert(rest.skip(first - pl + 1) =~= cs@.skip(first + 1));
    let t = string_of(crate::text::slice_from(cs.as_slice(), pl).split_at(first - pl).0);
    let m = string_of(crate::text::slice_from(cs.as_slice(), first + 1).split_at(second - first - 1).0);
    let sp = string_of(crate::text::slice_from(cs.as_slice(), second + 1));
    proof {
        let after = rest.skip(first - pl + 1);
        assert(t@ =~= rest.take(first - pl));
        assert(m@ =~= after.take(second - first - 1));
        assert(sp@ =~= after.skip(second - first - 1 + 1));
    }
    match parse_i64(m.as_str()) {
        Some(v) => Some((t, v, sp)),
        None => None,
    }
}

/// Reading a confirmation button's identifier gives back the target, the
/// bet and the special attack (or `-`) it was made from.
pub proof fn law_preconfirm_id_roundtrip(prefix: Seq<char>, target_id: u64, mise: i64, special: Seq<char>)
    ensures
        parse_preconfirm_spec(preconfirm_id_spec(prefix, target_id, mise, special), prefix) == Some(
            (int_text(target_id as int), mise, special),
        ),
{
    reveal_strlit("|");
    let t = int_text(target_id as int);
    let m = int_text(mise as int);
    let id = preconfirm_id_spec(prefix, target_id, mise, special);
    lemma_int_text_parses(target_id as i64);
    lemma_int_text_parses(mise);
    crate::text::lemma_nat_digits_value(target_id as nat);
    assert(t == crate::text::nat_digits(target_id as nat));
    assert(id.take(prefix.len() as int) =~= prefix);
    let rest = id.skip(prefix.len() as int);
    assert(rest =~= t + "|"@ + m + "|"@ + special);
    assert(rest[t.len() as int] == '|');
    assert forall|k: int| 0 <= k < t.len() implies rest[k] != '|' by {
        assert(rest[k] == t[k]);
        assert(crate::text::is_digit(t[k]));
    }
    lemma_index_of_first(rest, '|', t.len() as int);
    let after = rest.skip(t.len() as int + 1);
    assert(after =~= m + "|"@ + special);
    assert(after[m.len() as int] == '|');
    assert forall|k: int| 0 <= k < m.len() implies after[k] != '|' by {
        assert(after[k] == m[k]);
    }
    lemma_index_of_first(after, '|', m.len() as int);
    assert(rest.take(t.len() as int) =~= t);
    assert(after.take(m.len() as int) =~= m);
    assert(after.skip(m.len() as int + 1) =~= special);
}

// ───────────────────────── when the attacker confirms ─────────────────────────

/// Why a confirmed challenge is dropped after all.
#[derive(PartialEq, Eq, Structural, Clone, Copy, Debug)]
pub enum ConfirmRefusal {
    BalanceTooLow { coins: i64, mise: i64 },
    LowHp { current: i64, max: i64, percent: i64 },
    AlreadyPending,
    ItemGone,
    NoCombatChannel,
}

/// The checks repeated when the attacker clicks "Confirmer", in order:
/// the balance, the hit points, a pending challenge, the special attack's
/// item (`-` is none) and the duel channel.
pub open spec fn confirm_spec(
    coins: i64,
    mise: i64,
    hp_current: Option<i64>,
    hp_max: Option<i64>,
    pending: bool,
    special: Seq<char>,
    has_item: bool,
    has_combat_channel: bool,
) -> Result<Option<Seq<char>>, ConfirmRefusal> {
    let cur = hp_or_full(hp_current);
    let max = hp_or_full(hp_max);
    let pct = hp_percent_spec(cur, max);
    if coins < mise {
        Err(ConfirmRefusal::BalanceTooLow { coins, mise })
    } else if pct < 10 {
        Err(ConfirmRefusal::LowHp { current: cur as i64, max: max as i64, percent: pct as i64 })
    } else if pending {
        Err(ConfirmRefusal::AlreadyPending)
    } else if special != "-"@ && !has_item {
        Err(ConfirmRefusal::ItemGone)
    } else if !has_combat_channel {
        Err(ConfirmRefusal::NoCombatChannel)
    } else if special == "-"@ {
        Ok(None)
    } else {
        Ok(Some(special))
    }
}

/// Decides whether a confirmed challenge goes on; on success, the special
/// attack to use (none for `-`).
pub fn check_confirmation(
    coins: i64,
    mise: i64,
    hp_current: Option<i64>,
    hp_max: Option<i64>,
    pending: bool,
    special: &str,
    has_item: bool,
    has_combat_channel: bool,
) -> (r: Result<Option<String>, ConfirmRefusal>)
    requires
        hp_in_range(hp_or_full(hp_current) as i64),
    ensures
        match r {
            Ok(Some(sp)) => confirm_spec(coins, mise, hp_current, hp_max, pending, special@, has_item, has_combat_channel)
                == Ok::<Option<Seq<char>>, ConfirmRefusal>(Some(sp@)),
            Ok(None) => confirm_spec(coins, mise, hp_current, hp_max, pending, special@, has_item, has_combat_channel)
                == Ok::<Option<Seq<char>>, ConfirmRefusal>(None),
            Err(e) => confirm_spec(coins, mise, hp_current, hp_max, pending, special@, has_item, has_combat_channel)
                == Err::<Option<Seq<char>>, ConfirmRefusal>(e),
        },
{
    let cur = unwrap_hp(hp_current);
    let max = unwrap_hp(hp_max);
    let pct = hp_percent(cur, max);
    if coins < mise {
        return Err(ConfirmRefusal::BalanceTooLow { coins, mise });
    }
    if pct < MIN_FIGHT_HP_PERCENT {
        return Err(ConfirmRefusal::LowHp { current: cur, max, percent: pct });
    }
    if pending {
        return Err(ConfirmRefusal::AlreadyPending);
    }
    let none = str_eq(special, "-");
    if !none && !has_item {
        return Err(ConfirmRefusal::ItemGone);
    }
    if !has_combat_channel {
        return Err(ConfirmRefusal::NoCombatChannel);
    }
    if none {
        Ok(None)
    } else {
        Ok(Some(owned(special)))
    }
}

pub open spec fn confirm_refusal_text_spec(r: ConfirmRefusal, item: Seq<char>) -> Seq<char> {
    match r {
        ConfirmRefusal::BalanceTooLow { coins, mise } => "Ton solde n'est plus suffisant ! (tu as "@ + int_text(
            coins as int,
        ) + " coins, mise demandee : "@ + int_text(mise as int) + ")"@,
        ConfirmRefusal::LowHp { current, max, percent } => "\u{1f480} Tu es trop bas en PV maintenant ("@
            + int_text(current as int) + "/"@ + int_text(max as int) + " \u{2014} "@ + int_text(percent as int)
            + "%). Defi annule."@,
        ConfirmRefusal::AlreadyPending => "Tu as deja un defi en attente !"@,
        ConfirmRefusal::ItemGone => "Tu n'as plus l'objet **"@ + item + "** dans ton inventaire !"@,
        ConfirmRefusal::NoCombatChannel => "Salon combats non configure."@,
    }
}

/// The sentence shown when a confirmed challenge is dropped.
pub fn confirm_refusal_text(r: ConfirmRefusal, item: &str) -> (s: String)
    ensures
        s@ == confirm_refusal_text_spec(r, item@),
{
    let mut s = String::new();
    match r {
        ConfirmRefusal::BalanceTooLow { coins, mise } => {
            push_str(&mut s, "Ton solde n'est plus suffisant ! (tu as ");
            push_i64(&mut s, coins);
            push_str(&mut s, " coins, mise demandee : ");
            push_i64(&mut s, mise);
            push_str(&mut s, ")");
        },
        ConfirmRefusal::LowHp { current, max, percent } => {
            push_str(&mut s, "\u{1f480} Tu es trop bas en PV maintenant (");
            push_i64(&mut s, current);
            push_str(&mut s, "/");
            push_i64(&mut s, max);
            push_str(&mut s, " \u{2014} ");
            push_i64(&mut s, percent);
            push_str(&mut s, "%). Defi annule.");
        },
        ConfirmRefusal::AlreadyPending => push_str(&mut s, "Tu as deja un defi en attente !"),
        ConfirmRefusal::ItemGone => {
            push_str(&mut s, "Tu n'as plus l'objet **");
            push_str(&mut s, item);
            push_str(&mut s, "** dans ton inventaire !");
        },
        ConfirmRefusal::NoCombatChannel => push_str(&mut s, "Salon combats non configure."),
    }
    s
}

/// The special attack "surprise" resolves the duel at once.
pub fn is_surprise(special: &Option<String>) -> (r: bool)
    ensures
        r == (special matches Some(sp) && sp@ == "surprise"@),
{
    match special {
        Some(sp) => str_eq(sp.as_str(), "surprise"),
        None => false,
    }
}

/// A "bloodbath" event is active among the guild's events: duels are then
/// accepted at once.
pub fn bloodbath_active(event_types: &Vec<String>) -> (r: bool)
    ensures
        r == (exists|i: int| 0 <= i < event_types@.len() && #[trigger] event_types@[i]@ == "bloodbath"@),
{
    let n = event_types.len();
    for i in 0..n
        invariant
            n == event_types@.len(),
            forall|j: int| 0 <= j < i ==> #[trigger] event_types@[j]@ != "bloodbath"@,
    {
        if str_eq(event_types[i].as_str(), "bloodbath") {
            return true;
        }
    }
    false
}

// ───────────────────────── the confirmation flow ─────────────────────────

/// Where the confirmation of a challenge stands: which reply it waits for.
#[derive(PartialEq, Eq, Structural, Clone, Copy, Debug)]
pub enum ConfirmStage {
    Start,
    AwaitAttacker,
    AwaitPending,
    AwaitDefender,
    AwaitItemCheck,
    AwaitItemUse,
    AwaitCombat,
    AwaitSurprise,
    AwaitEvents,
    AwaitBloodbath,
    Done,
}

/// The state of a confirmation: its stage, what the button carried and what
/// the replies told so far.
#[derive(PartialEq, Eq, Structural, Clone, Copy, Debug)]
pub struct ConfirmFlow {
    pub stage: ConfirmStage,
    pub mise: i64,
    /// A special attack was chosen (its key is not `-`).
    pub has_special: bool,
    /// The special attack is `surprise`.
    pub surprise: bool,
    pub has_combat_channel: bool,
    pub coins: i64,
    pub hp_current: Option<i64>,
    pub hp_max: Option<i64>,
    pub pending: bool,
    pub has_item: bool,
    pub item_used: bool,
}

/// What happened since the last action: the reply to it.
#[derive(PartialEq, Eq, Structural, Clone, Copy, Debug)]
pub enum ConfirmEvent {
    /// The attacker clicked "Confirmer" (the button read and its target found).
    Begin,
    /// The attacker's player record, fetched anew.
    Attacker { coins: i64, hp_current: Option<i64>, hp_max: Option<i64> },
    /// Whether the attacker has a pending challenge (an API error counts as none).
    PendingChecked { pending: bool },
    /// The defender's player record was fetched.
    DefenderFetched,
    /// Whether the attacker owns the item (an API error counts as not owned).
    ItemChecked { owned: bool },
    /// The item was used.
    ItemUsed,
    /// The combat was created.
    CombatCreated,
    /// The duel was resolved and its result posted.
    Resolved,
    /// The surprise could not resolve: the defender holds a counter.
    DefenderCanCounter,
    /// The guild's active events (an API error counts as none).
    EventsFetched { bloodbath: bool },
    /// The awaited API call failed.
    ApiFailed,
}

/// How a confirmation ends.
#[derive(PartialEq, Eq, Structural, Clone, Copy, Debug)]
pub enum ConfirmEnd {
    Refused(ConfirmRefusal),
    ApiError,
    CombatError,
    SurpriseResolved,
    SurpriseFailed,
    BloodbathResolved,
    BloodbathFailed,
    ChallengePosted,
}

/// What the bot does next.
#[derive(PartialEq, Eq, Structural, Clone, Copy, Debug)]
pub enum ConfirmAction {
    FetchAttacker,
    FetchPending,
    FetchDefender,
    CheckItem,
    UseItem,
    CreateCombat,
    /// Resolve the surprise attack at once.
    ResolveSurprise,
    FetchEvents,
    /// Announce the bloodbath and resolve the duel at once.
    ResolveBloodbath,
    /// Post the challenge with its buttons and notify the defender.
    PostChallenge,
    /// Edit the confirmation message to say how it ended.
    Finish(ConfirmEnd),
    /// The event does not belong to this stage: nothing to do.
    Ignore,
}

/// The flow of a confirmation, before the click, for a bet and a special
/// attack key (`-` for none).
pub open spec fn confirm_start_spec(mise: i64, special: Seq<char>, has_combat_channel: bool) -> ConfirmFlow {
    ConfirmFlow {
        stage: ConfirmStage::Start,
        mise,
        has_special: special != "-"@,
        surprise: special == "surprise"@,
        has_combat_channel,
        coins: 0,
        hp_current: None,
        hp_max: None,
        pending: false,
        has_item: false,
        item_used: false,
    }
}

/// One step of the confirmation: the attacker's balance and hit points are
/// checked again, then a pending challenge, then (after the defender is
/// fetched) the item and the duel channel; the item is used only then, the
/// combat created right after, and a surprise resolved at once unless the
/// defender can counter, a bloodbath resolved at once, else the challenge
/// posted. A failed call ends the flow with its error.
pub open spec fn confirm_step_spec(f: ConfirmFlow, e: ConfirmEvent) -> (ConfirmFlow, ConfirmAction) {
    let done = ConfirmFlow { stage: ConfirmStage::Done, ..f };
    match (f.stage, e) {
        (ConfirmStage::Start, ConfirmEvent::Begin) => (
            ConfirmFlow { stage: ConfirmStage::AwaitAttacker, ..f },
            ConfirmAction::FetchAttacker,
        ),
        (ConfirmStage::AwaitAttacker, ConfirmEvent::Attacker { coins, hp_current, hp_max }) => {
            let g = ConfirmFlow { coins, hp_current, hp_max, ..f };
            let cur = hp_or_full(hp_current);
            let max = hp_or_full(hp_max);
            let pct = hp_percent_spec(cur, max);
            if coins < f.mise {
                (
                    ConfirmFlow { stage: ConfirmStage::Done, ..g },
                    ConfirmAction::Finish(ConfirmEnd::Refused(ConfirmRefusal::BalanceTooLow { coins, mise: f.mise })),
                )
            } else if pct < 10 {
                (
                    ConfirmFlow { stage: ConfirmStage::Done, ..g },
                    ConfirmAction::Finish(
                        ConfirmEnd::Refused(
                            ConfirmRefusal::LowHp { current: cur as i64, max: max as i64, percent: pct as i64 },
                        ),
                    ),
                )
            } else {
                (ConfirmFlow { stage: ConfirmStage::AwaitPending, ..g }, ConfirmAction::FetchPending)
            }
        },
        (ConfirmStage::AwaitPending, ConfirmEvent::PendingChecked { pending }) => {
            let g = ConfirmFlow { pending, ..f };
            if pending {
                (
                    ConfirmFlow { stage: ConfirmStage::Done, ..g },
                    ConfirmAction::Finish(ConfirmEnd::Refused(ConfirmRefusal::AlreadyPending)),
                )
            } else {
                (ConfirmFlow { stage: ConfirmStage::AwaitDefender, ..g }, ConfirmAction::FetchDefender)
            }
        },
        (ConfirmStage::AwaitDefender, ConfirmEvent::DefenderFetched) => if f.has_special {
            (ConfirmFlow { stage: ConfirmStage::AwaitItemCheck, ..f }, ConfirmAction::CheckItem)
        } else if !f.has_combat_channel {
            (done, ConfirmAction::Finish(ConfirmEnd::Refused(ConfirmRefusal::NoCombatChannel)))
        } else {
            (ConfirmFlow { stage: ConfirmStage::AwaitCombat, ..f }, ConfirmAction::CreateCombat)
        },
        (ConfirmStage::AwaitItemCheck, ConfirmEvent::ItemChecked { owned }) => {
            let g = ConfirmFlow { has_item: owned, ..f };
            if !owned {
                (
                    ConfirmFlow { stage: ConfirmStage::Done, ..g },
                    ConfirmAction::Finish(ConfirmEnd::Refused(ConfirmRefusal::ItemGone)),
                )
            } else if !f.has_combat_channel {
                (
                    ConfirmFlow { stage: ConfirmStage::Done, ..g },
                    ConfirmAction::Finish(ConfirmEnd::Refused(ConfirmRefusal::NoCombatChannel)),
                )
            } else {
                (ConfirmFlow { stage: ConfirmStage::AwaitItemUse, ..g }, ConfirmAction::UseItem)
            }
        },
        (ConfirmStage::AwaitItemUse, ConfirmEvent::ItemUsed) => (
            ConfirmFlow { stage: ConfirmStage::AwaitCombat, item_used: true, ..f },
            ConfirmAction::CreateCombat,
        ),
        (ConfirmStage::AwaitCombat, ConfirmEvent::CombatCreated) => if f.surprise {
            (ConfirmFlow { stage: ConfirmStage::AwaitSurprise, ..f }, ConfirmAction::ResolveSurprise)
        } else {
            (ConfirmFlow { stage: ConfirmStage::AwaitEvents, ..f }, ConfirmAction::FetchEvents)
        },
        (ConfirmStage::AwaitCombat, ConfirmEvent::ApiFailed) => (done, ConfirmAction::Finish(ConfirmEnd::CombatError)),
        (ConfirmStage::AwaitSurprise, ConfirmEvent::Resolved) => (
            done,
            ConfirmAction::Finish(ConfirmEnd::SurpriseResolved),
        ),
        (ConfirmStage::AwaitSurprise, ConfirmEvent::DefenderCanCounter) => (
            ConfirmFlow { stage: ConfirmStage::AwaitEvents, ..f },
            ConfirmAction::FetchEvents,
        ),
        (ConfirmStage::AwaitSurprise, ConfirmEvent::ApiFailed) => (
            done,
            ConfirmAction::Finish(ConfirmEnd::SurpriseFailed),
        ),
        (ConfirmStage::AwaitEvents, ConfirmEvent::EventsFetched { bloodbath }) => if bloodbath {
            (ConfirmFlow { stage: ConfirmStage::AwaitBloodbath, ..f }, ConfirmAction::ResolveBloodbath)
        } else {
            (done, ConfirmAction::PostChallenge)
        },
        (ConfirmStage::AwaitBloodbath, ConfirmEvent::Resolved) => (
            done,
            ConfirmAction::Finish(ConfirmEnd::BloodbathResolved),
        ),
        (ConfirmStage::AwaitBloodbath, ConfirmEvent::ApiFailed) => (
            done,
            ConfirmAction::Finish(ConfirmEnd::BloodbathFailed),
        ),
        (ConfirmStage::AwaitAttacker, ConfirmEvent::ApiFailed) => (done, ConfirmAction::Finish(ConfirmEnd::ApiError)),
        (ConfirmStage::AwaitDefender, ConfirmEvent::ApiFailed) => (done, ConfirmAction::Finish(ConfirmEnd::ApiError)),
        (ConfirmStage::AwaitItemUse, ConfirmEvent::ApiFailed) => (done, ConfirmAction::Finish(ConfirmEnd::ApiError)),
        _ => (f, ConfirmAction::Ignore),
    }
}

/// The events whose hit points can be turned into a percentage in 64 bits.
pub open spec fn confirm_event_ok(e: ConfirmEvent) -> bool {
    e matches ConfirmEvent::Attacker { hp_current, .. } ==> hp_in_range(hp_or_full(hp_current) as i64)
}

impl ConfirmFlow {
    /// The flow of a confirmation before the click, from what its button
    /// carried (`-` for no special attack) and whether the guild has a duel
    /// channel.
    pub fn start(mise: i64, special: &str, has_combat_channel: bool) -> (f: ConfirmFlow)
        ensures
            f == confirm_start_spec(mise, special@, has_combat_channel),
    {
        ConfirmFlow {
            stage: ConfirmStage::Start,
            mise,
            has_special: !str_eq(special, "-"),
            surprise: str_eq(special, "surprise"),
            has_combat_channel,
            coins: 0,
            hp_current: None,
            hp_max: None,
            pending: false,
            has_item: false,
            item_used: false,
        }
    }

    /// See `confirm_step_spec`.
    pub fn step(self, e: ConfirmEvent) -> (r: (ConfirmFlow, ConfirmAction))
        requires
            confirm_event_ok(e),
        ensures
            r == confirm_step_spec(self, e),
    {
        let f = self;
        let done = ConfirmFlow { stage: ConfirmStage::Done, ..f };
        match (f.stage, e) {
            (ConfirmStage::Start, ConfirmEvent::Begin) => (
                ConfirmFlow { stage: ConfirmStage::AwaitAttacker, ..f },
                ConfirmAction::FetchAttacker,
            ),
            (ConfirmStage::AwaitAttacker, ConfirmEvent::Attacker { coins, hp_current, hp_max }) => {
                let g = ConfirmFlow { coins, hp_current, hp_max, ..f };
                let cur = unwrap_hp(hp_current);
                let max = unwrap_hp(hp_max);
                let pct = hp_percent(cur, max);
                if coins < f.mise {
                    (
                        ConfirmFlow { stage: ConfirmStage::Done, ..g },
                        ConfirmAction::Finish(
                            ConfirmEnd::Refused(ConfirmRefusal::BalanceTooLow { coins, mise: f.mise }),
                        ),
                    )
                } else if pct < MIN_FIGHT_HP_PERCENT {
                    (
                        ConfirmFlow { stage: ConfirmStage::Done, ..g },
                        ConfirmAction::Finish(
                            ConfirmEnd::Refused(ConfirmRefusal::LowHp { current: cur, max, percent: pct }),
                        ),
                    )
                } else {
                    (ConfirmFlow { stage: ConfirmStage::AwaitPending, ..g }, ConfirmAction::FetchPending)
                }
            },
            (ConfirmStage::AwaitPending, ConfirmEvent::PendingChecked { pending }) => {
                let g = ConfirmFlow { pending, ..f };
                if pending {
                    (
                        ConfirmFlow { stage: ConfirmStage::Done, ..g },
                        ConfirmAction::Finish(ConfirmEnd::Refused(ConfirmRefusal::AlreadyPending)),
                    )
                } else {
                    (ConfirmFlow { stage: ConfirmStage::AwaitDefender, ..g }, ConfirmAction::FetchDefender)
                }
            },
            (ConfirmStage::AwaitDefender, ConfirmEvent::DefenderFetched) => if f.has_special {
                (ConfirmFlow { stage: ConfirmStage::AwaitItemCheck, ..f }, ConfirmAction::CheckItem)
            } else if !f.has_combat_channel {
                (done, ConfirmAction::Finish(ConfirmEnd::Refused(ConfirmRefusal::NoCombatChannel)))
            } else {
                (ConfirmFlow { stage: ConfirmStage::AwaitCombat, ..f }, ConfirmAction::CreateCombat)
            },
            (ConfirmStage::AwaitItemCheck, ConfirmEvent::ItemChecked { owned }) => {
                let g = ConfirmFlow { has_item: owned, ..f };
                if !owned {
                    (
                        ConfirmFlow { stage: ConfirmStage::Done, ..g },
                        ConfirmAction::Finish(ConfirmEnd::Refused(ConfirmRefusal::ItemGone)),
                    )
                } else if !f.has_combat_channel {
                    (
                        ConfirmFlow { stage: ConfirmStage::Done, ..g },
                        ConfirmAction::Finish(ConfirmEnd::Refused(ConfirmRefusal::NoCombatChannel)),
                    )
                } else {
                    (ConfirmFlow { stage: ConfirmStage::AwaitItemUse, ..g }, ConfirmAction::UseItem)
                }
            },
            (ConfirmStage::AwaitItemUse, ConfirmEvent::ItemUsed) => (
                ConfirmFlow { stage: ConfirmStage::AwaitCombat, item_used: true, ..f },
                ConfirmAction::CreateCombat,
            ),
            (ConfirmStage::AwaitCombat, ConfirmEvent::CombatCreated) => if f.surprise {
                (ConfirmFlow { stage: ConfirmStage::AwaitSurprise, ..f }, ConfirmAction::ResolveSurprise)
            } else {
                (ConfirmFlow { stage: ConfirmStage::AwaitEvents, ..f }, ConfirmAction::FetchEvents)
            },
            (ConfirmStage::AwaitCombat, ConfirmEvent::ApiFailed) => (
                done,
                ConfirmAction::Finish(ConfirmEnd::CombatError),
            ),
            (ConfirmStage::AwaitSurprise, ConfirmEvent::Resolved) => (
                done,
                ConfirmAction::Finish(ConfirmEnd::SurpriseResolved),
            ),
            (ConfirmStage::AwaitSurprise, ConfirmEvent::DefenderCanCounter) => (
                ConfirmFlow { stage: ConfirmStage::AwaitEvents, ..f },
                ConfirmAction::FetchEvents,
            ),
            (ConfirmStage::AwaitSurprise, ConfirmEvent::ApiFailed) => (
                done,
                ConfirmAction::Finish(ConfirmEnd::SurpriseFailed),
            ),
            (ConfirmStage::AwaitEvents, ConfirmEvent::EventsFetched { bloodbath }) => if bloodbath {
                (ConfirmFlow { stage: ConfirmStage::AwaitBloodbath, ..f }, ConfirmAction::ResolveBloodbath)
            } else {
                (done, ConfirmAction::PostChallenge)
            },
            (ConfirmStage::AwaitBloodbath, ConfirmEvent::Resolved) => (
                done,
                ConfirmAction::Finish(ConfirmEnd::BloodbathResolved),
            ),
            (ConfirmStage::AwaitBloodbath, ConfirmEvent::ApiFailed) => (
                done,
                ConfirmAction::Finish(ConfirmEnd::BloodbathFailed),
            ),
            (ConfirmStage::AwaitAttacker, ConfirmEvent::ApiFailed) => (
                done,
                ConfirmAction::Finish(ConfirmEnd::ApiError),
            ),
            (ConfirmStage::AwaitDefender, ConfirmEvent::ApiFailed) => (
                done,
                ConfirmAction::Finish(ConfirmEnd::ApiError),
            ),
            (ConfirmStage::AwaitItemUse, ConfirmEvent::ApiFailed) => (
                done,
                ConfirmAction::Finish(ConfirmEnd::ApiError),
            ),
            _ => (f, ConfirmAction::Ignore),
        }
    }
}


/// What the confirmation message says when the flow ends: the refusal, the
/// API's error, or how the duel went.
pub open spec fn confirm_end_text_spec(end: ConfirmEnd, item: Seq<char>, api_error: Seq<char>) -> Seq<char> {
    match end {
        ConfirmEnd::Refused(r) => confirm_refusal_text_spec(r, item),
        ConfirmEnd::ApiError => "Erreur API : "@ + api_error,
        ConfirmEnd::CombatError => "Erreur creation combat : "@ + api_error,
        ConfirmEnd::SurpriseResolved => "\u{2705} Defi surprise resolu !"@,
        ConfirmEnd::SurpriseFailed => "\u{26a0}\u{fe0f} Defi surprise lance mais la resolution a echoue (voir logs bot)."@,
        ConfirmEnd::BloodbathResolved => "\u{2705} Defi Bloodbath resolu !"@,
        ConfirmEnd::BloodbathFailed => "\u{26a0}\u{fe0f} Defi Bloodbath lance mais la resolution a echoue."@,
        ConfirmEnd::ChallengePosted => "\u{2705} Defi envoye dans le salon combats !"@,
    }
}

/// See `confirm_end_text_spec`.
pub fn confirm_end_text(end: ConfirmEnd, item: &str, api_error: &str) -> (s: String)
    ensures
        s@ == confirm_end_text_spec(end, item@, api_error@),
{
    match end {
        ConfirmEnd::Refused(r) => confirm_refusal_text(r, item),
        ConfirmEnd::ApiError => {
            let mut s = owned("Erreur API : ");
            push_str(&mut s, api_error);
            s
        },
        ConfirmEnd::CombatError => {
            let mut s = owned("Erreur creation combat : ");
            push_str(&mut s, api_error);
            s
        },
        ConfirmEnd::SurpriseResolved => owned("\u{2705} Defi surprise resolu !"),
        ConfirmEnd::SurpriseFailed => owned(
            "\u{26a0}\u{fe0f} Defi surprise lance mais la resolution a echoue (voir logs bot).",
        ),
        ConfirmEnd::BloodbathResolved => owned("\u{2705} Defi Bloodbath resolu !"),
        ConfirmEnd::BloodbathFailed => owned("\u{26a0}\u{fe0f} Defi Bloodbath lance mais la resolution a echoue."),
        ConfirmEnd::ChallengePosted => owned("\u{2705} Defi envoye dans le salon combats !"),
    }
}

/// Order of the stages along the confirmation.
pub open spec fn stage_rank(s: ConfirmStage) -> int {
    match s {
        ConfirmStage::Start => 0,
        ConfirmStage::AwaitAttacker => 1,
        ConfirmStage::AwaitPending => 2,
        ConfirmStage::AwaitDefender => 3,
        ConfirmStage::AwaitItemCheck => 4,
        ConfirmStage::AwaitItemUse => 5,
        ConfirmStage::AwaitCombat => 6,
        ConfirmStage::AwaitSurprise => 7,
        ConfirmStage::AwaitEvents => 8,
        ConfirmStage::AwaitBloodbath => 9,
        ConfirmStage::Done => 10,
    }
}

/// What every confirmation keeps: the checks passed so far hold from the
/// stage after them on, and the item is used (only with a special attack)
/// exactly once the flow went past its use.
pub open spec fn confirm_flow_inv(f: ConfirmFlow) -> bool {
    let r = stage_rank(f.stage);
    &&& f.surprise ==> f.has_special
    &&& 2 <= r <= 9 ==> f.coins >= f.mise && hp_percent_spec(hp_or_full(f.hp_current), hp_or_full(f.hp_max)) >= 10
    &&& 3 <= r <= 9 ==> !f.pending
    &&& 5 <= r <= 9 ==> (f.has_special ==> f.has_item) && f.has_combat_channel
    &&& 6 <= r <= 9 ==> (f.has_special ==> f.item_used)
    &&& r <= 5 ==> !f.item_used
    &&& 4 <= r <= 5 ==> f.has_special
    &&& f.item_used ==> f.has_special
}

/// A confirmation starts in a state that keeps `confirm_flow_inv`.
pub proof fn lemma_confirm_start_inv(mise: i64, special: Seq<char>, has_combat_channel: bool)
    ensures
        confirm_flow_inv(confirm_start_spec(mise, special, has_combat_channel)),
{
    reveal_strlit("-");
    reveal_strlit("surprise");
    if special == "surprise"@ {
        assert(special[0] != "-"@[0]);
    }
}

/// The item of a special attack is used only once every check of the
/// confirmation passed (`confirm_spec` accepts with that item), never
/// twice, and the next step after its use creates the combat (or reports
/// the failed use); a combat is created only once every check passed and
/// the item, if any, was used.
pub proof fn law_item_used_only_after_every_check(f: ConfirmFlow, e: ConfirmEvent, special: Seq<char>)
    requires
        confirm_flow_inv(f),
        (special != "-"@) == f.has_special,
    ensures
        confirm_flow_inv(confirm_step_spec(f, e).0),
        confirm_step_spec(f, e).1 == ConfirmAction::UseItem ==> {
            let g = confirm_step_spec(f, e).0;
            &&& !f.item_used
            &&& g.stage == ConfirmStage::AwaitItemUse
            &&& confirm_spec(g.coins, g.mise, g.hp_current, g.hp_max, g.pending, special, g.has_item, g.has_combat_channel)
                == Ok::<Option<Seq<char>>, ConfirmRefusal>(Some(special))
        },
        confirm_step_spec(f, e).1 == ConfirmAction::CreateCombat ==> {
            let g = confirm_step_spec(f, e).0;
            &&& confirm_spec(g.coins, g.mise, g.hp_current, g.hp_max, g.pending, special, g.has_item, g.has_combat_channel) is Ok
            &&& (g.has_special ==> g.item_used)
        },
        f.stage == ConfirmStage::AwaitItemUse ==> confirm_step_spec(f, e).1 == ConfirmAction::CreateCombat
            || confirm_step_spec(f, e).1 == ConfirmAction::Finish(ConfirmEnd::ApiError)
            || confirm_step_spec(f, e).1 == ConfirmAction::Ignore,
{
    let (g, a) = confirm_step_spec(f, e);
    match e {
        ConfirmEvent::Attacker { coins, hp_current, hp_max } => {
            if f.stage == ConfirmStage::AwaitAttacker {
                assert(g.coins == coins && g.hp_current == hp_current && g.hp_max == hp_max);
            }
        },
        ConfirmEvent::ItemChecked { owned } => {
            if f.stage == ConfirmStage::AwaitItemCheck {
                assert(g.has_item == owned);
            }
        },
        _ => {},
    }
}

/// A challenge is offered only to another player who is not a bot, by an
/// attacker with at least a tenth of its hit points, for a bet within the
/// guild's limits that the attacker can pay, without a pending challenge,
/// with the special attack's item, against a defender who owns coins; and
/// the most the attacker can win is capped by the defender's coins.
pub proof fn law_offered_challenge_is_valid(f: ChallengeFacts)
    requires
        challenge_spec(f) is Ok,
    ensures
        f.target_id != f.attacker_id,
        !f.target_is_bot,
        hp_percent_spec(hp_or_full(f.hp_current), hp_or_full(f.hp_max)) >= 10,
        f.min_bet <= f.mise <= f.max_bet,
        f.attacker_coins >= f.mise,
        !f.pending,
        f.special is Some ==> f.has_item,
        f.defender_coins > 0,
        (challenge_spec(f)->Ok_0.defender_cap is Some) <==> f.defender_coins < f.mise,
{
}

/// A confirmed challenge goes on only when the attacker still pays the
/// bet, keeps a tenth of its hit points, has no other pending challenge,
/// still owns the item, and the duel channel is set.
pub proof fn law_confirmed_challenge_is_valid(
    coins: i64,
    mise: i64,
    hp_current: Option<i64>,
    hp_max: Option<i64>,
    pending: bool,
    special: Seq<char>,
    has_item: bool,
    has_combat_channel: bool,
)
    requires
        confirm_spec(coins, mise, hp_current, hp_max, pending, special, has_item, has_combat_channel) is Ok,
    ensures
        coins >= mise,
        hp_percent_spec(hp_or_full(hp_current), hp_or_full(hp_max)) >= 10,
        !pending,
        special != "-"@ ==> has_item,
        has_combat_channel,
{
}


/// A challenge is offered exactly when the target is another player who is
/// not a bot, the attacker has a tenth of its hit points, the level gap is
/// allowed, the bet is within the guild's limits and the attacker can pay
/// it, no challenge is pending, the special attack's item is owned and the
/// defender has coins; each refusal names a condition that failed.
pub proof fn law_valid_challenge_is_offered(f: ChallengeFacts)
    ensures
        challenge_spec(f) is Ok <==> (f.target_id != f.attacker_id && !f.target_is_bot && hp_percent_spec(
            hp_or_full(f.hp_current),
            hp_or_full(f.hp_max),
        ) >= 10 && !f.level_gap_blocked && f.min_bet <= f.mise <= f.max_bet && f.attacker_coins >= f.mise
            && !f.pending && (f.special is Some ==> f.has_item) && f.defender_coins > 0),
        challenge_spec(f) matches Err(ChallengeRefusal::NotEnoughCoins { coins, mise }) ==> f.attacker_coins
            < f.mise && coins == f.attacker_coins && mise == f.mise,
        challenge_spec(f) == Err::<ChallengeOffer, ChallengeRefusal>(ChallengeRefusal::SelfChallenge) ==> f.target_id
            == f.attacker_id,
        challenge_spec(f) == Err::<ChallengeOffer, ChallengeRefusal>(ChallengeRefusal::TargetIsBot) ==> f.target_is_bot,
        challenge_spec(f) == Err::<ChallengeOffer, ChallengeRefusal>(ChallengeRefusal::AlreadyPending) ==> f.pending,
        challenge_spec(f) == Err::<ChallengeOffer, ChallengeRefusal>(ChallengeRefusal::MissingItem) ==> f.special
            is Some && !f.has_item,
        challenge_spec(f) matches Err(ChallengeRefusal::BetTooLow { min }) ==> f.mise < f.min_bet,
        challenge_spec(f) matches Err(ChallengeRefusal::BetTooHigh { max }) ==> f.mise > f.max_bet,
        challenge_spec(f) matches Err(ChallengeRefusal::DefenderBroke { target_id }) ==> f.defender_coins <= 0,
        challenge_spec(f) matches Err(ChallengeRefusal::LowHp { .. }) ==> hp_percent_spec(
            hp_or_full(f.hp_current),
            hp_or_full(f.hp_max),
        ) < 10,
        challenge_spec(f) matches Err(ChallengeRefusal::LevelGap { .. }) ==> f.level_gap_blocked,
{
}

} // verus!
