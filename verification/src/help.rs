//! The suggestions of `/aide`: what a player can do now, by priority.

use vstd::prelude::*;
use crate::text::{int_text, owned, push_i64, push_str};

verus! {

/// What `/aide` reads of a player.
#[derive(Clone, Debug)]
pub struct HelpFacts {
    pub hp_current: Option<i64>,
    pub hp_max: Option<i64>,
    pub stat_points: i64,
    pub class: Option<String>,
    pub total_wins: i64,
    pub total_losses: i64,
    pub total_draws: i64,
    pub coins: i64,
}

/// The theme of the current season.
#[derive(Clone, Debug)]
pub struct SeasonTheme {
    pub emoji: String,
    pub label: String,
    pub tagline: String,
}

/// One suggestion: a field name and its text.
#[derive(Clone, Debug)]
pub struct Tip {
    pub name: String,
    pub value: String,
}

pub open spec fn tip_views(v: Seq<Tip>) -> Seq<(Seq<char>, Seq<char>)> {
    v.map_values(|t: Tip| (t.name@, t.value@))
}

/// At most this many suggestions are shown.
pub const MAX_TIPS: usize = 6;

/// Low hit points: below a quarter of a positive maximum.
pub open spec fn low_hp(f: HelpFacts) -> bool {
    match (f.hp_current, f.hp_max) {
        (Some(hp), Some(max)) => max > 0 && hp * 4 < max,
        _ => false,
    }
}

pub open spec fn no_class(f: HelpFacts) -> bool {
    match f.class {
        None => true,
        Some(c) => c@.len() == 0,
    }
}

pub open spec fn one_if(cond: bool, t: (Seq<char>, Seq<char>)) -> Seq<(Seq<char>, Seq<char>)> {
    if cond { seq![t] } else { Seq::empty() }
}

/// Every suggestion that applies, by decreasing priority: low hit points,
/// unspent stat points, no class, never fought, a low positive balance,
/// then always the wheel, the server pot, the profile and the season.
pub open spec fn all_tips_spec(f: HelpFacts, theme: SeasonTheme) -> Seq<(Seq<char>, Seq<char>)> {
    one_if(low_hp(f), (
        "\u{2764}\u{fe0f} HP bas"@,
        "Tu es a **"@ + int_text(f.hp_current.unwrap() as int) + "/"@ + int_text(f.hp_max.unwrap() as int)
            + " HP**. Tape `/repos` pour recuperer ou utilise une `/potion` si tu en as une."@,
    ))
    + one_if(f.stat_points > 0, (
        "\u{1f3af} Points de stat libres"@,
        "Tu as **"@ + int_text(f.stat_points as int)
            + "** points non depenses. Tape `/train` pour les placer en ATK ou DEF."@,
    ))
    + one_if(no_class(f), (
        "\u{2694}\u{fe0f} Choisis ta classe"@,
        "Tape `/classe` pour choisir entre Bourrin / Tacticien / Sournois — chacune a un passif different."@,
    ))
    + one_if(f.total_wins + f.total_losses + f.total_draws == 0, (
        "\u{1f44a} Premier combat"@,
        "Tu n as jamais combattu ! Tente un `/coude @qqun 20` (mise basse pour t echauffer)."@,
    ))
    + one_if(0 < f.coins < 100, (
        "\u{1f4b8} Solde tres bas"@,
        "Tu as seulement **"@ + int_text(f.coins as int)
            + "c**. Spin `/wheel` (gratuit, 1×/jour) ou tente `/braquage` pour remonter la pente."@,
    ))
    + seq![
        (
            "\u{1faaf} Roue du destin"@,
            "Tu peux spinner la roue 1× par jour avec `/wheel` — c est gratuit et ca peut taper jusqu a 10000c."@,
        ),
        (
            "\u{1f3e6} Cagnotte serveur"@,
            "`/cagnotte` montre combien d argent dort dans la caisse — alimentee par les taxes / primes / pranks."@,
        ),
        (
            "\u{1f4cb} Ton profil"@,
            "`/profil` affiche tout : HP, stats, classe, malediction, assurance, inventaire."@,
        ),
        ("\u{1f3ad} Saison en cours"@, theme.emoji@ + " **"@ + theme.label@ + "** — "@ + theme.tagline@),
    ]
}

/// The suggestions shown: the first `MAX_TIPS` of those that apply.
pub open spec fn help_tips_spec(f: HelpFacts, theme: SeasonTheme) -> Seq<(Seq<char>, Seq<char>)> {
    let all = all_tips_spec(f, theme);
    if all.len() <= MAX_TIPS {
        all
    } else {
        all.take(MAX_TIPS as int)
    }
}

fn tip(name: &str, value: String) -> (t: Tip)
    ensures
        t.name@ == name@,
        t.value@ == value@,
{
    Tip { name: owned(name), value }
}

/// See `help_tips_spec`.
pub fn help_tips(f: &HelpFacts, theme: &SeasonTheme) -> (r: Vec<Tip>)
    ensures
        tip_views(r@) == help_tips_spec(*f, *theme),
{
    let mut tips: Vec<Tip> = Vec::new();
    let ghost mut expected: Seq<(Seq<char>, Seq<char>)> = Seq::empty();

    let low = match (f.hp_current, f.hp_max) {
        (Some(hp), Some(max)) => max > 0 && (hp as i128) * 4 < max as i128,
        _ => false,
    };
    if low {
        let mut v = owned("Tu es a **");
        push_i64(&mut v, f.hp_current.unwrap());
        push_str(&mut v, "/");
        push_i64(&mut v, f.hp_max.unwrap());
        push_str(&mut v, " HP**. Tape `/repos` pour recuperer ou utilise une `/potion` si tu en as une.");
        tips.push(tip("\u{2764}\u{fe0f} HP bas", v));
    }
    proof {
        expected = one_if(low_hp(*f), (
            "\u{2764}\u{fe0f} HP bas"@,
            "Tu es a **"@ + int_text(f.hp_current.unwrap() as int) + "/"@ + int_text(f.hp_max.unwrap() as int)
                + " HP**. Tape `/repos` pour recuperer ou utilise une `/potion` si tu en as une."@,
        ));
        assert(tip_views(tips@) =~= expected);
    }

    if f.stat_points > 0 {
        let mut v = owned("Tu as **");
        push_i64(&mut v, f.stat_points);
        push_str(&mut v, "** points non depenses. Tape `/train` pour les placer en ATK ou DEF.");
        tips.push(tip("\u{1f3af} Points de stat libres", v));
    }
    proof {
        expected = expected + one_if(f.stat_points > 0, (
            "\u{1f3af} Points de stat libres"@,
            "Tu as **"@ + int_text(f.stat_points as int)
                + "** points non depenses. Tape `/train` pour les placer en ATK ou DEF."@,
        ));
        assert(tip_views(tips@) =~= expected);
    }

    let classless = match &f.class {
        None => true,
        Some(c) => c.as_str().is_empty(),
    };
    assert(classless == no_class(*f));
    if classless {
        tips.push(tip(
            "\u{2694}\u{fe0f} Choisis ta classe",
            owned("Tape `/classe` pour choisir entre Bourrin / Tacticien / Sournois — chacune a un passif different."),
        ));
    }
    proof {
        expected = expected + one_if(no_class(*f), (
            "\u{2694}\u{fe0f} Choisis ta classe"@,
            "Tape `/classe` pour choisir entre Bourrin / Tacticien / Sournois — chacune a un passif different."@,
        ));
        assert(tip_views(tips@) =~= expected);
    }

    let never_fought = (f.total_wins as i128) + (f.total_losses as i128) + (f.total_draws as i128) == 0;
    assert(never_fought == (f.total_wins + f.total_losses + f.total_draws == 0));
    if never_fought {
        tips.push(tip(
            "\u{1f44a} Premier combat",
            owned("Tu n as jamais combattu ! Tente un `/coude @qqun 20` (mise basse pour t echauffer)."),
        ));
    }
    proof {
        expected = expected + one_if(f.total_wins + f.total_losses + f.total_draws == 0, (
            "\u{1f44a} Premier combat"@,
            "Tu n as jamais combattu ! Tente un `/coude @qqun 20` (mise basse pour t echauffer)."@,
        ));
        assert(tip_views(tips@) =~= expected);
    }

    if f.coins > 0 && f.coins < 100 {
        let mut v = owned("Tu as seulement **");
        push_i64(&mut v, f.coins);
        push_str(&mut v, "c**. Spin `/wheel` (gratuit, 1×/jour) ou tente `/braquage` pour remonter la pente.");
        tips.push(tip("\u{1f4b8} Solde tres bas", v));
    }
    proof {
        expected = expected + one_if(0 < f.coins < 100, (
            "\u{1f4b8} Solde tres bas"@,
            "Tu as seulement **"@ + int_text(f.coins as int)
                + "c**. Spin `/wheel` (gratuit, 1×/jour) ou tente `/braquage` pour remonter la pente."@,
        ));
        assert(tip_views(tips@) =~= expected);
    }

    tips.push(tip(
        "\u{1faaf} Roue du destin",
        owned("Tu peux spinner la roue 1× par jour avec `/wheel` — c est gratuit et ca peut taper jusqu a 10000c."),
    ));
    tips.push(tip(
        "\u{1f3e6} Cagnotte serveur",
        owned("`/cagnotte` montre combien d argent dort dans la caisse — alimentee par les taxes / primes / pranks."),
    ));
    tips.push(tip(
        "\u{1f4cb} Ton profil",
        owned("`/profil` affiche tout : HP, stats, classe, malediction, assurance, inventaire."),
    ));
    let mut season = owned(theme.emoji.as_str());
    push_str(&mut season, " **");
    push_str(&mut season, theme.label.as_str());
    push_str(&mut season, "** — ");
    push_str(&mut season, theme.tagline.as_str());
    tips.push(tip("\u{1f3ad} Saison en cours", season));
    proof {
        assert(tip_views(tips@) =~= all_tips_spec(*f, *theme));
    }
    let ghost all = tips@;
    tips.truncate(MAX_TIPS);
    proof {
        if MAX_TIPS <= all.len() {
            assert(tips@ =~= all.subrange(0, MAX_TIPS as int));
            assert(tip_views(tips@).len() == MAX_TIPS);
            assert forall|q: int| 0 <= q < MAX_TIPS implies tip_views(tips@)[q] == tip_views(all)[q] by {
                assert(tips@[q] == all[q]);
            }
        } else {
            assert(tips@ =~= all);
        }
    }
    tips
}

/// `/aide` always shows between four and six suggestions: the standing
/// ones are never cut below four.
pub proof fn law_four_to_six_tips(f: HelpFacts, theme: SeasonTheme)
    ensures
        4 <= help_tips_spec(f, theme).len() <= MAX_TIPS,
{
    let all = all_tips_spec(f, theme);
    assert(all.len() >= 4);
}

} // verus!
