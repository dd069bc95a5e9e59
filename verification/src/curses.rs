//! Curses (`/maudire`), sabotages (`/saboter`), thief boosts
//! (`/boost-voleur`) and friendly duels (`/coude-amical`): their gates and
//! texts.

use vstd::prelude::*;
use crate::text::{contains, contains_seq, int_text, lowercase_of, owned, push_i64, push_str, str_eq, to_lowercase};

verus! {

/// Why a curse or a sabotage is refused before the API is asked.
#[derive(PartialEq, Eq, Structural, Clone, Copy, Debug)]
pub enum TargetRefusal {
    Yourself,
    Bot,
}

/// The target gate: nobody curses or sabotages themselves or a bot.
pub fn target_gate(source_id: u64, target_id: u64, target_is_bot: bool) -> (r: Option<TargetRefusal>)
    ensures
        r == (if source_id == target_id {
            Some(TargetRefusal::Yourself)
        } else if target_is_bot {
            Some(TargetRefusal::Bot)
        } else {
            None
        }),
{
    if source_id == target_id {
        Some(TargetRefusal::Yourself)
    } else if target_is_bot {
        Some(TargetRefusal::Bot)
    } else {
        None
    }
}

/// The sentence of a refused target, for a curse or a sabotage.
pub fn target_refusal_text(r: TargetRefusal, sabotage: bool) -> (s: String)
    ensures
        s@ == match r {
            TargetRefusal::Yourself => if sabotage {
                "Tu ne peux pas te saboter toi-meme !"@
            } else {
                "Tu ne peux pas te maudire toi-meme !"@
            },
            TargetRefusal::Bot => if sabotage {
                "Pas de sabotage contre un bot !"@
            } else {
                "Tu ne peux pas maudire un bot !"@
            },
        },
{
    match r {
        TargetRefusal::Yourself => if sabotage {
            owned("Tu ne peux pas te saboter toi-meme !")
        } else {
            owned("Tu ne peux pas te maudire toi-meme !")
        },
        TargetRefusal::Bot => if sabotage {
            owned("Pas de sabotage contre un bot !")
        } else {
            owned("Tu ne peux pas maudire un bot !")
        },
    }
}

/// What the player reads when the API refuses a curse (or a sabotage):
/// an effect already active, oneself as target (curses only), a short
/// balance (told from the lower-cased error), or the raw error.
pub open spec fn curse_error_spec(e: Seq<char>, sabotage: bool) -> Seq<char> {
    if contains_seq(e, "deja active"@) {
        if sabotage {
            "Cette cible a deja un effet actif (malediction ou sabotage). Attends qu il expire."@
        } else {
            "Cette cible a deja une malediction active. Attends qu elle expire."@
        }
    } else if !sabotage && contains_seq(e, "toi-meme"@) {
        "Tu ne peux pas te maudire toi-meme !"@
    } else if contains_seq(lowercase_of(e), "solde"@) || contains_seq(lowercase_of(e), "insufficient"@) {
        if sabotage {
            "Pas assez de coins (150c minimum)."@
        } else {
            "Pas assez de coins (300c minimum)."@
        }
    } else {
        "Erreur API : "@ + e
    }
}

/// The sentence for an error of the API on a curse or a sabotage.
pub fn curse_error_text(e: &str, sabotage: bool) -> (s: String)
    ensures
        s@ == curse_error_spec(e@, sabotage),
{
    if contains(e, "deja active") {
        return if sabotage {
            owned("Cette cible a deja un effet actif (malediction ou sabotage). Attends qu il expire.")
        } else {
            owned("Cette cible a deja une malediction active. Attends qu elle expire.")
        };
    }
    if !sabotage && contains(e, "toi-meme") {
        return owned("Tu ne peux pas te maudire toi-meme !");
    }
    let low = to_lowercase(e);
    if contains(low.as_str(), "solde") || contains(low.as_str(), "insufficient") {
        return if sabotage {
            owned("Pas assez de coins (150c minimum).")
        } else {
            owned("Pas assez de coins (300c minimum).")
        };
    }
    let mut s = owned("Erreur API : ");
    push_str(&mut s, e);
    s
}

/// The announcement of a curse: who cursed whom with what, for a day, its
/// price and twice that price to lift it.
pub fn curse_cast_text(source_id: u64, target_id: u64, kind_label: &str, cost_paid: i64) -> (s: String)
    requires
        i64::MIN <= cost_paid * 2 <= i64::MAX,
    ensures
        s@ == "<@"@ + int_text(source_id as int) + "> a maudit <@"@ + int_text(target_id as int) + "> avec **"@
            + kind_label@ + "** !\n\nDuree : 24h. Cout : "@ + int_text(cost_paid as int)
            + "c.\nLa cible peut lever en payant "@ + int_text(cost_paid * 2) + "c via `/profil`."@,
{
    let mut s = owned("<@");
    crate::text::push_u64(&mut s, source_id);
    push_str(&mut s, "> a maudit <@");
    crate::text::push_u64(&mut s, target_id);
    push_str(&mut s, "> avec **");
    push_str(&mut s, kind_label);
    push_str(&mut s, "** !\n\nDuree : 24h. Cout : ");
    push_i64(&mut s, cost_paid);
    push_str(&mut s, "c.\nLa cible peut lever en payant ");
    push_i64(&mut s, cost_paid * 2);
    push_str(&mut s, "c via `/profil`.");
    s
}

/// The effect of a sabotage, by kind.
pub open spec fn sabotage_effect_spec(kind: Seq<char>, target_id: u64, source_id: u64) -> Seq<char> {
    if kind == "pancarte"@ {
        "<@"@ + int_text(target_id as int) + "> est marque \u{ab} Rival officiel de <@"@ + int_text(source_id as int)
            + "> \u{bb} pendant 7 jours, visible dans son `/profil`."@
    } else if kind == "graisser"@ {
        "La **prochaine attaque speciale** de <@"@ + int_text(target_id as int)
            + "> en combat foire automatiquement. Effet consume au 1er combat (sinon expire en 24h)."@
    } else {
        "Effet inconnu sur <@"@ + int_text(target_id as int) + ">."@
    }
}

/// The effect line of a sabotage.
pub fn sabotage_effect(kind: &str, target_id: u64, source_id: u64) -> (s: String)
    ensures
        s@ == sabotage_effect_spec(kind@, target_id, source_id),
{
    let mut s = String::new();
    if str_eq(kind, "pancarte") {
        push_str(&mut s, "<@");
        crate::text::push_u64(&mut s, target_id);
        push_str(&mut s, "> est marque \u{ab} Rival officiel de <@");
        crate::text::push_u64(&mut s, source_id);
        push_str(&mut s, "> \u{bb} pendant 7 jours, visible dans son `/profil`.");
    } else if str_eq(kind, "graisser") {
        push_str(&mut s, "La **prochaine attaque speciale** de <@");
        crate::text::push_u64(&mut s, target_id);
        push_str(
            &mut s,
            "> en combat foire automatiquement. Effet consume au 1er combat (sinon expire en 24h).",
        );
    } else {
        push_str(&mut s, "Effet inconnu sur <@");
        crate::text::push_u64(&mut s, target_id);
        push_str(&mut s, ">.");
    }
    s
}

// ───────────────────────── thief boosts ─────────────────────────

/// The boost items: key and label.
pub open spec fn boost_items_spec() -> Seq<(Seq<char>, Seq<char>)> {
    seq![
        ("crochet"@, "\u{1f527} Crochet (+5 au roll)"@),
        ("passe_partout"@, "\u{1f5dd}\u{fe0f} Passe-partout (+10 au roll)"@),
        ("deguisement"@, "\u{1f977} Deguisement (+15 au roll)"@),
        ("fumigene"@, "\u{1f4a8} Fumigene (+20 au roll)"@),
        ("marteau"@, "\u{1fa9a} Marteau (+25 au roll)"@),
    ]
}

/// The label of a boost item, when the key is one of them.
pub fn boost_item_label(key: &str) -> (r: Option<&'static str>)
    ensures
        match r {
            Some(l) => exists|i: int| 0 <= i < 5 && #[trigger] boost_items_spec()[i] == (key@, l@),
            None => forall|i: int| 0 <= i < 5 ==> (#[trigger] boost_items_spec()[i]).0 != key@,
        },
{
    let keys: Vec<&'static str> = vec!["crochet", "passe_partout", "deguisement", "fumigene", "marteau"];
    let labels: Vec<&'static str> = vec![
        "\u{1f527} Crochet (+5 au roll)",
        "\u{1f5dd}\u{fe0f} Passe-partout (+10 au roll)",
        "\u{1f977} Deguisement (+15 au roll)",
        "\u{1f4a8} Fumigene (+20 au roll)",
        "\u{1fa9a} Marteau (+25 au roll)",
    ];
    let ghost items = boost_items_spec();
    assert(forall|i: int| 0 <= i < 5 ==> #[trigger] items[i] == (keys@[i]@, labels@[i]@));
    for i in 0..5
        invariant
            keys@.len() == 5,
            labels@.len() == 5,
            items == boost_items_spec(),
            forall|j: int| 0 <= j < 5 ==> #[trigger] items[j] == (keys@[j]@, labels@[j]@),
            forall|j: int| 0 <= j < i ==> (#[trigger] items[j]).0 != key@,
    {
        if str_eq(keys[i], key) {
            assert(items[i as int] == (key@, labels@[i as int]@));
            return Some(labels[i]);
        }
    }
    None
}

// ───────────────────────── friendly duels ─────────────────────────

/// The title of a friendly duel: a draw, the winner among the two, or a
/// plain title.
pub open spec fn friendly_title_spec(draw: bool, winner: Option<Seq<char>>, attacker: Seq<char>, defender: Seq<char>) -> Seq<
    char,
> {
    if draw {
        "\u{1f91d} Duel amical \u{2014} Egalite"@
    } else if winner == Some(attacker) {
        "\u{1f3c6} Duel amical \u{2014} Victoire de <@"@ + attacker + ">"@
    } else if winner == Some(defender) {
        "\u{1f3c6} Duel amical \u{2014} Victoire de <@"@ + defender + ">"@
    } else {
        "\u{1f91d} Duel amical"@
    }
}

/// The title of a friendly duel's result.
pub fn friendly_title(draw: bool, winner: &Option<String>, attacker: &str, defender: &str) -> (s: String)
    ensures
        s@ == friendly_title_spec(
            draw,
            match winner {
                Some(w) => Some(w@),
                None => None,
            },
            attacker@,
            defender@,
        ),
{
    if draw {
        return owned("\u{1f91d} Duel amical \u{2014} Egalite");
    }
    let w = match winner {
        Some(w) => w.as_str(),
        None => return owned("\u{1f91d} Duel amical"),
    };
    if str_eq(w, attacker) {
        let mut s = owned("\u{1f3c6} Duel amical \u{2014} Victoire de <@");
        push_str(&mut s, attacker);
        push_str(&mut s, ">");
        s
    } else if str_eq(w, defender) {
        let mut s = owned("\u{1f3c6} Duel amical \u{2014} Victoire de <@");
        push_str(&mut s, defender);
        push_str(&mut s, ">");
        s
    } else {
        owned("\u{1f91d} Duel amical")
    }
}

/// The XP line of a friendly duel.
pub fn friendly_xp_line(draw: bool, winner_xp: i64, loser_xp: i64) -> (s: String)
    ensures
        s@ == (if draw {
            "\u{2b06}\u{fe0f} +"@ + int_text(loser_xp as int) + " XP pour les deux (egalite)"@
        } else {
            "\u{2b06}\u{fe0f} +"@ + int_text(winner_xp as int) + " XP pour le gagnant, +"@ + int_text(
                loser_xp as int,
            ) + " XP pour le perdant"@
        }),
{
    let mut s = owned("\u{2b06}\u{fe0f} +");
    if draw {
        push_i64(&mut s, loser_xp);
        push_str(&mut s, " XP pour les deux (egalite)");
    } else {
        push_i64(&mut s, winner_xp);
        push_str(&mut s, " XP pour le gagnant, +");
        push_i64(&mut s, loser_xp);
        push_str(&mut s, " XP pour le perdant");
    }
    s
}

} // verus!
