//! Community pranks (`/prank`) and prison chores (`/travaux`): which are
//! allowed, what they cost and what they say.

use rand::Rng;
use vstd::prelude::*;
use crate::config::u64_setting;
use crate::guild_config::CoudeConfig;
use crate::text::{int_text, owned, push_i64, push_str, replace, replace_spec, str_eq};

verus! {

/// The kinds of prank.
#[derive(PartialEq, Eq, Structural, Clone, Copy, Debug)]
pub enum PrankKind {
    /// A fake heist alert in the activity channel.
    Braquage,
    /// A fake scoop about a member.
    Scoop,
    /// A fake call sent to a member in private.
    Appel,
}

/// Reads a prank kind.
pub fn prank_kind(name: &str) -> (k: Option<PrankKind>)
    ensures
        k == (if name@ == "braquage"@ {
            Some(PrankKind::Braquage)
        } else if name@ == "scoop"@ {
            Some(PrankKind::Scoop)
        } else if name@ == "appel"@ {
            Some(PrankKind::Appel)
        } else {
            None
        }),
{
    if str_eq(name, "braquage") {
        Some(PrankKind::Braquage)
    } else if str_eq(name, "scoop") {
        Some(PrankKind::Scoop)
    } else if str_eq(name, "appel") {
        Some(PrankKind::Appel)
    } else {
        None
    }
}

/// Price of a prank from the guild configuration.
pub open spec fn prank_cost_spec(cfg: &CoudeConfig, k: PrankKind) -> i64 {
    match k {
        PrankKind::Braquage => u64_setting(&cfg.raw, "prank_braquage_cost"@, 100) as i64,
        PrankKind::Scoop => u64_setting(&cfg.raw, "prank_scoop_cost"@, 200) as i64,
        PrankKind::Appel => u64_setting(&cfg.raw, "prank_appel_cost"@, 50) as i64,
    }
}

/// Why a prank is refused.
#[derive(PartialEq, Eq, Structural, Clone, Copy, Debug)]
pub enum PrankRefusal {
    UnknownKind,
    NeedsTarget,
    BotTarget,
    NotEnoughCoins { cost: i64 },
}

/// The checks of `/prank`, in order: a known kind, a target (not a bot)
/// for the scoop and the call, and enough coins. On success, the kind and
/// its price.
pub open spec fn prank_spec(
    cfg: &CoudeConfig,
    kind: Seq<char>,
    target_is_bot: Option<bool>,
    coins: i64,
) -> Result<(PrankKind, i64), PrankRefusal> {
    let k = if kind == "braquage"@ {
        Some(PrankKind::Braquage)
    } else if kind == "scoop"@ {
        Some(PrankKind::Scoop)
    } else if kind == "appel"@ {
        Some(PrankKind::Appel)
    } else {
        None
    };
    match k {
        None => Err(PrankRefusal::UnknownKind),
        Some(k) => {
            let cost = prank_cost_spec(cfg, k);
            if k != PrankKind::Braquage && target_is_bot is None {
                Err(PrankRefusal::NeedsTarget)
            } else if k != PrankKind::Braquage && target_is_bot == Some(true) {
                Err(PrankRefusal::BotTarget)
            } else if coins < cost {
                Err(PrankRefusal::NotEnoughCoins { cost })
            } else {
                Ok((k, cost))
            }
        },
    }
}

/// Decides whether a prank goes ahead; `target_is_bot` is `None` without
/// a target.
pub fn check_prank(cfg: &CoudeConfig, kind: &str, target_is_bot: Option<bool>, coins: i64) -> (r: Result<
    (PrankKind, i64),
    PrankRefusal,
>)
    ensures
        r == prank_spec(cfg, kind@, target_is_bot, coins),
{
    let k = match prank_kind(kind) {
        Some(k) => k,
        None => return Err(PrankRefusal::UnknownKind),
    };
    let cost = match k {
        PrankKind::Braquage => cfg.prank_braquage_cost(),
        PrankKind::Scoop => cfg.prank_scoop_cost(),
        PrankKind::Appel => cfg.prank_appel_cost(),
    };
    let needs_target = match k {
        PrankKind::Braquage => false,
        _ => true,
    };
    if needs_target {
        match target_is_bot {
            None => return Err(PrankRefusal::NeedsTarget),
            Some(true) => return Err(PrankRefusal::BotTarget),
            Some(false) => {},
        }
    }
    if coins < cost {
        return Err(PrankRefusal::NotEnoughCoins { cost });
    }
    Ok((k, cost))
}

/// The text of a refused prank.
pub fn prank_refusal_text(r: PrankRefusal) -> (s: String)
    ensures
        s@ == match r {
            PrankRefusal::UnknownKind => "Type de prank inconnu."@,
            PrankRefusal::NeedsTarget => "Ce prank necessite une cible."@,
            PrankRefusal::BotTarget => "Pas de prank contre un bot."@,
            PrankRefusal::NotEnoughCoins { cost } => "Pas assez de coins ! Il te faut "@ + int_text(cost as int)
                + "c."@,
        },
{
    match r {
        PrankRefusal::UnknownKind => owned("Type de prank inconnu."),
        PrankRefusal::NeedsTarget => owned("Ce prank necessite une cible."),
        PrankRefusal::BotTarget => owned("Pas de prank contre un bot."),
        PrankRefusal::NotEnoughCoins { cost } => {
            let mut s = owned("Pas assez de coins ! Il te faut ");
            push_i64(&mut s, cost);
            push_str(&mut s, "c.");
            s
        },
    }
}

/// The fake heist alert.
pub fn fake_heist_text(fake_amount: i64) -> (s: String)
    ensures
        s@ == "**ALERTE !** Un braquage est en cours !\nLa cagnotte serveur affiche **"@ + int_text(
            fake_amount as int,
        ) + " coins** !\n\nTout le monde sur le pont !!! \u{1f4b0}"@,
{
    let mut s = owned("**ALERTE !** Un braquage est en cours !\nLa cagnotte serveur affiche **");
    push_i64(&mut s, fake_amount);
    push_str(&mut s, " coins** !\n\nTout le monde sur le pont !!! \u{1f4b0}");
    s
}

/// A fake scoop: its template with `{cible}` replaced by the target's
/// mention.
pub fn scoop_text(template: &str, target_id: u64) -> (s: String)
    ensures
        s@ == replace_spec(template@, "{cible}"@, "<@"@ + int_text(target_id as int) + ">"@),
{
    proof {
        reveal_strlit("{cible}");
    }
    let mut mention = owned("<@");
    crate::text::push_u64(&mut mention, target_id);
    push_str(&mut mention, ">");
    replace(template, "{cible}", mention.as_str())
}

/// What the pranker reads after a fake call.
pub fn call_confirmation(target_id: u64, delivered: bool) -> (s: String)
    ensures
        s@ == (if delivered {
            "DM envoye a <@"@ + int_text(target_id as int)
                + "> ! Attends de voir s il essaie le `/claim` qui n existe pas... \u{1f608}"@
        } else {
            "Impossible d envoyer un DM a <@"@ + int_text(target_id as int)
                + "> (DM ferme ?). Tes coins sont quand meme partis, desole."@
        }),
{
    let mut s = String::new();
    if delivered {
        push_str(&mut s, "DM envoye a <@");
        crate::text::push_u64(&mut s, target_id);
        push_str(&mut s, "> ! Attends de voir s il essaie le `/claim` qui n existe pas... \u{1f608}");
    } else {
        push_str(&mut s, "Impossible d envoyer un DM a <@");
        crate::text::push_u64(&mut s, target_id);
        push_str(&mut s, "> (DM ferme ?). Tes coins sont quand meme partis, desole.");
    }
    s
}

// ───────────────────────── prison chores ─────────────────────────

/// Seconds between two chores.
pub const TRAVAUX_COOLDOWN_SECS: i64 = 7200;
/// Least coins of a successful chore.
pub const COINS_MIN: i64 = 50;
/// Most coins of a successful chore.
pub const COINS_MAX: i64 = 100;
/// XP of a successful chore.
pub const XP_PER_TASK: i64 = 5;

/// A number drawn at random between `lo` and `hi` included
/// (`rand::Rng::gen_range` over `lo..=hi` with the thread's generator).
/// Only the range is stated: the draw itself is chance.
#[verifier::external_body]
fn random_between(lo: i64, hi: i64) -> (x: i64)
    requires
        lo <= hi,
    ensures
        lo <= x <= hi,
{
    rand::thread_rng().gen_range(lo..=hi)
}

/// A fair coin (`rand::Rng::gen_ratio(1, 2)` with the thread's
/// generator): nothing is stated of the side it falls on.
#[verifier::external_body]
fn fair_coin() -> (b: bool) {
    rand::thread_rng().gen_ratio(1, 2)
}

/// The chores: key, title and story.
pub open spec fn tasks_spec() -> Seq<(Seq<char>, Seq<char>, Seq<char>)> {
    seq![
        (
            "clean"@,
            "\u{1f9f9} Nettoyer les cellules"@,
            "Tu prends une vadrouille et tu nettoies les vomissures des dernieres bagarres. Pas glorieux, mais ca paie."@,
        ),
        (
            "cook"@,
            "\u{1f373} Cuisiner pour les gardes"@,
            "Tu rejoins la cuisine, prepares des \u{153}ufs au plat trop cuits, sers les gardes en silence."@,
        ),
        (
            "inform"@,
            "\u{1f5e3}\u{fe0f} Informer la police"@,
            "Tu balances quelques rumeurs douteuses sur tes copegars. La police te paie en sourires gras."@,
        ),
    ]
}

pub open spec fn success_flavors_spec() -> Seq<Seq<char>> {
    seq![
        "Les gardes te tapent sur l epaule. \"T es un peu moins nul que prevu.\""@,
        "Personne ne t a vu glander. Bravo."@,
        "Le systeme penitentiaire te remercie pour ta contribution citoyenne."@,
        "Tu as evite de te faire poignarder. C est deja une victoire."@,
    ]
}

pub open spec fn fail_flavors_spec() -> Seq<Seq<char>> {
    seq![
        "Tu glisses sur une serpilliere. Les gardes rient. Tu n es pas paye."@,
        "Tu rates ta tache. Personne n est etonne."@,
        "Un detenu t a vu et te chambre depuis. Pas de coins aujourd hui."@,
        "Tu t es endormi a moitie. Reveille-toi quand tu veux travailler vraiment."@,
    ]
}

/// The answer while the chores' cooldown runs: whole minutes left, or
/// nothing once it is over.
pub fn travaux_wait(remaining_secs: i64) -> (r: Option<String>)
    ensures
        match r {
            Some(s) => remaining_secs > 0 && s@ == "Tu dois encore te reposer **"@ + int_text(
                remaining_secs as int / 60,
            ) + "m** avant la prochaine tache."@,
            None => remaining_secs <= 0,
        },
{
    if remaining_secs <= 0 {
        return None;
    }
    let mut s = owned("Tu dois encore te reposer **");
    push_i64(&mut s, remaining_secs / 60);
    push_str(&mut s, "m** avant la prochaine tache.");
    Some(s)
}

/// A chore done: which, how it went, the coins earned and the flavour.
pub struct ChoreOutcome {
    pub task: usize,
    pub success: bool,
    pub coins: i64,
    pub flavor: usize,
}

/// Draws a chore: one of the three tasks, a fair success, between 50 and
/// 100 coins when it succeeds (none otherwise), and a flavour of its
/// outcome.
pub fn draw_chore() -> (o: ChoreOutcome)
    ensures
        o.task < 3,
        o.flavor < 4,
        o.success ==> COINS_MIN <= o.coins <= COINS_MAX,
        !o.success ==> o.coins == 0,
{
    let task = crate::coude::random_index(3);
    let success = fair_coin();
    let coins = if success {
        random_between(COINS_MIN, COINS_MAX)
    } else {
        0
    };
    let flavor = crate::coude::random_index(4);
    ChoreOutcome { task, success, coins, flavor }
}

/// The title of a chore's report.
pub fn chore_title(task_label: &str, success: bool) -> (s: String)
    ensures
        s@ == (if success {
            "\u{2705} "@ + task_label@ + " \u{2014} Reussi !"@
        } else {
            "\u{274c} "@ + task_label@ + " \u{2014} Echec."@
        }),
{
    let mut s = String::new();
    if success {
        push_str(&mut s, "\u{2705} ");
        push_str(&mut s, task_label);
        push_str(&mut s, " \u{2014} Reussi !");
    } else {
        push_str(&mut s, "\u{274c} ");
        push_str(&mut s, task_label);
        push_str(&mut s, " \u{2014} Echec.");
    }
    s
}

/// The text of a chore's report.
pub fn chore_body(task_desc: &str, flavor: &str, success: bool, coins: i64) -> (s: String)
    ensures
        s@ == (if success {
            "_"@ + task_desc@ + "_\n\n"@ + flavor@ + "\n\n\u{1f4b0} **+"@ + int_text(coins as int) + "c** + **"@
                + int_text(5) + " XP**.\nProchaine tache dans 2h."@
        } else {
            "_"@ + task_desc@ + "_\n\n"@ + flavor@ + "\n\nProchaine tache dans 2h."@
        }),
{
    let mut s = owned("_");
    push_str(&mut s, task_desc);
    push_str(&mut s, "_\n\n");
    push_str(&mut s, flavor);
    if success {
        push_str(&mut s, "\n\n\u{1f4b0} **+");
        push_i64(&mut s, coins);
        push_str(&mut s, "c** + **");
        push_i64(&mut s, XP_PER_TASK);
        push_str(&mut s, " XP**.\nProchaine tache dans 2h.");
    } else {
        push_str(&mut s, "\n\nProchaine tache dans 2h.");
    }
    s
}

/// The chore of index `i`: key, title and story.
pub fn chore_task(i: usize) -> (t: (&'static str, &'static str, &'static str))
    requires
        i < 3,
    ensures
        (t.0@, t.1@, t.2@) == tasks_spec()[i as int],
{
    if i == 0 {
        (
            "clean",
            "\u{1f9f9} Nettoyer les cellules",
            "Tu prends une vadrouille et tu nettoies les vomissures des dernieres bagarres. Pas glorieux, mais ca paie.",
        )
    } else if i == 1 {
        (
            "cook",
            "\u{1f373} Cuisiner pour les gardes",
            "Tu rejoins la cuisine, prepares des \u{153}ufs au plat trop cuits, sers les gardes en silence.",
        )
    } else {
        (
            "inform",
            "\u{1f5e3}\u{fe0f} Informer la police",
            "Tu balances quelques rumeurs douteuses sur tes copegars. La police te paie en sourires gras.",
        )
    }
}

/// The flavour of index `i` for a chore's outcome.
pub fn chore_flavor(success: bool, i: usize) -> (f: &'static str)
    requires
        i < 4,
    ensures
        f@ == (if success { success_flavors_spec() } else { fail_flavors_spec() })[i as int],
{
    if success {
        if i == 0 {
            "Les gardes te tapent sur l epaule. \"T es un peu moins nul que prevu.\""
        } else if i == 1 {
            "Personne ne t a vu glander. Bravo."
        } else if i == 2 {
            "Le systeme penitentiaire te remercie pour ta contribution citoyenne."
        } else {
            "Tu as evite de te faire poignarder. C est deja une victoire."
        }
    } else {
        if i == 0 {
            "Tu glisses sur une serpilliere. Les gardes rient. Tu n es pas paye."
        } else if i == 1 {
            "Tu rates ta tache. Personne n est etonne."
        } else if i == 2 {
            "Un detenu t a vu et te chambre depuis. Pas de coins aujourd hui."
        } else {
            "Tu t es endormi a moitie. Reveille-toi quand tu veux travailler vraiment."
        }
    }
}


// ───────────────────────── laws of a prank ─────────────────────────

/// A scoop or a call goes ahead only against a target known not to be a
/// bot, and a bot target is always refused as such; a heist alert needs no
/// target. Any prank that goes ahead is of the kind asked, at its
/// configured price, which the player can pay.
pub proof fn law_no_prank_against_a_bot(cfg: &CoudeConfig, kind: Seq<char>, target_is_bot: Option<bool>, coins: i64)
    ensures
        (kind == "scoop"@ || kind == "appel"@) ==> (prank_spec(cfg, kind, target_is_bot, coins) is Ok
            ==> target_is_bot == Some(false)),
        (kind == "scoop"@ || kind == "appel"@) && target_is_bot == Some(true) ==> prank_spec(
            cfg,
            kind,
            target_is_bot,
            coins,
        ) == Err::<(PrankKind, i64), PrankRefusal>(PrankRefusal::BotTarget),
        prank_spec(cfg, kind, target_is_bot, coins) matches Ok((k, cost)) ==> {
            &&& coins >= cost
            &&& cost == prank_cost_spec(cfg, k)
            &&& (k == PrankKind::Braquage <==> kind == "braquage"@)
            &&& (k == PrankKind::Scoop <==> kind == "scoop"@)
            &&& (k == PrankKind::Appel <==> kind == "appel"@)
        },
{
    reveal_strlit("braquage");
    reveal_strlit("scoop");
    reveal_strlit("appel");
    assert("scoop"@[0] != "braquage"@[0]);
    assert("appel"@[0] != "braquage"@[0] && "appel"@[0] != "scoop"@[0]);
    assert("scoop"@ != "braquage"@);
    assert("appel"@ != "braquage"@ && "appel"@ != "scoop"@);
}

} // verus!
