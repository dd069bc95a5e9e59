//! Rules of the "Coup de Coude" game that the bot applies itself: command
//! routing, challenge and rest checks, heist texts and insurance tiers.

use rand::Rng;
use vstd::prelude::*;
use crate::guild_config::CoudeConfig;
use crate::config::u64_setting;
use crate::text::{chars_of, has_prefix_in, int_text, is_one_of, owned, push_char, push_i64, push_str, push_u64, replace, replace_spec, starts_with_any, str_eq, views};

verus! {

// ───────────────────────── coude module ─────────────────────────

/// Slash commands of the game module.
pub open spec fn coude_commands() -> Seq<Seq<char>> {
    seq![
        "coude"@,
        "profil"@,
        "shop"@,
        "prime"@,
        "leaderboard"@,
        "pari"@,
        "voler"@,
        "assurance"@,
        "train"@,
        "classe"@,
        "donner"@,
        "hp"@,
        "repos"@,
        "potion"@,
        "saison"@,
        "reset-stats"@,
        "resume"@,
        "cagnotte"@,
        "protection"@,
        "boost-voleur"@,
        "no-taunts"@,
        "taunts-channel"@,
        "braquage"@,
    ]
}

/// Button prefixes of the game module.
pub open spec fn coude_component_prefixes() -> Seq<Seq<char>> {
    seq![
        "coude_prec_ok|"@,
        "coude_prec_no|"@,
        "coude_accept:"@,
        "coude_defend_select:"@,
        "coude_defend:"@,
        "coude_refuse:"@,
        "coude_cancel:"@,
        "class_select:"@,
        "steal_defend:"@,
    ]
}

/// The game module handles the slash command `name`.
pub fn handles_command(name: &str) -> (r: bool)
    ensures
        r == coude_commands().contains(name@),
{
    let list: Vec<&str> = vec![
        "coude",
        "profil",
        "shop",
        "prime",
        "leaderboard",
        "pari",
        "voler",
        "assurance",
        "train",
        "classe",
        "donner",
        "hp",
        "repos",
        "potion",
        "saison",
        "reset-stats",
        "resume",
        "cagnotte",
        "protection",
        "boost-voleur",
        "no-taunts",
        "taunts-channel",
        "braquage",
    ];
    assert(views(list@) =~= coude_commands());
    is_one_of(&list, name)
}

/// The game module handles the button `cid`.
pub fn handles_component(cid: &str) -> (r: bool)
    ensures
        r == has_prefix_in(coude_component_prefixes(), cid@),
{
    let list: Vec<&str> = vec![
        "coude_prec_ok|",
        "coude_prec_no|",
        "coude_accept:",
        "coude_defend_select:",
        "coude_defend:",
        "coude_refuse:",
        "coude_cancel:",
        "class_select:",
        "steal_defend:",
    ];
    assert(views(list@) =~= coude_component_prefixes());
    starts_with_any(&list, cid)
}

// ───────────────────────── chance ─────────────────────────

/// An index drawn at random below `len` (`rand::Rng::gen_range` over
/// `0..len` with the thread's generator). Only the range is stated: the
/// draw itself is chance.
#[verifier::external_body]
pub(crate) fn random_index(len: usize) -> (i: usize)
    requires
        len > 0,
    ensures
        i < len,
{
    rand::thread_rng().gen_range(0..len)
}

/// One of `messages`, drawn at random.
pub fn pick_random<'a>(messages: &Vec<&'a str>) -> (m: &'a str)
    requires
        messages@.len() > 0,
    ensures
        exists|i: int| 0 <= i < messages@.len() && messages@[i] == m,
{
    let i = random_index(messages.len());
    messages[i]
}

// ───────────────────────── the heist ─────────────────────────

/// A heist text with its placeholders `{user}`, `{montant}` and
/// `{chance}` filled in, in that order.
pub open spec fn format_heist_spec(template: Seq<char>, user: Seq<char>, montant: i64, chance: u32) -> Seq<char> {
    replace_spec(
        replace_spec(replace_spec(template, "{user}"@, user), "{montant}"@, int_text(montant as int)),
        "{chance}"@,
        int_text(chance as int),
    )
}

/// Fills in the placeholders of a heist text.
pub fn format_heist(template: &str, user: &str, montant: i64, chance: u32) -> (s: String)
    ensures
        s@ == format_heist_spec(template@, user@, montant, chance),
{
    proof {
        reveal_strlit("{user}");
        reveal_strlit("{montant}");
        reveal_strlit("{chance}");
    }
    let a = replace(template, "{user}", user);
    let m = string_of_i64(montant);
    let b = replace(a.as_str(), "{montant}", m.as_str());
    let c = string_of_u64(chance as u64);
    replace(b.as_str(), "{chance}", c.as_str())
}

fn string_of_i64(x: i64) -> (s: String)
    ensures
        s@ == int_text(x as int),
{
    let mut s = String::new();
    push_i64(&mut s, x);
    s
}

fn string_of_u64(x: u64) -> (s: String)
    ensures
        s@ == int_text(x as int),
{
    let mut s = String::new();
    push_u64(&mut s, x);
    s
}

/// Texts told of a successful heist.
pub open spec fn heist_success_spec() -> Seq<Seq<char>> {
    seq![
        "\u{1f4b0} {user} a defonce la porte du coffre et s'est enfui avec {montant} coins !"@,
        "\u{1f3ad} Mission impossible reussie ! {user} empoche {montant} coins sans laisser de trace !"@,
        "\u{1f3a9} Ocean's Eleven style ! {user} sort du casino avec {montant} coins !"@,
        "\u{1f52b} Peaky Blinders ! {user} a vide la caisse pour {montant} coins !"@,
        "\u{1f3ac} Heat mode activated ! {user} rafle {montant} coins et disparait dans la nuit !"@,
        "\u{1f4a8} Vroum vroum ! {user} s'enfuit en bagnole avec {montant} coins !"@,
        "\u{1f3b7} {user} a charme la gardienne et ramasse {montant} coins comme un pro !"@,
        "\u{1f9e0} Plan parfait ! {user} sort de la banque avec {montant} coins, souriant !"@,
        "\u{1f3ab} Braquage express ! {user} repart avec {montant} coins en moins de 3 minutes !"@,
        "\u{1f3af} Bullseye ! {user} a fait mouche et empoche {montant} coins !"@,
        "\u{1f92b} Silence total ! {user} subtilise {montant} coins sans declencher l'alarme !"@,
        "\u{1f3a9} Maestro du crime ! {user} orchestre un casse parfait et rafle {montant} coins !"@,
        "\u{1f680} Braquage a la vitesse de la lumiere ! {user} emporte {montant} coins !"@,
        "\u{1f576}\u{fe0f} Le casse du siecle ! {user} disparait avec {montant} coins dans sa mallette !"@,
        "\u{1f3b2} Chance {chance}% ? Peu importe : {user} rafle {montant} coins !"@,
        "\u{1f47b} Fantome du coffre ! {user} emporte {montant} coins sans laisser d'empreintes !"@,
        "\u{1f479} Vilain genial ! {user} met la main sur {montant} coins du tresor communautaire !"@,
        "\u{1f9bb} Agent 007 ! {user} realise le coup parfait et rentre avec {montant} coins !"@,
        "\u{1f3ec} Braquage a la Bonnie & Clyde ! {user} part avec {montant} coins et du style !"@,
        "\u{1fa9c} Clef passe-partout ! {user} a ouvert le coffre et repart avec {montant} coins !"@,
    ]
}

/// Texts told of a failed heist.
pub open spec fn heist_fail_spec() -> Seq<Seq<char>> {
    seq![
        "\u{1f6a8} Les alarmes retentissent, {user} a tout foire et se retrouve en prison !"@,
        "\u{1f46e} La police a debarque ! {user} a les menottes aux poignets !"@,
        "\u{1fa9e} {user} a trebuche sur un cordon laser et active toutes les defenses !"@,
        "\u{1f436} Les chiens de garde ont repere {user} ! Direction la cellule !"@,
        "\u{1f3a5} Camera hyper HD : {user} en vedette du journal de 20h comme braqueur rate !"@,
        "\u{1f4a3} {user} a actionne la mauvaise gachette ! Explosion ! Arrete sur le champ !"@,
        "\u{1f9d9}\u{200d}\u{2642}\u{fe0f} Un gardien avec vision nocturne a pince {user} en plein cambriolage !"@,
        "\u{1fa82} {user} voulait fuir en parachute... il a oublie de l'ouvrir ! Direction prison !"@,
        "\u{1f91d} Le complice de {user} etait un indic ! Trahison et arrestation !"@,
        "\u{1f4bc} {user} a oublie son portefeuille avec son ID sur la scene du crime ! Gros indice !"@,
        "\u{1f3a9} Plan foireux : {user} a confondu l'entree et la sortie ! Menottes direct !"@,
        "\u{1f9fb} {user} a laisse une trainee d'indices comme le petit Poucet ! Rate !"@,
        "\u{1f4f2} Le telephone de {user} a sonne en plein braquage ! Game over !"@,
        "\u{1f355} {user} a commande une pizza sur les lieux du crime ! Arrestation au premier four !"@,
        "\u{1f57a} {user} a tente d'improviser une danse de diversion... ca n'a pas pris !"@,
        "\u{1f4cf} La chance etait a {chance}%, mais {user} a fait le mauvais choix a chaque etape !"@,
        "\u{1f32a}\u{fe0f} {user} a ete foudroye par la malchance : tentative avortee, prison !"@,
        "\u{1f476} {user} a pleure comme un bebe quand les sirenes ont retenti ! Capture !"@,
        "\u{1f3ad} Le costume de {user} est tombe au milieu du casse ! Reconnu direct !"@,
        "\u{1f3aa} {user} s'est pris les pieds dans la toile de tente du camouflage ! Arrete !"@,
    ]
}

/// The `i`-th text told of a heist's outcome.
pub open spec fn heist_template(success: bool, i: int) -> Seq<char> {
    (if success { heist_success_spec() } else { heist_fail_spec() })[i]
}

/// The texts of a heist's outcome.
pub fn heist_texts(success: bool) -> (v: Vec<&'static str>)
    ensures
        views(v@) == (if success { heist_success_spec() } else { heist_fail_spec() }),
{
    let v: Vec<&'static str> = if success {
        vec![
            "\u{1f4b0} {user} a defonce la porte du coffre et s'est enfui avec {montant} coins !",
            "\u{1f3ad} Mission impossible reussie ! {user} empoche {montant} coins sans laisser de trace !",
            "\u{1f3a9} Ocean's Eleven style ! {user} sort du casino avec {montant} coins !",
            "\u{1f52b} Peaky Blinders ! {user} a vide la caisse pour {montant} coins !",
            "\u{1f3ac} Heat mode activated ! {user} rafle {montant} coins et disparait dans la nuit !",
            "\u{1f4a8} Vroum vroum ! {user} s'enfuit en bagnole avec {montant} coins !",
            "\u{1f3b7} {user} a charme la gardienne et ramasse {montant} coins comme un pro !",
            "\u{1f9e0} Plan parfait ! {user} sort de la banque avec {montant} coins, souriant !",
            "\u{1f3ab} Braquage express ! {user} repart avec {montant} coins en moins de 3 minutes !",
            "\u{1f3af} Bullseye ! {user} a fait mouche et empoche {montant} coins !",
            "\u{1f92b} Silence total ! {user} subtilise {montant} coins sans declencher l'alarme !",
            "\u{1f3a9} Maestro du crime ! {user} orchestre un casse parfait et rafle {montant} coins !",
            "\u{1f680} Braquage a la vitesse de la lumiere ! {user} emporte {montant} coins !",
            "\u{1f576}\u{fe0f} Le casse du siecle ! {user} disparait avec {montant} coins dans sa mallette !",
            "\u{1f3b2} Chance {chance}% ? Peu importe : {user} rafle {montant} coins !",
            "\u{1f47b} Fantome du coffre ! {user} emporte {montant} coins sans laisser d'empreintes !",
            "\u{1f479} Vilain genial ! {user} met la main sur {montant} coins du tresor communautaire !",
            "\u{1f9bb} Agent 007 ! {user} realise le coup parfait et rentre avec {montant} coins !",
            "\u{1f3ec} Braquage a la Bonnie & Clyde ! {user} part avec {montant} coins et du style !",
            "\u{1fa9c} Clef passe-partout ! {user} a ouvert le coffre et repart avec {montant} coins !",
        ]
    } else {
        vec![
            "\u{1f6a8} Les alarmes retentissent, {user} a tout foire et se retrouve en prison !",
            "\u{1f46e} La police a debarque ! {user} a les menottes aux poignets !",
            "\u{1fa9e} {user} a trebuche sur un cordon laser et active toutes les defenses !",
            "\u{1f436} Les chiens de garde ont repere {user} ! Direction la cellule !",
            "\u{1f3a5} Camera hyper HD : {user} en vedette du journal de 20h comme braqueur rate !",
            "\u{1f4a3} {user} a actionne la mauvaise gachette ! Explosion ! Arrete sur le champ !",
            "\u{1f9d9}\u{200d}\u{2642}\u{fe0f} Un gardien avec vision nocturne a pince {user} en plein cambriolage !",
            "\u{1fa82} {user} voulait fuir en parachute... il a oublie de l'ouvrir ! Direction prison !",
            "\u{1f91d} Le complice de {user} etait un indic ! Trahison et arrestation !",
            "\u{1f4bc} {user} a oublie son portefeuille avec son ID sur la scene du crime ! Gros indice !",
            "\u{1f3a9} Plan foireux : {user} a confondu l'entree et la sortie ! Menottes direct !",
            "\u{1f9fb} {user} a laisse une trainee d'indices comme le petit Poucet ! Rate !",
            "\u{1f4f2} Le telephone de {user} a sonne en plein braquage ! Game over !",
            "\u{1f355} {user} a commande une pizza sur les lieux du crime ! Arrestation au premier four !",
            "\u{1f57a} {user} a tente d'improviser une danse de diversion... ca n'a pas pris !",
            "\u{1f4cf} La chance etait a {chance}%, mais {user} a fait le mauvais choix a chaque etape !",
            "\u{1f32a}\u{fe0f} {user} a ete foudroye par la malchance : tentative avortee, prison !",
            "\u{1f476} {user} a pleure comme un bebe quand les sirenes ont retenti ! Capture !",
            "\u{1f3ad} Le costume de {user} est tombe au milieu du casse ! Reconnu direct !",
            "\u{1f3aa} {user} s'est pris les pieds dans la toile de tente du camouflage ! Arrete !",
        ]
    };
    assert(views(v@) =~= (if success { heist_success_spec() } else { heist_fail_spec() }));
    v
}

/// What the game API answers to a heist attempt.
pub struct HeistResult {
    pub success: bool,
    pub amount_stolen: i64,
    pub chance_percent: u32,
    /// Number of tools consumed (or lost).
    pub tools_consumed: usize,
    pub cashbox_total_before: i64,
    /// When the thief leaves prison, as the API writes the date.
    pub prison_released_at: Option<String>,
}

/// `s` up to its first space or `T`: the date part of a timestamp.
pub open spec fn date_part(s: Seq<char>) -> Seq<char>
    decreases s.len(),
{
    if s.len() == 0 || s[0] == ' ' || s[0] == 'T' {
        Seq::empty()
    } else {
        seq![s[0]] + date_part(s.drop_first())
    }
}

/// The date part of a timestamp: up to its first space or `T`.
pub fn date_prefix(s: &str) -> (r: String)
    ensures
        r@ == date_part(s@),
{
    let cs = chars_of(s);
    let n = cs.len();
    let mut r = String::new();
    let mut i: usize = 0;
    assert(cs@.skip(0) =~= cs@);
    assert(r@ + date_part(s@) =~= date_part(s@));
    while i < n && cs[i] != ' ' && cs[i] != 'T'
        invariant
            cs@ == s@,
            n == cs@.len(),
            i <= n,
            r@ + date_part(cs@.skip(i as int)) == date_part(s@),
        decreases n - i,
    {
        proof {
            let rest = cs@.skip(i as int);
            assert(rest.drop_first() =~= cs@.skip(i + 1));
            assert(r@ + (seq![rest[0]] + date_part(rest.drop_first())) =~= r@.push(cs@[i as int]) + date_part(
                cs@.skip(i + 1),
            ));
        }
        push_char(&mut r, cs[i]);
        i = i + 1;
    }
    proof {
        let rest = cs@.skip(i as int);
        assert(date_part(rest) == Seq::<char>::empty());
        assert(r@ + Seq::<char>::empty() =~= r@);
    }
    r
}

pub open spec fn tools_line_spec(success: bool, tools: usize) -> Seq<char> {
    if tools == 0 {
        "Aucun outil utilise"@
    } else if success {
        int_text(tools as int) + " outils consommes"@
    } else {
        int_text(tools as int) + " outils perdus"@
    }
}

pub open spec fn prison_line_spec(released_at: Option<Seq<char>>) -> Seq<char> {
    match released_at {
        Some(ts) => "\n\u{26d3}\u{fe0f} **EN PRISON** jusqu'au **"@ + date_part(ts)
            + "** \u{2014} aucune action de jeu possible !"@,
        None => Seq::empty(),
    }
}

/// Text of a heist's outcome, after its flavour sentence.
pub open spec fn heist_description_spec(flavor: Seq<char>, r: HeistResult) -> Seq<char> {
    if r.success {
        flavor + "\n\n\u{1fa99} **+"@ + int_text(r.amount_stolen as int) + " coins** empoches\n\u{1f3b2} Chance : **"@
            + int_text(r.chance_percent as int) + " %**\n\u{1f6e0}\u{fe0f} "@ + tools_line_spec(true, r.tools_consumed)
            + "\n\n_La caisse etait a "@ + int_text(r.cashbox_total_before as int) + " coins avant le braquage._"@
    } else {
        flavor + "\n\n\u{1f3b2} Chance : **"@ + int_text(r.chance_percent as int) + " %**\n\u{1f6e0}\u{fe0f} "@
            + tools_line_spec(false, r.tools_consumed) + prison_line_spec(
            match r.prison_released_at {
                Some(x) => Some(x@),
                None => None,
            },
        )
    }
}

fn tools_line(success: bool, tools: usize) -> (s: String)
    ensures
        s@ == tools_line_spec(success, tools),
{
    if tools == 0 {
        return owned("Aucun outil utilise");
    }
    let mut s = string_of_u64(tools as u64);
    if success {
        push_str(&mut s, " outils consommes");
    } else {
        push_str(&mut s, " outils perdus");
    }
    s
}

fn prison_line(released_at: &Option<String>) -> (s: String)
    ensures
        s@ == prison_line_spec(
            match released_at {
                Some(x) => Some(x@),
                None => None,
            },
        ),
{
    let mut s = String::new();
    match released_at {
        Some(ts) => {
            push_str(&mut s, "\n\u{26d3}\u{fe0f} **EN PRISON** jusqu'au **");
            let d = date_prefix(ts.as_str());
            push_str(&mut s, d.as_str());
            push_str(&mut s, "** \u{2014} aucune action de jeu possible !");
        },
        None => {},
    }
    s
}

/// The heist's result text, given its flavour sentence.
pub fn heist_description(flavor: &str, r: &HeistResult) -> (s: String)
    ensures
        s@ == heist_description_spec(flavor@, *r),
{
    let mut s = owned(flavor);
    if r.success {
        push_str(&mut s, "\n\n\u{1fa99} **+");
        push_i64(&mut s, r.amount_stolen);
        push_str(&mut s, " coins** empoches\n\u{1f3b2} Chance : **");
        push_u64(&mut s, r.chance_percent as u64);
        push_str(&mut s, " %**\n\u{1f6e0}\u{fe0f} ");
        let t = tools_line(true, r.tools_consumed);
        push_str(&mut s, t.as_str());
        push_str(&mut s, "\n\n_La caisse etait a ");
        push_i64(&mut s, r.cashbox_total_before);
        push_str(&mut s, " coins avant le braquage._");
    } else {
        push_str(&mut s, "\n\n\u{1f3b2} Chance : **");
        push_u64(&mut s, r.chance_percent as u64);
        push_str(&mut s, " %**\n\u{1f6e0}\u{fe0f} ");
        let t = tools_line(false, r.tools_consumed);
        push_str(&mut s, t.as_str());
        let p = prison_line(&r.prison_released_at);
        push_str(&mut s, p.as_str());
    }
    s
}

/// The user's mention, `<@id>`.
pub open spec fn mention_spec(user_id: Seq<char>) -> Seq<char> {
    "<@"@ + user_id + ">"@
}

/// The full result text of a heist: a flavour sentence drawn among the
/// outcome's texts, filled in for the user, then the figures.
pub fn heist_result_text(user_id: &str, r: &HeistResult) -> (s: String)
    ensures
        exists|i: int|
            0 <= i < 20 && s@ == heist_description_spec(
                format_heist_spec(
                    #[trigger] heist_template(r.success, i),
                    mention_spec(user_id@),
                    r.amount_stolen,
                    r.chance_percent,
                ),
                *r,
            ),
{
    let mut mention = owned("<@");
    push_str(&mut mention, user_id);
    push_str(&mut mention, ">");
    let texts = heist_texts(r.success);
    assert(texts@.len() == views(texts@).len());
    assert(mention@ == mention_spec(user_id@));
    let i = random_index(texts.len());
    let flavor = format_heist(texts[i], mention.as_str(), r.amount_stolen, r.chance_percent);
    let s = heist_description(flavor.as_str(), r);
    assert(views(texts@)[i as int] == texts@[i as int]@);
    assert(heist_template(r.success, i as int) == texts@[i as int]@);
    s
}

// ───────────────────────── all or nothing ─────────────────────────

/// The announcement of `/tout-ou-rien` while the wheel turns.
pub open spec fn all_or_nothing_intro_spec(user_id: Seq<char>, initial_coins: int) -> Seq<char> {
    mention_spec(user_id) + " mise **"@ + int_text(initial_coins)
        + "** coins (TOUT son wallet) sur un 50/50.\n\nPile : x2. Face : -80%.\n\u{23f3} Animation 10 secondes..."@
}

/// See `all_or_nothing_intro_spec`.
pub fn all_or_nothing_intro(user_id: &str, initial_coins: i64) -> (s: String)
    ensures
        s@ == all_or_nothing_intro_spec(user_id@, initial_coins as int),
{
    let mut s = owned("<@");
    push_str(&mut s, user_id);
    push_str(&mut s, ">");
    push_str(&mut s, " mise **");
    push_i64(&mut s, initial_coins);
    push_str(&mut s, "** coins (TOUT son wallet) sur un 50/50.\n\nPile : x2. Face : -80%.\n\u{23f3} Animation 10 secondes...");
    s
}

/// The verdict card of `/tout-ou-rien`.
#[derive(Clone, Debug)]
pub struct VerdictCard {
    pub title: String,
    pub description: String,
    pub color: u32,
    pub footer: String,
}

/// The verdict card: a victory when the result reads `won`, showing the
/// bet, the gain and the new balance; else a ruin, showing the loss (minus
/// the change of balance) and the memorial.
pub open spec fn verdict_spec(user_id: Seq<char>, outcome: Seq<char>, initial: int, delta: int, final_balance: int) -> (Seq<char>, Seq<char>, u32, Seq<char>) {
    if outcome == "won"@ {
        (
            "\u{1f451} TOUT-OU-RIEN — VICTOIRE !"@,
            mention_spec(user_id) + " a TOUT MISE et a GAGNE !\n\n\u{1f4b0} Mise : **"@ + int_text(initial)
                + "** coins\n\u{1f4c8} Gain : **+"@ + int_text(delta) + "** coins\n\u{1f9e7} Solde final : **"@
                + int_text(final_balance) + "** coins\n\nLe serveur s incline. \u{1f44f}"@,
            0xFFD700u32,
            "Tout-ou-rien · le destin a souri"@,
        )
    } else {
        (
            "\u{1faa6} TOUT-OU-RIEN — RUINE COSMIQUE"@,
            mention_spec(user_id) + " a TOUT MISE et a TOUT PERDU (ou presque).\n\n\u{1f4b0} Mise : **"@
                + int_text(initial) + "** coins\n\u{1f4c9} Perte : **"@ + int_text(-delta)
                + "** coins (80%)\n\u{1f9fb} Solde final : **"@ + int_text(final_balance)
                + "** coins\n\nBienvenue au **Memorial des clodos**. \u{1f47b}"@,
            0xC0392Bu32,
            "Tout-ou-rien · le destin t a craches dessus"@,
        )
    }
}

/// See `verdict_spec`. A loss of the lowest `i64` has no opposite in
/// `i64`, hence the bound.
pub fn all_or_nothing_verdict(user_id: &str, outcome: &str, initial: i64, delta: i64, final_balance: i64) -> (c: VerdictCard)
    requires
        outcome@ != "won"@ ==> delta > i64::MIN,
    ensures
        (c.title@, c.description@, c.color, c.footer@) == verdict_spec(
            user_id@,
            outcome@,
            initial as int,
            delta as int,
            final_balance as int,
        ),
{
    let mut d = owned("<@");
    push_str(&mut d, user_id);
    push_str(&mut d, ">");
    if str_eq(outcome, "won") {
        push_str(&mut d, " a TOUT MISE et a GAGNE !\n\n\u{1f4b0} Mise : **");
        push_i64(&mut d, initial);
        push_str(&mut d, "** coins\n\u{1f4c8} Gain : **+");
        push_i64(&mut d, delta);
        push_str(&mut d, "** coins\n\u{1f9e7} Solde final : **");
        push_i64(&mut d, final_balance);
        push_str(&mut d, "** coins\n\nLe serveur s incline. \u{1f44f}");
        VerdictCard {
            title: owned("\u{1f451} TOUT-OU-RIEN — VICTOIRE !"),
            description: d,
            color: 0xFFD700,
            footer: owned("Tout-ou-rien · le destin a souri"),
        }
    } else {
        push_str(&mut d, " a TOUT MISE et a TOUT PERDU (ou presque).\n\n\u{1f4b0} Mise : **");
        push_i64(&mut d, initial);
        push_str(&mut d, "** coins\n\u{1f4c9} Perte : **");
        push_i64(&mut d, -delta);
        push_str(&mut d, "** coins (80%)\n\u{1f9fb} Solde final : **");
        push_i64(&mut d, final_balance);
        push_str(&mut d, "** coins\n\nBienvenue au **Memorial des clodos**. \u{1f47b}");
        VerdictCard {
            title: owned("\u{1faa6} TOUT-OU-RIEN — RUINE COSMIQUE"),
            description: d,
            color: 0xC0392B,
            footer: owned("Tout-ou-rien · le destin t a craches dessus"),
        }
    }
}

// ───────────────────────── insurance ─────────────────────────

/// A length of insurance the player can buy.
#[derive(Clone, Copy)]
pub struct InsuranceTier {
    pub key: &'static str,
    pub label: &'static str,
    pub duration_seconds: i64,
    pub multiplier: i64,
}

/// The three insurance lengths (a day, a week, a month) with their
/// durations and price multipliers from the guild configuration.
pub fn build_tiers(cfg: &CoudeConfig) -> (t: [InsuranceTier; 3])
    ensures
        t[0].key@ == "day"@ && t[0].label@ == "1 jour"@,
        t[0].duration_seconds == u64_setting(&cfg.raw, "assurance_tier_day_secs"@, 86400) as i64,
        t[0].multiplier == u64_setting(&cfg.raw, "assurance_tier_day_mult"@, 1) as i64,
        t[1].key@ == "week"@ && t[1].label@ == "1 semaine"@,
        t[1].duration_seconds == u64_setting(&cfg.raw, "assurance_tier_week_secs"@, 604800) as i64,
        t[1].multiplier == u64_setting(&cfg.raw, "assurance_tier_week_mult"@, 6) as i64,
        t[2].key@ == "month"@ && t[2].label@ == "1 mois"@,
        t[2].duration_seconds == u64_setting(&cfg.raw, "assurance_tier_month_secs"@, 2592000) as i64,
        t[2].multiplier == u64_setting(&cfg.raw, "assurance_tier_month_mult"@, 22) as i64,
{
    [
        InsuranceTier {
            key: "day",
            label: "1 jour",
            duration_seconds: cfg.assurance_tier_day_secs(),
            multiplier: cfg.assurance_tier_day_mult(),
        },
        InsuranceTier {
            key: "week",
            label: "1 semaine",
            duration_seconds: cfg.assurance_tier_week_secs(),
            multiplier: cfg.assurance_tier_week_mult(),
        },
        InsuranceTier {
            key: "month",
            label: "1 mois",
            duration_seconds: cfg.assurance_tier_month_secs(),
            multiplier: cfg.assurance_tier_month_mult(),
        },
    ]
}

/// The first tier whose key is `key`.
pub fn find_tier(tiers: &[InsuranceTier; 3], key: &str) -> (r: Option<usize>)
    ensures
        match r {
            Some(i) => i < 3 && tiers[i as int].key@ == key@ && forall|j: int| 0 <= j < i ==> tiers[j].key@ != key@,
            None => forall|j: int| 0 <= j < 3 ==> tiers[j].key@ != key@,
        },
{
    let mut i: usize = 0;
    while i < 3
        invariant
            i <= 3,
            forall|j: int| 0 <= j < i ==> tiers[j].key@ != key@,
        decreases 3 - i,
    {
        if str_eq(tiers[i].key, key) {
            return Some(i);
        }
        i = i + 1;
    }
    None
}

/// `a * b`, held at the bounds of `i64` where it overflows.
pub open spec fn saturating_mul_spec(a: int, b: int) -> int {
    if a * b > i64::MAX {
        i64::MAX as int
    } else if a * b < i64::MIN {
        i64::MIN as int
    } else {
        a * b
    }
}

/// Price of an insurance: the base price times the tier's multiplier,
/// saturating.
pub fn insurance_total_cost(base_cost: i64, multiplier: i64) -> (c: i64)
    ensures
        c == saturating_mul_spec(base_cost as int, multiplier as int),
{
    match base_cost.checked_mul(multiplier) {
        Some(v) => v,
        None => {
            if (base_cost < 0) == (multiplier < 0) {
                proof {
                    if base_cost < 0 {
                        assert(base_cost * multiplier == (-base_cost) * (-multiplier)) by (nonlinear_arith);
                        assert((-base_cost) * (-multiplier) >= 0) by (nonlinear_arith)
                            requires base_cost < 0, multiplier < 0;
                    } else {
                        assert(base_cost * multiplier >= 0) by (nonlinear_arith)
                            requires base_cost >= 0, multiplier >= 0;
                    }
                }
                i64::MAX
            } else {
                proof {
                    if base_cost < 0 {
                        assert(base_cost * multiplier <= 0) by (nonlinear_arith)
                            requires base_cost < 0, multiplier >= 0;
                    } else {
                        assert(base_cost * multiplier <= 0) by (nonlinear_arith)
                            requires base_cost >= 0, multiplier < 0;
                    }
                }
                i64::MIN
            }
        },
    }
}

/// Insurances a player may hold at once: two from level 5, else one.
pub fn insurance_slots(level: i32) -> (n: i32)
    ensures
        n == (if level >= 5 { 2i32 } else { 1i32 }),
{
    if level >= 5 {
        2
    } else {
        1
    }
}

/// Why an insurance is not sold.
#[derive(PartialEq, Eq, Structural, Clone, Copy, Debug)]
pub enum InsuranceRefusal {
    UnknownTier,
    NotEnoughCoins { tier: usize, cost: i64, coins: i64 },
    AlreadyInsured,
}

/// The checks of `/assurance`: the tier must exist, the player must afford
/// it, and a player with a single slot must hold no active insurance.
/// On success, the tier and its total price.
pub open spec fn insurance_spec(
    tiers: [InsuranceTier; 3],
    key: Option<Seq<char>>,
    base_cost: i64,
    coins: i64,
    level: i32,
    has_active: bool,
) -> Result<(usize, i64), InsuranceRefusal> {
    match key {
        None => Err(InsuranceRefusal::UnknownTier),
        Some(k) => if exists|j: int| 0 <= j < 3 && tiers[j].key@ == k {
            let i = choose|i: int| 0 <= i < 3 && tiers[i].key@ == k && forall|j: int| 0 <= j < i ==> tiers[j].key@ != k;
            let cost = saturating_mul_spec(base_cost as int, tiers[i].multiplier as int) as i64;
            if coins < cost {
                Err(InsuranceRefusal::NotEnoughCoins { tier: i as usize, cost, coins })
            } else if level < 5 && has_active {
                Err(InsuranceRefusal::AlreadyInsured)
            } else {
                Ok((i as usize, cost))
            }
        } else {
            Err(InsuranceRefusal::UnknownTier)
        },
    }
}

/// Decides whether `/assurance` sells the insurance of tier `key`.
pub fn check_insurance(
    tiers: &[InsuranceTier; 3],
    key: &Option<String>,
    base_cost: i64,
    coins: i64,
    level: i32,
    has_active: bool,
) -> (r: Result<(usize, i64), InsuranceRefusal>)
    ensures
        r == insurance_spec(
            *tiers,
            match key {
                Some(x) => Some(x@),
                None => None,
            },
            base_cost,
            coins,
            level,
            has_active,
        ),
{
    let k = match key {
        Some(k) => k,
        None => return Err(InsuranceRefusal::UnknownTier),
    };
    let i = match find_tier(tiers, k.as_str()) {
        Some(i) => i,
        None => return Err(InsuranceRefusal::UnknownTier),
    };
    proof {
        let c = choose|c: int| 0 <= c < 3 && tiers[c].key@ == k@ && forall|j: int| 0 <= j < c ==> tiers[j].key@ != k@;
        assert(exists|c: int| 0 <= c < 3 && tiers[c].key@ == k@ && forall|j: int| 0 <= j < c ==> tiers[j].key@ != k@) by {
            assert(0 <= i < 3 && tiers[i as int].key@ == k@);
        }
        if c < i {
            assert(tiers[c].key@ != k@);
        }
        if c > i {
            assert(tiers[i as int].key@ != k@);
        }
    }
    let cost = insurance_total_cost(base_cost, tiers[i].multiplier);
    if coins < cost {
        return Err(InsuranceRefusal::NotEnoughCoins { tier: i, cost, coins });
    }
    if insurance_slots(level) < 2 && has_active {
        return Err(InsuranceRefusal::AlreadyInsured);
    }
    Ok((i, cost))
}

} // verus!
