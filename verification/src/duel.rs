//! Answers to a posted duel: who may accept or refuse it and until when,
//! and what a refusal costs and says.

use vstd::prelude::*;
use crate::text::{contains, contains_seq, int_text, owned, push_i64, push_str, str_eq, views};

verus! {

/// Prefix of the "accept" buttons of a duel.
pub const ACCEPT_PREFIX: &'static str = "coude_accept:";
/// Prefix of the "refuse" buttons of a duel.
pub const REFUSE_PREFIX: &'static str = "coude_refuse:";
/// A refusal is possible for a day after the challenge.
pub const REFUSAL_WINDOW_SECS: i64 = 86400;

/// What the bot reads of a duel to check an answer.
pub struct CombatView {
    pub guild_id: String,
    pub attacker_id: String,
    pub defender_id: String,
    pub status: String,
    pub mise: i64,
}

/// Why an answer to a duel is not taken.
#[derive(PartialEq, Eq, Structural, Clone, Copy, Debug)]
pub enum AnswerRefusal {
    /// The duel belongs to another guild.
    OtherGuild,
    /// Only the defender may answer.
    NotDefender,
    /// The duel is no longer waiting for an answer.
    NotPending,
    /// The duel waited too long.
    Expired,
}

/// The checks of an answer, in order: the guild (when the answer comes from
/// one and `check_guild` is set), the defender, the pending status, then
/// the age against `expire_secs`.
pub open spec fn answer_spec(
    c: CombatView,
    clicker: Seq<char>,
    guild: Option<Seq<char>>,
    check_guild: bool,
    elapsed_secs: i64,
    expire_secs: i64,
) -> Result<(), AnswerRefusal> {
    if check_guild && (guild matches Some(g) && g != c.guild_id@) {
        Err(AnswerRefusal::OtherGuild)
    } else if clicker != c.defender_id@ {
        Err(AnswerRefusal::NotDefender)
    } else if c.status@ != "pending"@ {
        Err(AnswerRefusal::NotPending)
    } else if elapsed_secs > expire_secs {
        Err(AnswerRefusal::Expired)
    } else {
        Ok(())
    }
}

/// Checks an answer to duel `c` by `clicker`, `elapsed_secs` after the
/// challenge.
pub fn check_answer(
    c: &CombatView,
    clicker: &str,
    guild: Option<&str>,
    check_guild: bool,
    elapsed_secs: i64,
    expire_secs: i64,
) -> (r: Result<(), AnswerRefusal>)
    ensures
        r == answer_spec(
            *c,
            clicker@,
            match guild {
                Some(g) => Some(g@),
                None => None,
            },
            check_guild,
            elapsed_secs,
            expire_secs,
        ),
{
    if check_guild {
        if let Some(g) = guild {
            if !str_eq(g, c.guild_id.as_str()) {
                return Err(AnswerRefusal::OtherGuild);
            }
        }
    }
    if !str_eq(clicker, c.defender_id.as_str()) {
        return Err(AnswerRefusal::NotDefender);
    }
    if !str_eq(c.status.as_str(), "pending") {
        return Err(AnswerRefusal::NotPending);
    }
    if elapsed_secs > expire_secs {
        return Err(AnswerRefusal::Expired);
    }
    Ok(())
}

/// How long a challenge stays open, as written: whole hours from an hour,
/// else whole minutes.
pub open spec fn expire_label_spec(secs: i64) -> Seq<char> {
    if secs >= 3600 {
        int_text(secs as int / 3600) + "h"@
    } else {
        int_text(if secs >= 0 { secs as int / 60 } else { -((-(secs as int)) / 60) }) + "min"@
    }
}

/// The lifetime of a challenge, as shown when it expired.
pub fn expire_label(secs: i64) -> (s: String)
    requires
        secs > i64::MIN,
    ensures
        s@ == expire_label_spec(secs),
{
    let mut s = String::new();
    if secs >= 3600 {
        push_i64(&mut s, secs / 3600);
        push_str(&mut s, "h");
    } else {
        let m: i64 = if secs >= 0 {
            secs / 60
        } else {
            -((-secs) / 60)
        };
        push_i64(&mut s, m);
        push_str(&mut s, "min");
    }
    s
}

pub open spec fn answer_refusal_text_spec(r: AnswerRefusal, accepting: bool, expire: Seq<char>) -> Seq<char> {
    match r {
        AnswerRefusal::OtherGuild => "Ce combat n'appartient pas a cette guild."@,
        AnswerRefusal::NotDefender => if accepting {
            "Seul le defenseur peut accepter le defi !"@
        } else {
            "Seul le defenseur peut refuser le defi !"@
        },
        AnswerRefusal::NotPending => "Ce combat n'est plus en attente."@,
        AnswerRefusal::Expired => "Ce defi a expire ! ("@ + expire + ")"@,
    }
}

/// The sentence shown for a refused answer (`expire` is the lifetime's
/// label).
pub fn answer_refusal_text(r: AnswerRefusal, accepting: bool, expire: &str) -> (s: String)
    ensures
        s@ == answer_refusal_text_spec(r, accepting, expire@),
{
    match r {
        AnswerRefusal::OtherGuild => owned("Ce combat n'appartient pas a cette guild."),
        AnswerRefusal::NotDefender => if accepting {
            owned("Seul le defenseur peut accepter le defi !")
        } else {
            owned("Seul le defenseur peut refuser le defi !")
        },
        AnswerRefusal::NotPending => owned("Ce combat n'est plus en attente."),
        AnswerRefusal::Expired => {
            let mut s = owned("Ce defi a expire ! (");
            push_str(&mut s, expire);
            push_str(&mut s, ")");
            s
        },
    }
}

/// Text of an accepted duel while bets are open.
pub fn accepted_text(defender_id: &str, attacker_id: &str, bet_delay_secs: u64) -> (s: String)
    ensures
        s@ == "<@"@ + defender_id@ + "> a accepte le defi de <@"@ + attacker_id@
            + "> !\n\n\u{1f3b2} **Les paris sont ouverts pendant "@ + int_text((bet_delay_secs / 60) as int)
            + " minute(s) !**\nUtilisez `/pari` pour miser sur le vainqueur.\n\n\u{23f3} Le combat sera resolu automatiquement par le serveur..."@,
{
    let mut s = owned("<@");
    push_str(&mut s, defender_id);
    push_str(&mut s, "> a accepte le defi de <@");
    push_str(&mut s, attacker_id);
    push_str(&mut s, "> !\n\n\u{1f3b2} **Les paris sont ouverts pendant ");
    crate::text::push_u64(&mut s, bet_delay_secs / 60);
    push_str(
        &mut s,
        " minute(s) !**\nUtilisez `/pari` pour miser sur le vainqueur.\n\n\u{23f3} Le combat sera resolu automatiquement par le serveur...",
    );
    s
}

/// The API refused an at-once resolution because the defender holds a
/// counter item: the duel goes on as a normal challenge.
pub fn defender_can_counter(error: &str) -> (r: bool)
    ensures
        r == contains_seq(error@, "surprise_defender_can_counter"@),
{
    contains(error, "surprise_defender_can_counter")
}

// ───────────────────────── refusals ─────────────────────────

/// Mocking endings of a refusal.
pub open spec fn shame_messages_spec() -> Seq<Seq<char>> {
    seq![
        "a fui comme un poulet sans tete !"@,
        "a prefere se cacher sous la table..."@,
        "a tremble de peur et s'est enfui !"@,
        "a fait pipi dans son pantalon !"@,
        "a pleure en appelant sa maman !"@,
        "a couru si vite qu'il a perdu ses chaussures !"@,
        "a fait semblant d'avoir un rendez-vous urgent..."@,
        "s'est cache derriere un buisson !"@,
        "a invente une excuse bidon pour fuir !"@,
        "a declare forfait avant meme de commencer !"@,
    ]
}

/// The mocking endings of a refusal.
pub fn shame_messages() -> (v: Vec<&'static str>)
    ensures
        views(v@) == shame_messages_spec(),
{
    let v: Vec<&'static str> = vec![
        "a fui comme un poulet sans tete !",
        "a prefere se cacher sous la table...",
        "a tremble de peur et s'est enfui !",
        "a fait pipi dans son pantalon !",
        "a pleure en appelant sa maman !",
        "a couru si vite qu'il a perdu ses chaussures !",
        "a fait semblant d'avoir un rendez-vous urgent...",
        "s'est cache derriere un buisson !",
        "a invente une excuse bidon pour fuir !",
        "a declare forfait avant meme de commencer !",
    ];
    assert(views(v@) =~= shame_messages_spec());
    v
}

/// The announcement of a refusal: the defender, a mocking ending and the
/// penalty.
pub open spec fn refusal_announce_spec(defender_id: Seq<char>, shame: Seq<char>, penalty: i64) -> Seq<char> {
    "\u{1f414} <@"@ + defender_id + "> "@ + shame + " Perte de **"@ + int_text(penalty as int) + " coins** !"@
}

/// The announcement of a refusal with a mocking ending drawn at random.
pub fn refusal_announce(defender_id: &str, penalty: i64) -> (s: String)
    ensures
        exists|i: int|
            0 <= i < 10 && s@ == refusal_announce_spec(defender_id@, #[trigger] shame_messages_spec()[i], penalty),
{
    let msgs = shame_messages();
    assert(msgs@.len() == views(msgs@).len());
    let shame = crate::coude::pick_random(&msgs);
    let mut s = owned("\u{1f414} <@");
    push_str(&mut s, defender_id);
    push_str(&mut s, "> ");
    push_str(&mut s, shame);
    push_str(&mut s, " Perte de **");
    push_i64(&mut s, penalty);
    push_str(&mut s, " coins** !");
    proof {
        let i = choose|i: int| 0 <= i < msgs@.len() && msgs@[i] == shame;
        assert(views(msgs@)[i] == shame@);
        assert(shame_messages_spec()[i] == shame@);
    }
    s
}

/// The note added when the defender refused at least `threshold` times.
pub fn coward_note(defender_id: &str, cowardice: i32, threshold: i32, penalty_percent: i32) -> (r: Option<String>)
    ensures
        match r {
            Some(s) => cowardice >= threshold && s@ == "\n\n\u{1f414} **<@"@ + defender_id@
                + "> est un lache notoire !** ("@ + int_text(cowardice as int)
                + " refus)\nLes laches gagnent "@ + int_text(penalty_percent as int)
                + "% de moins en combat."@,
            None => cowardice < threshold,
        },
{
    if cowardice < threshold {
        return None;
    }
    let mut s = owned("\n\n\u{1f414} **<@");
    push_str(&mut s, defender_id);
    push_str(&mut s, "> est un lache notoire !** (");
    push_i64(&mut s, cowardice as i64);
    push_str(&mut s, " refus)\nLes laches gagnent ");
    push_i64(&mut s, penalty_percent as i64);
    push_str(&mut s, "% de moins en combat.");
    Some(s)
}


// ───────────────────────── laws of an answer ─────────────────────────

/// An answer to a duel is accepted exactly when it comes from the defender,
/// the duel's status is still `pending`, it has not waited longer than its
/// lifetime, and (when the guild is checked) it comes from the duel's own
/// guild; each refusal names a condition that failed.
pub proof fn law_answer_only_to_a_pending_duel(
    c: CombatView,
    clicker: Seq<char>,
    guild: Option<Seq<char>>,
    check_guild: bool,
    elapsed_secs: i64,
    expire_secs: i64,
)
    ensures
        ({
            let r = answer_spec(c, clicker, guild, check_guild, elapsed_secs, expire_secs);
            &&& r is Ok <==> (clicker == c.defender_id@ && c.status@ == "pending"@ && elapsed_secs <= expire_secs
                && !(check_guild && guild is Some && guild->0 != c.guild_id@))
            &&& r == Err::<(), AnswerRefusal>(AnswerRefusal::NotPending) ==> c.status@ != "pending"@
            &&& r == Err::<(), AnswerRefusal>(AnswerRefusal::NotDefender) ==> clicker != c.defender_id@
            &&& r == Err::<(), AnswerRefusal>(AnswerRefusal::Expired) ==> elapsed_secs > expire_secs
            &&& r == Err::<(), AnswerRefusal>(AnswerRefusal::OtherGuild) ==> check_guild && guild is Some
                && guild->0 != c.guild_id@
        }),
{
}

} // verus!
