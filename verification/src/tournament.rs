//! Announcements and rankings: the weekly tournament's results, the checks
//! on an expired steal's payload, the season's standings and the taunt
//! opt-out.

use vstd::prelude::*;
use crate::guild_config::{CoudeConfig, channel_spec};
use crate::text::{chars_of, copy_range, int_text, owned, parse_u64, parse_u64_spec, push_i64, push_str};

verus! {

/// A player of the tournament's top five.
pub struct TopEntry {
    pub user_id: String,
    pub username: String,
    pub net_gain: i64,
}

/// The `tournament_resolved` event: absent texts are empty, absent numbers
/// are 0.
pub struct TournamentResolved {
    pub guild_id: String,
    pub winner_user_id: String,
    pub winner_username: String,
    pub prize_amount: i64,
    pub prize_pct: i64,
    pub week_start: String,
    pub top5: Vec<TopEntry>,
}

/// A player's mention `<@id>`, or its name when the id is empty.
pub open spec fn mention_or_name_spec(user_id: Seq<char>, username: Seq<char>) -> Seq<char> {
    if user_id.len() > 0 {
        "<@"@ + user_id + ">"@
    } else {
        username
    }
}

/// How a player is named in the announcement.
pub fn mention_or_name(user_id: &str, username: &str) -> (s: String)
    ensures
        s@ == mention_or_name_spec(user_id@, username@),
{
    if user_id.is_empty() {
        owned(username)
    } else {
        let mut s = owned("<@");
        push_str(&mut s, user_id);
        push_str(&mut s, ">");
        s
    }
}

/// Medal of rank `i` (from 0): gold, silver, bronze, then a blue diamond.
pub open spec fn medal_spec(i: int) -> Seq<char> {
    if i == 0 {
        "\u{1f947}"@
    } else if i == 1 {
        "\u{1f948}"@
    } else if i == 2 {
        "\u{1f949}"@
    } else {
        "\u{1f539}"@
    }
}

/// The medal of rank `i`.
pub fn medal(i: usize) -> (m: &'static str)
    ensures
        m@ == medal_spec(i as int),
{
    if i == 0 {
        "\u{1f947}"
    } else if i == 1 {
        "\u{1f948}"
    } else if i == 2 {
        "\u{1f949}"
    } else {
        "\u{1f539}"
    }
}

/// Line of rank `i` in the top five.
pub open spec fn top_line_spec(i: int, e: TopEntry) -> Seq<char> {
    medal_spec(i) + " **"@ + mention_or_name_spec(e.user_id@, e.username@) + "** \u{2014} "@ + int_text(e.net_gain as int)
        + " coins nets\n"@
}

pub open spec fn top_lines_spec(es: Seq<TopEntry>, n: int) -> Seq<char>
    decreases n,
{
    if n <= 0 {
        Seq::empty()
    } else {
        top_lines_spec(es, n - 1) + top_line_spec(n - 1, es[n - 1])
    }
}

/// The top five's lines, or a sentence when nobody played.
pub open spec fn top5_text_spec(es: Seq<TopEntry>) -> Seq<char> {
    if es.len() == 0 {
        "_Aucune activite enregistree._"@
    } else {
        top_lines_spec(es, es.len() as int)
    }
}

fn top_line(i: usize, e: &TopEntry) -> (s: String)
    ensures
        s@ == top_line_spec(i as int, *e),
{
    let mut s = owned(medal(i));
    push_str(&mut s, " **");
    let who = mention_or_name(e.user_id.as_str(), e.username.as_str());
    push_str(&mut s, who.as_str());
    push_str(&mut s, "** \u{2014} ");
    push_i64(&mut s, e.net_gain);
    push_str(&mut s, " coins nets\n");
    s
}

/// The lines of the week's top five.
pub fn top5_text(entries: &Vec<TopEntry>) -> (s: String)
    ensures
        s@ == top5_text_spec(entries@),
{
    let n = entries.len();
    if n == 0 {
        return owned("_Aucune activite enregistree._");
    }
    let mut s = String::new();
    for i in 0..n
        invariant
            n == entries@.len(),
            s@ == top_lines_spec(entries@, i as int),
    {
        let line = top_line(i, &entries[i]);
        push_str(&mut s, line.as_str());
    }
    s
}

/// Text of the tournament's announcement.
pub open spec fn tournament_description_spec(ev: TournamentResolved) -> Seq<char> {
    "\u{1f3c6} **Gagnant** : "@ + mention_or_name_spec(ev.winner_user_id@, ev.winner_username@)
        + "\n\u{1f4b0} **Prix** : **"@ + int_text(ev.prize_amount as int) + "** coins ("@ + int_text(
        ev.prize_pct as int,
    ) + "% de la caisse)\n\n**Top 5 de la semaine**\n"@ + top5_text_spec(ev.top5@)
}

/// The announcement of a resolved tournament.
pub fn tournament_description(ev: &TournamentResolved) -> (s: String)
    ensures
        s@ == tournament_description_spec(*ev),
{
    let mut s = owned("\u{1f3c6} **Gagnant** : ");
    let w = mention_or_name(ev.winner_user_id.as_str(), ev.winner_username.as_str());
    push_str(&mut s, w.as_str());
    push_str(&mut s, "\n\u{1f4b0} **Prix** : **");
    push_i64(&mut s, ev.prize_amount);
    push_str(&mut s, "** coins (");
    push_i64(&mut s, ev.prize_pct);
    push_str(&mut s, "% de la caisse)\n\n**Top 5 de la semaine**\n");
    let t = top5_text(&ev.top5);
    push_str(&mut s, t.as_str());
    s
}

/// Footer of the announcement: the week's first day, its first ten
/// characters.
pub fn week_footer(week_start: &str) -> (s: String)
    ensures
        s@ == "Semaine du "@ + (if week_start@.len() <= 10 { week_start@ } else { week_start@.take(10) }),
{
    let cs = chars_of(week_start);
    let k = if cs.len() <= 10 {
        cs.len()
    } else {
        10
    };
    let head = copy_range(cs.as_slice(), 0, k);
    let mut s = owned("Semaine du ");
    crate::text::push_chars(&mut s, head.as_slice());
    proof {
        if cs@.len() <= 10 {
            assert(head@ =~= week_start@);
        } else {
            assert(head@ =~= week_start@.take(10));
        }
    }
    s
}

/// The channel the tournament's result goes to: the tournament channel
/// (else the activity channel) when it reads as a number.
pub open spec fn tournament_channel_spec(cfg: &CoudeConfig) -> Option<u64> {
    match (match channel_spec(&cfg.raw, "tournament_channel_id"@) {
        Some(v) => Some(v),
        None => channel_spec(&cfg.raw, "channel_activites"@),
    }) {
        Some(c) => parse_u64_spec(c),
        None => None,
    }
}

/// Where to post the tournament's result, if anywhere.
pub fn tournament_channel(cfg: &CoudeConfig) -> (r: Option<u64>)
    ensures
        r == tournament_channel_spec(cfg),
{
    match cfg.channel_tournament() {
        Some(c) => parse_u64(c.as_str()),
        None => None,
    }
}

// ───────────────────────── expired steals ─────────────────────────

/// The fields of a `coude:steal_expired` event (absent ones empty).
pub struct StealExpired {
    pub attempt_id: String,
    pub guild_id: String,
    pub thief_id: String,
    pub target_id: String,
    pub message_id: String,
    pub channel_id: String,
}

/// A hexadecimal digit, in either case.
pub open spec fn is_hex_digit(c: char) -> bool {
    ('0' <= c <= '9') || ('a' <= c <= 'f') || ('A' <= c <= 'F')
}

/// The hyphenated form of a UUID: 36 characters, hyphens at positions 8,
/// 13, 18 and 23, hexadecimal digits elsewhere.
pub open spec fn uuid_hyphenated(s: Seq<char>) -> bool {
    &&& s.len() == 36
    &&& forall|i: int|
        0 <= i < 36 ==> if i == 8 || i == 13 || i == 18 || i == 23 {
            s[i] == '-'
        } else {
            is_hex_digit(#[trigger] s[i])
        }
}

/// ASCII lower case of a character; other characters unchanged.
pub open spec fn ascii_lower(c: char) -> char {
    if 'A' <= c <= 'Z' {
        ((c as u32) + 32) as char
    } else {
        c
    }
}

/// The texts that read as a UUID: 32 hexadecimal digits, the hyphenated
/// form, the hyphenated form in braces, or the hyphenated form after
/// `urn:uuid:` written in any case.
pub open spec fn uuid_text(s: Seq<char>) -> bool {
    ||| s.len() == 32 && forall|i: int| 0 <= i < 32 ==> is_hex_digit(#[trigger] s[i])
    ||| uuid_hyphenated(s)
    ||| s.len() == 38 && s[0] == '{' && s[37] == '}' && uuid_hyphenated(s.subrange(1, 37))
    ||| s.len() == 45 && (forall|i: int|
        0 <= i < 9 ==> ascii_lower(#[trigger] s[i]) == seq!['u', 'r', 'n', ':', 'u', 'u', 'i', 'd', ':'][i])
        && uuid_hyphenated(s.subrange(9, 45))
}

/// Runs `uuid::Uuid::parse_str` and tells whether it succeeded. Its parser
/// (`uuid` 1.x, `parser.rs`) dispatches on the byte length: 32 bytes of
/// hexadecimal digits, 36 hyphenated, 38 hyphenated in braces, 45 after a
/// `urn:uuid:` prefix compared ignoring ASCII case; every accepted byte is
/// ASCII, so counting characters gives the same texts.
#[verifier::external_body]
fn uuid_parses(s: &str) -> (r: bool)
    ensures
        r == uuid_text(s@),
{
    uuid::Uuid::parse_str(s).is_ok()
}

/// An expired steal is handled only when every field is present, the
/// attempt id is a UUID (`uuid_ok`) and the channel and message ids read
/// as numbers; then those two ids.
pub open spec fn steal_expired_spec(e: StealExpired, uuid_ok: bool) -> Option<(u64, u64)> {
    if e.attempt_id@.len() == 0 || e.guild_id@.len() == 0 || e.thief_id@.len() == 0 || e.target_id@.len() == 0
        || e.message_id@.len() == 0 || e.channel_id@.len() == 0 {
        None
    } else if !uuid_ok {
        None
    } else {
        match (parse_u64_spec(e.channel_id@), parse_u64_spec(e.message_id@)) {
            (Some(c), Some(m)) => Some((c, m)),
            _ => None,
        }
    }
}

/// The channel and message of an expired steal's alert, given whether
/// its attempt id is a UUID.
pub fn steal_expired_decision(e: &StealExpired, uuid_ok: bool) -> (r: Option<(u64, u64)>)
    ensures
        r == steal_expired_spec(*e, uuid_ok),
{
    if e.attempt_id.as_str().is_empty() || e.guild_id.as_str().is_empty() || e.thief_id.as_str().is_empty()
        || e.target_id.as_str().is_empty() || e.message_id.as_str().is_empty() || e.channel_id.as_str().is_empty() {
        return None;
    }
    if !uuid_ok {
        return None;
    }
    match (parse_u64(e.channel_id.as_str()), parse_u64(e.message_id.as_str())) {
        (Some(c), Some(m)) => Some((c, m)),
        _ => None,
    }
}

/// The channel and message of an expired steal's alert, when the event is
/// complete and valid.
pub fn steal_expired_target(e: &StealExpired) -> (r: Option<(u64, u64)>)
    ensures
        r == steal_expired_spec(*e, uuid_text(e.attempt_id@)),
{
    let ok = uuid_parses(e.attempt_id.as_str());
    steal_expired_decision(e, ok)
}

// ───────────────────────── seasons ─────────────────────────

/// A leaderboard entry: a player's name and the ranked value.
pub struct RankEntry {
    pub username: String,
    pub value: i64,
}

/// Medal of the `i`-th of a season ranking: gold, silver, bronze, then
/// none.
pub open spec fn season_medal_spec(i: int) -> Seq<char> {
    if i == 0 {
        "\u{1f947}"@
    } else if i == 1 {
        "\u{1f948}"@
    } else if i == 2 {
        "\u{1f949}"@
    } else {
        Seq::empty()
    }
}

/// Line `i` of a ranking: medal, bold name, the value and its unit.
pub open spec fn rank_line_spec(i: int, e: RankEntry, before: Seq<char>, after: Seq<char>) -> Seq<char> {
    season_medal_spec(i) + " **"@ + e.username@ + "** \u{2014} "@ + before + int_text(e.value as int) + after
}

pub open spec fn rank_lines_spec(es: Seq<RankEntry>, before: Seq<char>, after: Seq<char>, n: int) -> Seq<char>
    decreases n,
{
    if n <= 0 {
        Seq::empty()
    } else if n == 1 {
        rank_line_spec(0, es[0], before, after)
    } else {
        rank_lines_spec(es, before, after, n - 1) + "\n"@ + rank_line_spec(n - 1, es[n - 1], before, after)
    }
}

fn rank_line(i: usize, e: &RankEntry, before: &str, after: &str) -> (s: String)
    ensures
        s@ == rank_line_spec(i as int, *e, before@, after@),
{
    let mut s = String::new();
    if i == 0 {
        push_str(&mut s, "\u{1f947}");
    } else if i == 1 {
        push_str(&mut s, "\u{1f948}");
    } else if i == 2 {
        push_str(&mut s, "\u{1f949}");
    }
    push_str(&mut s, " **");
    push_str(&mut s, e.username.as_str());
    push_str(&mut s, "** \u{2014} ");
    push_str(&mut s, before);
    push_i64(&mut s, e.value);
    push_str(&mut s, after);
    s
}

/// A season ranking: one line per player with the value between `before`
/// and `after`, or `Aucun joueur`.
pub fn season_ranking(entries: &Vec<RankEntry>, before: &str, after: &str) -> (s: String)
    ensures
        s@ == (if entries@.len() == 0 {
            "Aucun joueur"@
        } else {
            rank_lines_spec(entries@, before@, after@, entries@.len() as int)
        }),
{
    let n = entries.len();
    if n == 0 {
        return owned("Aucun joueur");
    }
    let mut s = String::new();
    for i in 0..n
        invariant
            n == entries@.len(),
            s@ == rank_lines_spec(entries@, before@, after@, i as int),
    {
        if i > 0 {
            push_str(&mut s, "\n");
        }
        let line = rank_line(i, &entries[i], before, after);
        push_str(&mut s, line.as_str());
        proof {
            if i == 0 {
                assert(s@ =~= rank_line_spec(0, entries@[0], before@, after@));
            }
        }
    }
    s
}

/// The season's heading: its number, start date and days left, or a
/// generic text when no season is known.
pub fn season_header(season: Option<(i64, &str, i64)>) -> (r: (String, String))
    ensures
        match season {
            Some((number, started_at, days_left)) => r.0@ == "\u{1f3c6} Saison "@ + int_text(number as int) && r.1@
                == "Saison demarree le **"@ + crate::coude::date_part(started_at@)
                + "**\n\u{23f3} Temps restant : **"@ + int_text(days_left as int)
                + " jours**\n\nLa saison dure 90 jours. Le joueur le plus riche a la fin sera couronne **Champion** !"@,
            None => r.0@ == "\u{1f3c6} Saison en cours"@ && r.1@
                == "La saison se termine tous les 3 mois. Le joueur le plus riche sera couronne **Champion** !"@,
        },
{
    match season {
        Some((number, started_at, days_left)) => {
            let mut title = owned("\u{1f3c6} Saison ");
            push_i64(&mut title, number);
            let mut d = owned("Saison demarree le **");
            let date = crate::coude::date_prefix(started_at);
            push_str(&mut d, date.as_str());
            push_str(&mut d, "**\n\u{23f3} Temps restant : **");
            push_i64(&mut d, days_left);
            push_str(
                &mut d,
                " jours**\n\nLa saison dure 90 jours. Le joueur le plus riche a la fin sera couronne **Champion** !",
            );
            (title, d)
        },
        None => (
            owned("\u{1f3c6} Saison en cours"),
            owned("La saison se termine tous les 3 mois. Le joueur le plus riche sera couronne **Champion** !"),
        ),
    }
}

// ───────────────────────── taunts ─────────────────────────

/// The `/no-taunts` option: `on` opts out, `off` opts back in.
pub fn taunts_opt_out(state: Option<&str>) -> (r: Option<bool>)
    ensures
        r == match state {
            Some(s) => if s@ == "on"@ {
                Some(true)
            } else if s@ == "off"@ {
                Some(false)
            } else {
                None
            },
            None => None,
        },
{
    match state {
        Some(s) => if crate::text::str_eq(s, "on") {
            Some(true)
        } else if crate::text::str_eq(s, "off") {
            Some(false)
        } else {
            None
        },
        None => None,
    }
}

/// A taunt the game asks the bot to post.
pub struct TauntEvent {
    pub channel_id: String,
    pub target_user_id: String,
    pub message: String,
    pub nickname_suffix: String,
    pub streak_kind: String,
    pub streak_value: i32,
}

} // verus!
