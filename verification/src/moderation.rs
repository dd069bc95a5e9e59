//! Moderation helpers: immunity, autocomplete routing, the permission
//! checks, bans and the removal of warnings.

use vstd::prelude::*;
use crate::config::{ConfigMap, u64_setting};
use crate::text::{chars_of, copy_range, int_text, owned, parse_u64, parse_u64_spec, push_chars, push_i64, push_str, push_u64, str_eq, string_of, trim_chars, trim_spec};

verus! {

// ───────────────────────── moderation module ─────────────────────────

/// Moderation commands whose reason field offers template completion.
pub fn handles_autocomplete(cmd_name: &str) -> (r: bool)
    ensures
        r == (cmd_name@ == "warn"@ || cmd_name@ == "mute"@ || cmd_name@ == "ban"@),
{
    str_eq(cmd_name, "warn") || str_eq(cmd_name, "mute") || str_eq(cmd_name, "ban")
}

// ───────────────────────── immunity ─────────────────────────

/// Message telling that a member is immune through `role_id`.
pub open spec fn immunity_spec(role_id: u64, action_label: Seq<char>) -> Seq<char> {
    "\u{1f6e1}\u{fe0f} Ce membre est **immunise** contre les sanctions (role <@&"@ + int_text(role_id as int)
        + ">).\nImpossible d'appliquer : **"@ + action_label + "**."@
}

/// User-facing message for a sanction refused because the member holds the
/// immune role `role_id`.
pub fn immunity_message(role_id: u64, action_label: &str) -> (s: String)
    ensures
        s@ == immunity_spec(role_id, action_label@),
{
    let mut s = String::new();
    push_str(&mut s, "\u{1f6e1}\u{fe0f} Ce membre est **immunise** contre les sanctions (role <@&");
    push_u64(&mut s, role_id);
    push_str(&mut s, ">).\nImpossible d'appliquer : **");
    push_str(&mut s, action_label);
    push_str(&mut s, "**.");
    s
}

/// Separators of the ignored-roles setting: comma, space, newline.
pub open spec fn is_role_sep(c: char) -> bool {
    c == ',' || c == ' ' || c == '\n'
}

/// Pieces of `s` between separators (`str::split` on the three
/// separators), built from the left.
pub open spec fn role_pieces(s: Seq<char>) -> Seq<Seq<char>>
    decreases s.len(),
{
    if s.len() == 0 {
        seq![Seq::empty()]
    } else {
        let prev = role_pieces(s.drop_last());
        if is_role_sep(s.last()) {
            prev.push(Seq::empty())
        } else {
            prev.update(prev.len() - 1, prev.last().push(s.last()))
        }
    }
}

pub proof fn lemma_role_pieces_nonempty(s: Seq<char>)
    ensures
        role_pieces(s).len() >= 1,
    decreases s.len(),
{
    if s.len() > 0 {
        lemma_role_pieces_nonempty(s.drop_last());
    }
}

/// Role ids read from pieces: each piece trimmed and read as a `u64`;
/// pieces that are not numbers are skipped.
pub open spec fn ids_of(pieces: Seq<Seq<char>>) -> Seq<u64>
    decreases pieces.len(),
{
    if pieces.len() == 0 {
        Seq::empty()
    } else {
        match parse_u64_spec(trim_spec(pieces.last())) {
            Some(v) => ids_of(pieces.drop_last()).push(v),
            None => ids_of(pieces.drop_last()),
        }
    }
}

/// Role ids listed in the ignored-roles setting.
pub open spec fn ignored_ids_spec(raw: Seq<char>) -> Seq<u64> {
    ids_of(role_pieces(raw))
}

proof fn lemma_ids_of_push(ps: Seq<Seq<char>>, p: Seq<char>)
    ensures
        ids_of(ps.push(p)) == match parse_u64_spec(trim_spec(p)) {
            Some(v) => ids_of(ps).push(v),
            None => ids_of(ps),
        },
{
    assert(ps.push(p).drop_last() =~= ps);
}

/// Role ids in the ignored-roles setting `raw`, in order.
pub fn parse_ignored_roles(raw: &str) -> (ids: Vec<u64>)
    ensures
        ids@ == ignored_ids_spec(raw@),
{
    let cs = chars_of(raw);
    let n = cs.len();
    let mut ids: Vec<u64> = Vec::new();
    let mut cur: Vec<char> = Vec::new();
    let ghost mut done: Seq<Seq<char>> = Seq::empty();
    for i in 0..n
        invariant
            n == cs@.len(),
            cs@ == raw@,
            role_pieces(cs@.take(i as int)) == done.push(cur@),
            ids@ == ids_of(done),
    {
        let c = cs[i];
        let ghost prev = cs@.take(i as int);
        assert(cs@.take(i + 1).drop_last() =~= prev);
        assert(cs@.take(i + 1).last() == c);
        if c == ',' || c == ' ' || c == '\n' {
            let t = trim_chars(cur.as_slice());
            let ts = crate::text::string_of(t.as_slice());
            let parsed = parse_u64(ts.as_str());
            proof {
                lemma_ids_of_push(done, cur@);
            }
            if let Some(v) = parsed {
                ids.push(v);
            }
            proof {
                done = done.push(cur@);
            }
            cur = Vec::new();
            assert(role_pieces(cs@.take(i + 1)) =~= done.push(cur@));
        } else {
            let ghost old_cur = cur@;
            cur.push(c);
            assert(role_pieces(cs@.take(i + 1)) =~= done.push(old_cur).update(done.len() as int, old_cur.push(c)));
            assert(done.push(old_cur).update(done.len() as int, old_cur.push(c)) =~= done.push(cur@));
        }
    }
    assert(cs@.take(n as int) =~= cs@);
    let t = trim_chars(cur.as_slice());
    let ts = crate::text::string_of(t.as_slice());
    proof {
        lemma_ids_of_push(done, cur@);
    }
    if let Some(v) = parse_u64(ts.as_str()) {
        ids.push(v);
    }
    ids
}

/// Position in `roles` of the first role listed in `ids`, if any.
pub open spec fn first_listed(roles: Seq<u64>, ids: Seq<u64>) -> Option<int> {
    if exists|i: int| 0 <= i < roles.len() && ids.contains(#[trigger] roles[i]) {
        Some(choose|i: int| 0 <= i < roles.len() && ids.contains(roles[i]) && forall|j: int|
            0 <= j < i ==> !ids.contains(#[trigger] roles[j]))
    } else {
        None
    }
}

/// Immune role of a member holding `roles` in a guild whose ignored-roles
/// setting is `raw`: the member's first role listed there; none when the
/// setting is absent, blank or lists no number.
pub open spec fn immune_role_spec(raw: Option<Seq<char>>, roles: Seq<u64>) -> Option<u64> {
    match raw {
        None => None,
        Some(s) => if trim_spec(s).len() == 0 || ignored_ids_spec(s).len() == 0 {
            None
        } else {
            match first_listed(roles, ignored_ids_spec(s)) {
                Some(i) => Some(roles[i]),
                None => None,
            }
        },
    }
}

/// `v` is in `ids`.
fn contains_u64(ids: &Vec<u64>, v: u64) -> (r: bool)
    ensures
        r == ids@.contains(v),
{
    let n = ids.len();
    for i in 0..n
        invariant
            n == ids@.len(),
            forall|j: int| 0 <= j < i ==> ids@[j] != v,
    {
        if ids[i] == v {
            assert(ids@[i as int] == v);
            return true;
        }
    }
    false
}

/// The role that makes a member immune to sanctions, given the guild's
/// ignored-roles setting (`None` when unset) and the member's roles.
#[verifier::loop_isolation(false)]
pub fn find_immune_role(ignored_roles: Option<&str>, member_roles: &Vec<u64>) -> (r: Option<u64>)
    ensures
        r == immune_role_spec(
            match ignored_roles {
                Some(s) => Some(s@),
                None => None,
            },
            member_roles@,
        ),
{
    let raw = match ignored_roles {
        Some(s) => s,
        None => return None,
    };
    let cs = chars_of(raw);
    let t = trim_chars(cs.as_slice());
    if t.len() == 0 {
        return None;
    }
    let ids = parse_ignored_roles(raw);
    if ids.len() == 0 {
        return None;
    }
    let n = member_roles.len();
    for i in 0..n
        invariant
            n == member_roles@.len(),
            ids@ == ignored_ids_spec(raw@),
            forall|j: int| 0 <= j < i ==> !ids@.contains(#[trigger] member_roles@[j]),
    {
        let rid = member_roles[i];
        if contains_u64(&ids, rid) {
            proof {
                let roles = member_roles@;
                assert(ids@.contains(roles[i as int]));
                let w = choose|k: int| 0 <= k < roles.len() && ids@.contains(roles[k]) && forall|j: int|
                    0 <= j < k ==> !ids@.contains(#[trigger] roles[j]);
                assert(0 <= w < roles.len() && ids@.contains(roles[w]));
                if w < i {
                    assert(!ids@.contains(roles[w]));
                }
                if w > i {
                    assert(!ids@.contains(roles[i as int]));
                }
            }
            return Some(rid);
        }
    }
    None
}

// ───────────────────────── permissions ─────────────────────────

/// Discord's administrator permission bit.
pub const ADMINISTRATOR: u64 = 8;

/// A member with permission bits `perms` (none when unknown) holds all of
/// `required`, or is an administrator.
pub open spec fn has_permission_spec(perms: Option<u64>, required: u64) -> bool {
    match perms {
        Some(p) => (p & required) == required || (p & 8u64) == 8u64,
        None => false,
    }
}

/// The moderator check of the moderation commands and buttons.
pub fn has_mod_permission(perms: Option<u64>, required: u64) -> (r: bool)
    ensures
        r == has_permission_spec(perms, required),
{
    match perms {
        Some(p) => (p & required) == required || (p & ADMINISTRATOR) == ADMINISTRATOR,
        None => false,
    }
}

// ───────────────────────── bans ─────────────────────────

/// What `/ban` will do.
pub struct BanPlan {
    /// The reason, cut to 500 characters (`Aucune raison` when absent).
    pub reason: String,
    pub is_permanent: bool,
    pub duration_secs: Option<u64>,
    /// `permanent`, or the hours followed by `h`.
    pub duration_label: String,
    /// `ban_permanent` or `ban_temp`, as logged.
    pub action_type: String,
}

/// The reason of a sanction: the given one cut to its first 500
/// characters, or `Aucune raison`.
pub open spec fn sanction_reason_spec(reason: Option<Seq<char>>) -> Seq<char> {
    match reason {
        Some(r) => if r.len() <= 500 {
            r
        } else {
            r.take(500)
        },
        None => "Aucune raison"@,
    }
}

/// The ban of `/ban` for the given reason and length in hours (none is
/// permanent); hours are taken as `u64` and turned into seconds.
pub fn plan_ban(reason: Option<&str>, hours: Option<i64>) -> (p: BanPlan)
    requires
        hours matches Some(h) ==> (h as u64) * 3600 <= u64::MAX,
    ensures
        p.reason@ == sanction_reason_spec(
            match reason {
                Some(r) => Some(r@),
                None => None,
            },
        ),
        p.is_permanent == hours is None,
        p.duration_secs == match hours {
            Some(h) => Some(((h as u64) * 3600) as u64),
            None => None,
        },
        p.duration_label@ == match hours {
            Some(h) => int_text(h as int) + "h"@,
            None => "permanent"@,
        },
        p.action_type@ == (if hours is None { "ban_permanent"@ } else { "ban_temp"@ }),
{
    let r = match reason {
        Some(text) => {
            let cs = chars_of(text);
            let k = if cs.len() <= 500 {
                cs.len()
            } else {
                500
            };
            let head = copy_range(cs.as_slice(), 0, k);
            proof {
                if cs@.len() <= 500 {
                    assert(head@ =~= text@);
                } else {
                    assert(head@ =~= text@.take(500));
                }
            }
            string_of(head.as_slice())
        },
        None => owned("Aucune raison"),
    };
    match hours {
        Some(h) => {
            let mut label = String::new();
            push_i64(&mut label, h);
            push_str(&mut label, "h");
            let secs: u64 = (h as u64) * 3600;
            BanPlan {
                reason: r,
                is_permanent: false,
                duration_secs: Some(secs),
                duration_label: label,
                action_type: owned("ban_temp"),
            }
        },
        None => BanPlan {
            reason: r,
            is_permanent: true,
            duration_secs: None,
            duration_label: owned("permanent"),
            action_type: owned("ban_permanent"),
        },
    }
}

/// Days of messages a ban deletes: setting `ban_delete_message_days`,
/// default 1, taken as `u8`.
pub fn ban_delete_days(cfg: &ConfigMap) -> (d: u8)
    ensures
        d == u64_setting(cfg, "ban_delete_message_days"@, 1) as u8,
{
    crate::config::config_u64(cfg, "ban_delete_message_days", 1) as u8
}

/// Text asking to confirm a ban on a risky member.
pub open spec fn risky_ban_text_spec(target_id: u64, target_name: Seq<char>, risk: Seq<char>, label: Seq<char>, reason: Seq<
    char,
>) -> Seq<char> {
    "La cible <@"@ + int_text(target_id as int) + "> (`"@ + target_name + "`) presente un risque : **"@ + risk
        + "**.\n\nAction demandee : **Ban ("@ + label + ")**\nRaison : "@ + reason + "\n\nConfirmer l'execution ?"@
}

/// The confirmation asked before banning a risky member.
pub fn risky_ban_text(target_id: u64, target_name: &str, risk: &str, label: &str, reason: &str) -> (s: String)
    ensures
        s@ == risky_ban_text_spec(target_id, target_name@, risk@, label@, reason@),
{
    let mut s = owned("La cible <@");
    push_u64(&mut s, target_id);
    push_str(&mut s, "> (`");
    push_str(&mut s, target_name);
    push_str(&mut s, "`) presente un risque : **");
    push_str(&mut s, risk);
    push_str(&mut s, "**.\n\nAction demandee : **Ban (");
    push_str(&mut s, label);
    push_str(&mut s, ")**\nRaison : ");
    push_str(&mut s, reason);
    push_str(&mut s, "\n\nConfirmer l'execution ?");
    s
}

/// The member to unban: the `user_id` option (`0` when absent) read as a
/// number.
pub fn unban_target(user_id: Option<&str>) -> (r: Option<u64>)
    ensures
        r == parse_u64_spec(
            match user_id {
                Some(u) => u@,
                None => "0"@,
            },
        ),
{
    match user_id {
        Some(u) => parse_u64(u),
        None => parse_u64("0"),
    }
}

// ───────────────────────── removing warnings ─────────────────────────

/// Prefix of the buttons that remove one warning.
pub const UNWARN_PREFIX: &'static str = "mod_unwarn:";

/// The warning removed by a button: its id after the prefix.
pub fn unwarn_action_id(custom_id: &str) -> (r: Option<String>)
    ensures
        match r {
            Some(id) => crate::text::is_prefix("mod_unwarn:"@, custom_id@) && id@ == custom_id@.skip(
                "mod_unwarn:"@.len() as int,
            ),
            None => !crate::text::is_prefix("mod_unwarn:"@, custom_id@),
        },
{
    if !crate::text::starts_with(custom_id, UNWARN_PREFIX) {
        return None;
    }
    let cs = chars_of(custom_id);
    let pl = chars_of(UNWARN_PREFIX).len();
    Some(string_of(crate::text::slice_from(cs.as_slice(), pl)))
}

/// Identifier of the button that removes warning `action_id`.
pub fn unwarn_button_id(action_id: &str) -> (s: String)
    ensures
        s@ == UNWARN_PREFIX@ + action_id@,
{
    let mut s = owned(UNWARN_PREFIX);
    push_str(&mut s, action_id);
    s
}

/// A warning's button reads back as that warning: `unwarn_action_id` of
/// `unwarn_button_id(id)` is `id`.
pub proof fn law_unwarn_button_roundtrip(action_id: Seq<char>)
    ensures
        crate::text::is_prefix(UNWARN_PREFIX@, UNWARN_PREFIX@ + action_id),
        (UNWARN_PREFIX@ + action_id).skip(UNWARN_PREFIX@.len() as int) == action_id,
{
    let s = UNWARN_PREFIX@ + action_id;
    assert(s.take(UNWARN_PREFIX@.len() as int) =~= UNWARN_PREFIX@);
    assert(s.skip(UNWARN_PREFIX@.len() as int) =~= action_id);
}

/// The first (at most) eight characters of an action id, as shown.
pub open spec fn short_id_spec(id: Seq<char>) -> Seq<char> {
    if id.len() <= 8 {
        id
    } else {
        id.take(8)
    }
}

fn short_id(id: &str) -> (s: String)
    ensures
        s@ == short_id_spec(id@),
{
    let cs = chars_of(id);
    let k = if cs.len() <= 8 {
        cs.len()
    } else {
        8
    };
    let head = copy_range(cs.as_slice(), 0, k);
    proof {
        if cs@.len() <= 8 {
            assert(head@ =~= id@);
        } else {
            assert(head@ =~= id@.take(8));
        }
    }
    string_of(head.as_slice())
}

/// Text shown once a warning is removed.
pub fn unwarn_done_text(action_id: &str, moderator: &str) -> (s: String)
    ensures
        s@ == "Warn `"@ + short_id_spec(action_id@) + "` supprime par **"@ + moderator@ + "**."@,
{
    let mut s = owned("Warn `");
    let id = short_id(action_id);
    push_str(&mut s, id.as_str());
    push_str(&mut s, "` supprime par **");
    push_str(&mut s, moderator);
    push_str(&mut s, "**.");
    s
}

/// Journal line of a removed warning.
pub fn unwarn_log_text(action_id: &str, moderator_id: u64) -> (s: String)
    ensures
        s@ == "Warn `"@ + short_id_spec(action_id@) + "` retire par <@"@ + int_text(moderator_id as int) + ">"@,
{
    let mut s = owned("Warn `");
    let id = short_id(action_id);
    push_str(&mut s, id.as_str());
    push_str(&mut s, "` retire par <@");
    push_u64(&mut s, moderator_id);
    push_str(&mut s, ">");
    s
}

/// A past sanction as the moderation history lists it.
pub struct ModerationEntry {
    pub id: String,
    pub action_type: String,
    pub created_at: String,
    pub gravity: Option<String>,
    pub moderator_name: String,
    pub reason: String,
}

/// Positions of the warnings among the sanctions, in order.
pub open spec fn warn_positions(es: Seq<ModerationEntry>, n: int) -> Seq<int>
    decreases n,
{
    if n <= 0 {
        Seq::empty()
    } else if es[n - 1].action_type@ == "warn"@ {
        warn_positions(es, n - 1).push(n - 1)
    } else {
        warn_positions(es, n - 1)
    }
}

/// The positions of the warnings among `entries`.
pub fn warn_indices(entries: &Vec<ModerationEntry>) -> (v: Vec<usize>)
    ensures
        v@.map_values(|i: usize| i as int) == warn_positions(entries@, entries@.len() as int),
{
    let n = entries.len();
    let mut v: Vec<usize> = Vec::new();
    for i in 0..n
        invariant
            n == entries@.len(),
            v@.map_values(|k: usize| k as int) == warn_positions(entries@, i as int),
    {
        if str_eq(entries[i].action_type.as_str(), "warn") {
            v.push(i);
            assert(v@.map_values(|k: usize| k as int) =~= warn_positions(entries@, i as int).push(i as int));
        }
    }
    v
}

/// Line `i` (from 0) of the list of warnings: number, date (first ten
/// characters), gravity (`?` when none), moderator and the reason's first
/// fifty characters.
pub open spec fn warn_line_spec(i: int, e: ModerationEntry) -> Seq<char> {
    "**#"@ + int_text(i + 1) + "** \u{2014} "@ + (if e.created_at@.len() <= 10 {
        e.created_at@
    } else {
        e.created_at@.take(10)
    }) + " | Gravite: **"@ + (match e.gravity {
        Some(g) => g@,
        None => "?"@,
    }) + "** | "@ + e.moderator_name@ + "\n> Raison : "@ + (if e.reason@.len() <= 50 {
        e.reason@
    } else {
        e.reason@.take(50)
    }) + "\n\n"@
}

fn prefix_chars(s: &str, k: usize) -> (r: Vec<char>)
    ensures
        r@ == (if s@.len() <= k { s@ } else { s@.take(k as int) }),
{
    let cs = chars_of(s);
    let m = if cs.len() <= k {
        cs.len()
    } else {
        k
    };
    let head = copy_range(cs.as_slice(), 0, m);
    proof {
        if cs@.len() <= k {
            assert(head@ =~= s@);
        } else {
            assert(head@ =~= s@.take(k as int));
        }
    }
    head
}

/// A line of the list of warnings.
pub fn warn_line(i: u64, e: &ModerationEntry) -> (s: String)
    requires
        i < u64::MAX,
    ensures
        s@ == warn_line_spec(i as int, *e),
{
    let mut s = owned("**#");
    push_u64(&mut s, i + 1);
    push_str(&mut s, "** \u{2014} ");
    let date = prefix_chars(e.created_at.as_str(), 10);
    push_chars(&mut s, date.as_slice());
    push_str(&mut s, " | Gravite: **");
    match &e.gravity {
        Some(g) => push_str(&mut s, g.as_str()),
        None => push_str(&mut s, "?"),
    }
    push_str(&mut s, "** | ");
    push_str(&mut s, e.moderator_name.as_str());
    push_str(&mut s, "\n> Raison : ");
    let reason = prefix_chars(e.reason.as_str(), 50);
    push_chars(&mut s, reason.as_slice());
    push_str(&mut s, "\n\n");
    s
}

/// Summary of removing all of a member's warnings.
pub fn unwarn_all_summary(success: u32, total: usize, target_id: u64, moderator: &str) -> (s: String)
    ensures
        s@ == "**"@ + int_text(success as int) + "/"@ + int_text(total as int) + "** avertissements supprimes pour <@"@
            + int_text(target_id as int) + ">\n\nModerateur : **"@ + moderator@ + "**"@,
{
    let mut s = owned("**");
    push_u64(&mut s, success as u64);
    push_str(&mut s, "/");
    push_u64(&mut s, total as u64);
    push_str(&mut s, "** avertissements supprimes pour <@");
    push_u64(&mut s, target_id);
    push_str(&mut s, ">\n\nModerateur : **");
    push_str(&mut s, moderator);
    push_str(&mut s, "**");
    s
}

/// Counts of a mass removal: a deletion counts as done only when the API
/// confirms it; a refusal or an error counts as failed.
pub fn count_deletions(results: &Vec<Option<bool>>) -> (r: (u32, u32))
    requires
        results@.len() <= u32::MAX,
    ensures
        r.0 == results@.filter(|x: Option<bool>| x == Some(true)).len(),
        r.0 + r.1 == results@.len(),
{
    let n = results.len();
    let mut ok: u32 = 0;
    let mut failed: u32 = 0;
    for i in 0..n
        invariant
            n == results@.len(),
            n <= u32::MAX,
            ok == results@.take(i as int).filter(|x: Option<bool>| x == Some(true)).len(),
            ok + failed == i,
    {
        proof {
            let t = results@.take(i + 1);
            assert(t.drop_last() =~= results@.take(i as int));
            reveal_with_fuel(Seq::filter, 1);
        }
        match results[i] {
            Some(true) => {
                ok = ok + 1;
            },
            _ => {
                failed = failed + 1;
            },
        }
    }
    assert(results@.take(n as int) =~= results@);
    (ok, failed)
}

// ───────────────────────── warnings ─────────────────────────

/// What a warning escalates to, as the API decides it.
#[derive(PartialEq, Eq, Structural, Clone, Copy, Debug)]
pub enum Escalation {
    NoEscalation,
    /// A mute for this many seconds (600 when the API gives none).
    Mute { secs: u64 },
    Ban,
}

/// The escalation of a warning from the API's action and duration.
pub fn escalation_of(action: Option<&str>, duration: Option<u64>) -> (e: Escalation)
    ensures
        e == match action {
            Some(a) => if a@ == "mute"@ {
                Escalation::Mute {
                    secs: match duration {
                        Some(d) => d,
                        None => 600,
                    },
                }
            } else if a@ == "ban"@ {
                Escalation::Ban
            } else {
                Escalation::NoEscalation
            },
            None => Escalation::NoEscalation,
        },
{
    match action {
        Some(a) => if str_eq(a, "mute") {
            Escalation::Mute {
                secs: match duration {
                    Some(d) => d,
                    None => 600,
                },
            }
        } else if str_eq(a, "ban") {
            Escalation::Ban
        } else {
            Escalation::NoEscalation
        },
        None => Escalation::NoEscalation,
    }
}

/// The warning's gravity: the option given, `medium` by default.
pub fn warn_gravity(gravity: Option<&str>) -> (g: String)
    ensures
        g@ == match gravity {
            Some(x) => x@,
            None => "medium"@,
        },
{
    match gravity {
        Some(x) => owned(x),
        None => owned("medium"),
    }
}

/// The strike suffix of a warning's title.
pub fn strikes_label(strikes: Option<i64>) -> (s: String)
    ensures
        s@ == match strikes {
            Some(c) => " \u{2014} Strike "@ + int_text(c as int),
            None => Seq::empty(),
        },
{
    let mut s = String::new();
    if let Some(c) = strikes {
        push_str(&mut s, " \u{2014} Strike ");
        push_i64(&mut s, c);
    }
    s
}

// ───────────────────────── summons ─────────────────────────

/// Prefix of the button that closes a summons.
pub const CALL_CLOSE_PREFIX: &'static str = "sentinel_mod_call_close:";

/// Identifier of the button that closes a summons opened by
/// `moderator_id`.
pub fn call_close_button_id(moderator_id: u64) -> (s: String)
    ensures
        s@ == CALL_CLOSE_PREFIX@ + int_text(moderator_id as int),
{
    let mut s = owned(CALL_CLOSE_PREFIX);
    push_u64(&mut s, moderator_id);
    s
}

/// The moderator who opened a summons may always close it with its
/// button, whatever its permissions.
pub proof fn law_opener_may_close_call(moderator_id: u64)
    ensures
        crate::text::is_prefix(CALL_CLOSE_PREFIX@, CALL_CLOSE_PREFIX@ + int_text(moderator_id as int)),
        parse_u64_spec((CALL_CLOSE_PREFIX@ + int_text(moderator_id as int)).skip(CALL_CLOSE_PREFIX@.len() as int))
            == Some(moderator_id),
{
    let t = int_text(moderator_id as int);
    let s = CALL_CLOSE_PREFIX@ + t;
    assert(s.take(CALL_CLOSE_PREFIX@.len() as int) =~= CALL_CLOSE_PREFIX@);
    assert(s.skip(CALL_CLOSE_PREFIX@.len() as int) =~= t);
    crate::text::lemma_u64_text_parses(moderator_id);
}

/// The reason of a summons: the given one or the default sentence.
pub fn call_reason(reason: Option<&str>) -> (r: String)
    ensures
        r@ == match reason {
            Some(x) => x@,
            None => "Convocation par un moderateur"@,
        },
{
    match reason {
        Some(x) => owned(x),
        None => owned("Convocation par un moderateur"),
    }
}

/// Every space of `s` replaced by a dash.
pub open spec fn dashes_for_spaces(s: Seq<char>) -> Seq<char> {
    s.map_values(|c: char| if c == ' ' { '-' } else { c })
}

/// Name of a summons channel: `call-` and the member's name in lower
/// case, spaces turned into dashes.
pub fn call_channel_name(username: &str) -> (s: String)
    ensures
        s@ == "call-"@ + dashes_for_spaces(crate::text::lowercase_of(username@)),
{
    let low = crate::text::to_lowercase(username);
    let cs = chars_of(low.as_str());
    let mut out: Vec<char> = Vec::new();
    let n = cs.len();
    for i in 0..n
        invariant
            n == cs@.len(),
            out@ == dashes_for_spaces(cs@.take(i as int)),
    {
        let c = cs[i];
        out.push(if c == ' ' { '-' } else { c });
        assert(dashes_for_spaces(cs@.take(i + 1)) =~= dashes_for_spaces(cs@.take(i as int)).push(
            if c == ' ' { '-' } else { c },
        ));
    }
    assert(cs@.take(n as int) =~= cs@);
    let mut s = owned("call-");
    push_chars(&mut s, out.as_slice());
    s
}

/// Topic of a summons channel: who summoned whom, and why.
pub fn call_topic(moderator_id: u64, target_id: u64, reason: &str) -> (s: String)
    ensures
        s@ == "[call:"@ + int_text(moderator_id as int) + ":"@ + int_text(target_id as int) + "] "@ + reason@,
{
    let mut s = owned("[call:");
    push_u64(&mut s, moderator_id);
    push_str(&mut s, ":");
    push_u64(&mut s, target_id);
    push_str(&mut s, "] ");
    push_str(&mut s, reason);
    s
}

/// Text of a summons.
pub fn call_text(target_id: u64, moderator_id: u64, reason: &str) -> (s: String)
    ensures
        s@ == "<@"@ + int_text(target_id as int) + ">, vous avez ete convoque par <@"@ + int_text(moderator_id as int)
            + ">.\n\n**Raison :** "@ + reason@,
{
    let mut s = owned("<@");
    push_u64(&mut s, target_id);
    push_str(&mut s, ">, vous avez ete convoque par <@");
    push_u64(&mut s, moderator_id);
    push_str(&mut s, ">.\n\n**Raison :** ");
    push_str(&mut s, reason);
    s
}

/// A summons may be closed by the moderator who opened it (named in the
/// button) or by any moderator.
pub fn may_close_call(custom_id: &str, clicker: u64, perms: Option<u64>, moderate_members: u64) -> (r: bool)
    ensures
        r == ((crate::text::is_prefix(CALL_CLOSE_PREFIX@, custom_id@) && parse_u64_spec(
            custom_id@.skip(CALL_CLOSE_PREFIX@.len() as int),
        ) == Some(clicker)) || has_permission_spec(perms, moderate_members)),
{
    let opened_it = if crate::text::starts_with(custom_id, CALL_CLOSE_PREFIX) {
        let cs = chars_of(custom_id);
        let pl = chars_of(CALL_CLOSE_PREFIX).len();
        let rest = string_of(crate::text::slice_from(cs.as_slice(), pl));
        match parse_u64(rest.as_str()) {
            Some(id) => id == clicker,
            None => false,
        }
    } else {
        false
    };
    opened_it || has_mod_permission(perms, moderate_members)
}


// ───────────────────────── law of immunity ─────────────────────────

/// Every character of `s` is whitespace.
pub open spec fn all_ws(s: Seq<char>) -> bool {
    forall|i: int| 0 <= i < s.len() ==> crate::text::is_ws(#[trigger] s[i])
}

proof fn lemma_trim_start_keeps_ws(s: Seq<char>)
    ensures
        all_ws(crate::text::trim_start_spec(s)) ==> all_ws(s),
        all_ws(s) ==> crate::text::trim_start_spec(s).len() == 0,
    decreases s.len(),
{
    if s.len() > 0 && crate::text::is_ws(s[0]) {
        let d = s.drop_first();
        lemma_trim_start_keeps_ws(d);
        if all_ws(d) {
            assert forall|i: int| 0 <= i < s.len() implies crate::text::is_ws(#[trigger] s[i]) by {
                if i > 0 {
                    assert(s[i] == d[i - 1]);
                }
            }
        }
        if all_ws(s) {
            assert forall|i: int| 0 <= i < d.len() implies crate::text::is_ws(#[trigger] d[i]) by {
                assert(d[i] == s[i + 1]);
            }
        }
    } else if s.len() > 0 {
        assert(!crate::text::is_ws(s[0]));
    }
}

proof fn lemma_trim_end_empty(x: Seq<char>)
    ensures
        crate::text::trim_end_spec(x).len() == 0 ==> all_ws(x),
    decreases x.len(),
{
    if x.len() > 0 && crate::text::is_ws(x.last()) {
        let d = x.drop_last();
        lemma_trim_end_empty(d);
        if crate::text::trim_end_spec(x).len() == 0 {
            assert forall|i: int| 0 <= i < x.len() implies crate::text::is_ws(#[trigger] x[i]) by {
                if i < x.len() - 1 {
                    assert(x[i] == d[i]);
                }
            }
        }
    }
}

/// A blank setting (only whitespace) is all whitespace.
proof fn lemma_blank_is_ws(s: Seq<char>)
    ensures
        trim_spec(s).len() == 0 ==> all_ws(s),
{
    lemma_trim_end_empty(crate::text::trim_start_spec(s));
    lemma_trim_start_keeps_ws(s);
}

/// The pieces of an all-whitespace text are all whitespace.
proof fn lemma_pieces_ws(s: Seq<char>)
    requires
        all_ws(s),
    ensures
        forall|k: int| 0 <= k < role_pieces(s).len() ==> all_ws(#[trigger] role_pieces(s)[k]),
    decreases s.len(),
{
    if s.len() > 0 {
        let d = s.drop_last();
        assert forall|i: int| 0 <= i < d.len() implies crate::text::is_ws(#[trigger] d[i]) by {
            assert(d[i] == s[i]);
        }
        lemma_pieces_ws(d);
        lemma_role_pieces_nonempty(d);
        let prev = role_pieces(d);
        assert(crate::text::is_ws(s[s.len() - 1]));
        if !is_role_sep(s.last()) {
            let l = prev.last().push(s.last());
            assert(all_ws(prev[prev.len() - 1]));
            assert forall|i: int| 0 <= i < l.len() implies crate::text::is_ws(#[trigger] l[i]) by {
                if i < l.len() - 1 {
                    assert(l[i] == prev.last()[i]);
                }
            }
        }
    }
}

/// Pieces that are all whitespace list no role.
proof fn lemma_ws_pieces_no_ids(ps: Seq<Seq<char>>)
    requires
        forall|k: int| 0 <= k < ps.len() ==> all_ws(#[trigger] ps[k]),
    ensures
        ids_of(ps).len() == 0,
    decreases ps.len(),
{
    if ps.len() > 0 {
        let d = ps.drop_last();
        assert forall|k: int| 0 <= k < d.len() implies all_ws(#[trigger] d[k]) by {
            assert(d[k] == ps[k]);
        }
        lemma_ws_pieces_no_ids(d);
        let p = ps.last();
        assert(all_ws(ps[ps.len() - 1]));
        lemma_trim_start_keeps_ws(p);
        let t = crate::text::trim_start_spec(p);
        assert(t.len() == 0);
        assert(trim_spec(p) == crate::text::trim_end_spec(t));
        assert(trim_spec(p).len() == 0);
        assert(crate::text::unsigned_body(trim_spec(p)).len() == 0);
    }
}

/// A listed role among `roles` gives a first listed one.
proof fn lemma_first_listed_exists(roles: Seq<u64>, ids: Seq<u64>, k: int)
    requires
        0 <= k < roles.len(),
        ids.contains(roles[k]),
    ensures
        exists|i: int| 0 <= i < roles.len() && ids.contains(roles[i]) && forall|j: int|
            0 <= j < i ==> !ids.contains(#[trigger] roles[j]),
    decreases k,
{
    if exists|j: int| 0 <= j < k && ids.contains(#[trigger] roles[j]) {
        let j = choose|j: int| 0 <= j < k && ids.contains(#[trigger] roles[j]);
        lemma_first_listed_exists(roles, ids, j);
    } else {
        assert(forall|j: int| 0 <= j < k ==> !ids.contains(#[trigger] roles[j]));
    }
}

/// What `first_listed` finds: a listed role with none listed before it,
/// whenever some role is listed.
proof fn lemma_first_listed(roles: Seq<u64>, ids: Seq<u64>)
    ensures
        first_listed(roles, ids) is Some <==> exists|k: int| 0 <= k < roles.len() && ids.contains(#[trigger] roles[k]),
        first_listed(roles, ids) matches Some(i) ==> 0 <= i < roles.len() && ids.contains(roles[i]) && forall|j: int|
            0 <= j < i ==> !ids.contains(#[trigger] roles[j]),
{
    if exists|k: int| 0 <= k < roles.len() && ids.contains(#[trigger] roles[k]) {
        let k = choose|k: int| 0 <= k < roles.len() && ids.contains(#[trigger] roles[k]);
        lemma_first_listed_exists(roles, ids, k);
    }
}

/// A setting that lists some role is not blank.
proof fn lemma_listing_not_blank(s: Seq<char>)
    ensures
        ignored_ids_spec(s).len() > 0 ==> trim_spec(s).len() > 0,
{
    lemma_blank_is_ws(s);
    if trim_spec(s).len() == 0 {
        lemma_pieces_ws(s);
        lemma_ws_pieces_no_ids(role_pieces(s));
    }
}

/// A member is immune exactly when it holds a role that the ignored-roles
/// setting lists; the immune role is then one it holds and the setting
/// lists, the first such among its roles; without the setting no member
/// is immune.
pub proof fn law_immune_when_a_held_role_is_listed(raw: Option<Seq<char>>, roles: Seq<u64>)
    ensures
        raw is None ==> immune_role_spec(raw, roles) is None,
        raw matches Some(s) ==> (immune_role_spec(raw, roles) is Some <==> exists|k: int|
            0 <= k < roles.len() && ignored_ids_spec(s).contains(#[trigger] roles[k])),
        raw matches Some(s) ==> (immune_role_spec(raw, roles) matches Some(r) ==> exists|k: int|
            0 <= k < roles.len() && #[trigger] roles[k] == r && ignored_ids_spec(s).contains(r) && forall|j: int|
                0 <= j < k ==> !ignored_ids_spec(s).contains(#[trigger] roles[j])),
{
    if let Some(s) = raw {
        let ids = ignored_ids_spec(s);
        lemma_first_listed(roles, ids);
        lemma_listing_not_blank(s);
        if exists|k: int| 0 <= k < roles.len() && ids.contains(#[trigger] roles[k]) {
            let k = choose|k: int| 0 <= k < roles.len() && ids.contains(#[trigger] roles[k]);
            assert(ids.contains(roles[k]));
            assert(ids.len() > 0);
        }
        if let Some(i) = first_listed(roles, ids) {
            assert(roles[i] == roles[i]);
        }
    }
}

} // verus!
