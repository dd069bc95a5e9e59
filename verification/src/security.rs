//! Security: the per-guild settings the bot reads, what it does when a
//! member joins (from the API's decision), the math captcha's answers and
//! the texts of the security history.

use vstd::prelude::*;
use crate::config::{ConfigMap, bool_setting, config_bool};
use crate::text::{chars_of, int_text, owned, parse_u64, parse_u64_spec, push_chars, push_str, push_u64, starts_with, str_eq};

verus! {

/// A security event reported to the API.
pub struct SecurityEvent {
    pub guild_id: String,
    pub event_type: String,
    pub severity: String,
    pub description: String,
    pub user_ids: Vec<String>,
}

/// A recent join sent to the API with a new member's analysis.
pub struct RecentJoinEntry {
    pub username: String,
    pub has_avatar: bool,
    pub account_created_timestamp: i64,
}

/// The API's decision about a new member.
pub struct SecurityDecisionResponse {
    pub is_raid: bool,
    pub raid_score: u32,
    pub is_suspicious_account: bool,
    pub is_alt_account: bool,
    pub alt_similar_to: String,
    pub quarantine: bool,
    pub send_captcha: bool,
    pub activate_lockdown: bool,
    pub slowmode_secs: u32,
    pub event_type: String,
    pub event_description: String,
}

/// The security settings of the deployment, which each guild's
/// configuration may override.
pub struct SecurityConfig {
    pub raid_join_threshold: u64,
    pub raid_join_window_secs: u64,
    pub min_account_age_secs: u64,
    pub quarantine_role_id: Option<u64>,
    pub quarantine_enabled: bool,
    pub slowmode_seconds: u16,
    pub slowmode_duration_secs: u64,
    pub captcha_enabled: bool,
    pub captcha_timeout_secs: u64,
    pub captcha_type: String,
    pub lockdown_enabled: bool,
    pub lockdown_duration_secs: u64,
    pub alt_detection_enabled: bool,
    pub alt_retention_secs: u64,
    pub alt_name_distance: usize,
    pub raid_pattern_enabled: bool,
    pub raid_pattern_score_threshold: u32,
}

/// A captcha kind is `button` or `math`; anything else means `button`.
pub open spec fn captcha_kind_spec(ct: Seq<char>) -> Seq<char> {
    if ct == "button"@ || ct == "math"@ {
        ct
    } else {
        "button"@
    }
}

/// The captcha kind to use for a configured value.
pub fn normalize_captcha_type(ct: &str) -> (r: String)
    ensures
        r@ == captcha_kind_spec(ct@),
{
    if str_eq(ct, "button") || str_eq(ct, "math") {
        owned(ct)
    } else {
        owned("button")
    }
}

// ───────────────────────── per-guild settings ─────────────────────────

/// Security is on for the guild: setting `enabled`, default on.
pub fn guild_security_enabled(cfg: &ConfigMap) -> (r: bool)
    ensures
        r == bool_setting(cfg, "enabled"@, true),
{
    config_bool(cfg, "enabled", true)
}

/// The quarantine role: the guild's `quarantine_role_id` when it reads as
/// a number, else the deployment's.
pub open spec fn quarantine_role_spec(cfg: &ConfigMap, env_role: Option<u64>) -> Option<u64> {
    match cfg.get_spec("quarantine_role_id"@) {
        Some(v) => match parse_u64_spec(v) {
            Some(n) => Some(n),
            None => env_role,
        },
        None => env_role,
    }
}

/// The role given to quarantined members in this guild.
pub fn quarantine_role(cfg: &ConfigMap, env_role: Option<u64>) -> (r: Option<u64>)
    ensures
        r == quarantine_role_spec(cfg, env_role),
{
    match cfg.get("quarantine_role_id") {
        Some(v) => match parse_u64(v.as_str()) {
            Some(n) => Some(n),
            None => env_role,
        },
        None => env_role,
    }
}

/// The captcha kind of the guild: `captcha_type` when set, else the
/// deployment's.
pub fn guild_captcha_type(cfg: &ConfigMap, env_type: &str) -> (r: String)
    ensures
        r@ == match cfg.get_spec("captcha_type"@) {
            Some(v) => v,
            None => env_type@,
        },
{
    match cfg.get("captcha_type") {
        Some(v) => v,
        None => owned(env_type),
    }
}

// ───────────────────────── a new member ─────────────────────────

/// What the bot does after a member joined.
#[derive(PartialEq, Eq, Structural, Clone, Copy, Debug)]
pub struct JoinActions {
    /// A raid is under way (the local join counter or the API says so).
    pub is_raid: bool,
    /// Raise the guild's verification level and record the lockdown.
    pub lockdown: bool,
    /// Put the guild in slow mode for this many seconds.
    pub slowmode: Option<u16>,
    /// Forget the join counters after a raid.
    pub reset_trackers: bool,
    /// Quarantine the member with this role.
    pub quarantine_role: Option<u64>,
    /// Send the member a captcha.
    pub send_captcha: bool,
    /// Log the API's event.
    pub log_event: bool,
}

/// The actions for a new member: a raid (from the local counter or the
/// API) triggers the API's lockdown and slow mode (its seconds taken as
/// `u16`) and resets the counters; the API's quarantine needs a
/// quarantine role, and its captcha needs the quarantine.
pub open spec fn join_actions_spec(simple_raid: bool, d: SecurityDecisionResponse, role: Option<u64>) -> JoinActions {
    let raid = simple_raid || d.is_raid;
    let quarantine_role = if d.quarantine {
        role
    } else {
        None
    };
    JoinActions {
        is_raid: raid,
        lockdown: raid && d.activate_lockdown,
        slowmode: if raid && d.slowmode_secs > 0 {
            Some(d.slowmode_secs as u16)
        } else {
            None
        },
        reset_trackers: raid,
        quarantine_role,
        send_captcha: quarantine_role is Some && d.send_captcha,
        log_event: d.event_type@.len() > 0,
    }
}

/// Decides what to do about a member who just joined.
pub fn join_actions(simple_raid: bool, d: &SecurityDecisionResponse, role: Option<u64>) -> (a: JoinActions)
    ensures
        a == join_actions_spec(simple_raid, *d, role),
{
    let raid = simple_raid || d.is_raid;
    let quarantine_role = if d.quarantine {
        role
    } else {
        None
    };
    let slowmode = if raid && d.slowmode_secs > 0 {
        Some(d.slowmode_secs as u16)
    } else {
        None
    };
    JoinActions {
        is_raid: raid,
        lockdown: raid && d.activate_lockdown,
        slowmode,
        reset_trackers: raid,
        quarantine_role,
        send_captcha: quarantine_role.is_some() && d.send_captcha,
        log_event: !d.event_type.as_str().is_empty(),
    }
}

// ───────────────────────── captcha ─────────────────────────

/// The answer button pressed in a math captcha: the id after `prefix`,
/// read as a number below 4.
pub open spec fn captcha_index_spec(custom_id: Seq<char>, prefix: Seq<char>) -> Option<u64> {
    let rest = if crate::text::is_prefix(prefix, custom_id) {
        custom_id.skip(prefix.len() as int)
    } else {
        Seq::empty()
    };
    match parse_u64_spec(rest) {
        Some(i) => if i < 4 {
            Some(i)
        } else {
            None
        },
        None => None,
    }
}

/// Index of the answer pressed in a math captcha, `None` when invalid.
pub fn captcha_index(custom_id: &str, prefix: &str) -> (r: Option<u64>)
    ensures
        r == captcha_index_spec(custom_id@, prefix@),
{
    let rest = if starts_with(custom_id, prefix) {
        let cs = chars_of(custom_id);
        let pl = chars_of(prefix).len();
        crate::text::string_of(crate::text::slice_from(cs.as_slice(), pl))
    } else {
        String::new()
    };
    match parse_u64(rest.as_str()) {
        Some(i) => if i < 4 {
            Some(i)
        } else {
            None
        },
        None => None,
    }
}

/// How a math captcha answer turns out.
#[derive(PartialEq, Eq, Structural, Clone, Copy, Debug)]
pub enum CaptchaOutcome {
    Passed,
    WrongAnswer,
    Expired,
    NotQuarantined,
}

/// The outcome of an answer: not quarantined anywhere, or the pending
/// captcha's verdict (none when it expired).
pub fn captcha_outcome(quarantined: bool, verdict: Option<bool>) -> (o: CaptchaOutcome)
    ensures
        o == (if !quarantined {
            CaptchaOutcome::NotQuarantined
        } else {
            match verdict {
                Some(true) => CaptchaOutcome::Passed,
                Some(false) => CaptchaOutcome::WrongAnswer,
                None => CaptchaOutcome::Expired,
            }
        }),
{
    if !quarantined {
        CaptchaOutcome::NotQuarantined
    } else {
        match verdict {
            Some(true) => CaptchaOutcome::Passed,
            Some(false) => CaptchaOutcome::WrongAnswer,
            None => CaptchaOutcome::Expired,
        }
    }
}

pub open spec fn captcha_reply_spec(o: CaptchaOutcome) -> (Seq<char>, Seq<char>) {
    match o {
        CaptchaOutcome::Passed => (
            "\u{2705} Verification reussie"@,
            "Bonne reponse ! Vous avez maintenant acces au serveur."@,
        ),
        CaptchaOutcome::WrongAnswer => ("\u{274c} Mauvaise reponse"@, "Ce n'est pas la bonne reponse. Reessayez."@),
        CaptchaOutcome::Expired => ("\u{26a0}\u{fe0f} Captcha expire"@, "Ce captcha n'est plus valide."@),
        CaptchaOutcome::NotQuarantined => ("\u{26a0}\u{fe0f} Deja verifie"@, "Vous n'etes pas en quarantaine."@),
    }
}

/// Title and text of the reply to a math captcha answer.
pub fn captcha_reply(o: CaptchaOutcome) -> (r: (String, String))
    ensures
        (r.0@, r.1@) == captcha_reply_spec(o),
{
    match o {
        CaptchaOutcome::Passed => (
            owned("\u{2705} Verification reussie"),
            owned("Bonne reponse ! Vous avez maintenant acces au serveur."),
        ),
        CaptchaOutcome::WrongAnswer => (
            owned("\u{274c} Mauvaise reponse"),
            owned("Ce n'est pas la bonne reponse. Reessayez."),
        ),
        CaptchaOutcome::Expired => (owned("\u{26a0}\u{fe0f} Captcha expire"), owned("Ce captcha n'est plus valide.")),
        CaptchaOutcome::NotQuarantined => (
            owned("\u{26a0}\u{fe0f} Deja verifie"),
            owned("Vous n'etes pas en quarantaine."),
        ),
    }
}

/// The event reported when a member passes a captcha (`math` tells which
/// kind).
pub fn captcha_verified_event(guild_id: &str, user_id: &str, username: &str, math: bool) -> (e: SecurityEvent)
    ensures
        e.guild_id@ == guild_id@,
        e.event_type@ == "captcha_verified"@,
        e.severity@ == "info"@,
        e.description@ == "Utilisateur "@ + username@ + (if math {
            " a passe le captcha math"@
        } else {
            " a passe le captcha"@
        }),
        e.user_ids@.len() == 1 && e.user_ids@[0]@ == user_id@,
{
    let mut description = owned("Utilisateur ");
    push_str(&mut description, username);
    if math {
        push_str(&mut description, " a passe le captcha math");
    } else {
        push_str(&mut description, " a passe le captcha");
    }
    let mut ids: Vec<String> = Vec::new();
    ids.push(owned(user_id));
    SecurityEvent {
        guild_id: owned(guild_id),
        event_type: owned("captcha_verified"),
        severity: owned("info"),
        description,
        user_ids: ids,
    }
}

// ───────────────────────── history ─────────────────────────

/// A past event as the API lists it; absent fields are `None`.
pub struct EventSummary {
    pub event_type: Option<String>,
    pub severity: Option<String>,
    pub description: Option<String>,
}

pub open spec fn field_or(f: Option<String>, default: Seq<char>) -> Seq<char> {
    match f {
        Some(s) => s@,
        None => default,
    }
}

/// A description cut to 80 characters, with `...` when it was longer.
pub open spec fn preview_spec(d: Seq<char>) -> Seq<char> {
    if d.len() > 80 {
        d.take(80) + "..."@
    } else {
        d
    }
}

/// Line `i` (from 0) of the history.
pub open spec fn history_line_spec(i: int, e: EventSummary) -> Seq<char> {
    int_text(i + 1) + ". ["@ + field_or(e.severity, "info"@) + "] **"@ + field_or(e.event_type, "inconnu"@)
        + "** \u{2014} "@ + preview_spec(field_or(e.description, Seq::empty()))
}

pub open spec fn history_lines_spec(es: Seq<EventSummary>, n: int) -> Seq<char>
    decreases n,
{
    if n <= 0 {
        Seq::empty()
    } else if n == 1 {
        history_line_spec(0, es[0])
    } else {
        history_lines_spec(es, n - 1) + "\n"@ + history_line_spec(n - 1, es[n - 1])
    }
}

/// Text of the security history: one numbered line per event, or a
/// sentence when there is none.
pub open spec fn history_text_spec(es: Seq<EventSummary>) -> Seq<char> {
    if es.len() == 0 {
        "Aucun evenement recent."@
    } else {
        history_lines_spec(es, es.len() as int)
    }
}

fn push_field_or(out: &mut String, f: &Option<String>, default: &str)
    ensures
        final(out)@ == old(out)@ + field_or(*f, default@),
{
    match f {
        Some(s) => push_str(out, s.as_str()),
        None => push_str(out, default),
    }
}

fn push_preview(out: &mut String, f: &Option<String>)
    ensures
        final(out)@ == old(out)@ + preview_spec(field_or(*f, Seq::empty())),
{
    match f {
        Some(s) => {
            let cs = chars_of(s.as_str());
            if cs.len() > 80 {
                let head = crate::text::copy_range(cs.as_slice(), 0, 80);
                push_chars(out, head.as_slice());
                push_str(out, "...");
                assert(head@ =~= s@.take(80));
            } else {
                push_str(out, s.as_str());
            }
        },
        None => {
            assert(old(out)@ + Seq::<char>::empty() =~= old(out)@);
        },
    }
}

fn history_line(i: u64, e: &EventSummary) -> (s: String)
    requires
        i < u64::MAX,
    ensures
        s@ == history_line_spec(i as int, *e),
{
    let mut s = String::new();
    push_u64(&mut s, i + 1);
    push_str(&mut s, ". [");
    push_field_or(&mut s, &e.severity, "info");
    push_str(&mut s, "] **");
    push_field_or(&mut s, &e.event_type, "inconnu");
    push_str(&mut s, "** \u{2014} ");
    push_preview(&mut s, &e.description);
    s
}

/// The history text of `events`, as listed by the API.
pub fn history_text(events: &Vec<EventSummary>) -> (s: String)
    requires
        events@.len() < u64::MAX,
    ensures
        s@ == history_text_spec(events@),
{
    let n = events.len();
    if n == 0 {
        return owned("Aucun evenement recent.");
    }
    let mut s = String::new();
    for i in 0..n
        invariant
            n == events@.len(),
            n < u64::MAX,
            s@ == history_lines_spec(events@, i as int),
    {
        if i > 0 {
            push_str(&mut s, "\n");
        }
        let line = history_line(i as u64, &events[i]);
        push_str(&mut s, line.as_str());
        proof {
            if i == 0 {
                assert(s@ =~= history_line_spec(0, events@[0]));
            }
        }
    }
    s
}

/// How many events `/security history` lists: the `limit` option (5 by
/// default) taken as `u32`.
pub fn history_limit(limit: Option<i64>) -> (n: u32)
    ensures
        n == match limit {
            Some(v) => v as u32,
            None => 5u32,
        },
{
    match limit {
        Some(v) => v as u32,
        None => 5,
    }
}

/// The reply to the plain captcha button: released from quarantine in
/// some guild, or already verified.
pub fn button_captcha_reply(released: bool) -> (r: (String, String))
    ensures
        (r.0@, r.1@) == (if released {
            ("\u{2705} Verification reussie"@, "Vous avez maintenant acces au serveur."@)
        } else {
            (
                "\u{26a0}\u{fe0f} Deja verifie"@,
                "Vous n'etes pas en quarantaine ou la verification a deja ete effectuee."@,
            )
        }),
{
    if released {
        (owned("\u{2705} Verification reussie"), owned("Vous avez maintenant acces au serveur."))
    } else {
        (
            owned("\u{26a0}\u{fe0f} Deja verifie"),
            owned("Vous n'etes pas en quarantaine ou la verification a deja ete effectuee."),
        )
    }
}

/// The raid measures (lockdown, slow mode, counter reset) are taken only
/// during a raid; a member is quarantined only when the API asks it and a
/// quarantine role exists; a captcha goes only to a quarantined member.
pub proof fn law_join_measures_are_guarded(simple_raid: bool, d: SecurityDecisionResponse, role: Option<u64>)
    ensures
        ({
            let a = join_actions_spec(simple_raid, d, role);
            &&& (a.lockdown || a.slowmode is Some || a.reset_trackers) ==> a.is_raid
            &&& a.is_raid <==> (simple_raid || d.is_raid)
            &&& a.quarantine_role is Some ==> d.quarantine && a.quarantine_role == role
            &&& a.send_captcha ==> a.quarantine_role is Some && d.send_captcha
        }),
{
}

} // verus!
