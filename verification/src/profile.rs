//! A player's profile and self-care: the stats shown on `/profil`, how
//! long insurances and curses still last, the rest cooldown of `/repos`,
//! and the gates of `/reset-stats`, `/prestige` and `/ultimate`.

use vstd::prelude::*;
use crate::dates::{minutes_since, minutes_since_spec};
use crate::text::{chars_of, int_text, join_spec, lemma_lex_irreflexive, lemma_lex_total, lemma_lex_transitive, lex_less, lex_lt, owned, push_i64, push_str};

verus! {

// ───────────────────────── remaining time ─────────────────────────

/// A duration left, as shown: days and hours from a day, hours and
/// minutes from an hour, minutes from a minute, else `<1m`.
pub open spec fn remaining_spec(secs: int) -> Seq<char> {
    if secs >= 86400 {
        int_text(secs / 86400) + "j "@ + int_text((secs / 3600) % 24) + "h"@
    } else if secs >= 3600 {
        int_text(secs / 3600) + "h "@ + int_text((secs / 60) % 60) + "m"@
    } else if secs >= 60 {
        int_text(secs / 60) + "m"@
    } else {
        "<1m"@
    }
}

/// The text of a duration left, in seconds.
pub fn remaining_text(secs: i64) -> (s: String)
    ensures
        s@ == remaining_spec(secs as int),
{
    let mut s = String::new();
    if secs >= 86400 {
        push_i64(&mut s, secs / 86400);
        push_str(&mut s, "j ");
        push_i64(&mut s, (secs / 3600) % 24);
        push_str(&mut s, "h");
    } else if secs >= 3600 {
        push_i64(&mut s, secs / 3600);
        push_str(&mut s, "h ");
        push_i64(&mut s, (secs / 60) % 60);
        push_str(&mut s, "m");
    } else if secs >= 60 {
        push_i64(&mut s, secs / 60);
        push_str(&mut s, "m");
    } else {
        push_str(&mut s, "<1m");
    }
    s
}

/// The insurance line of a profile.
pub fn insurance_field(remaining: &str) -> (s: String)
    ensures
        s@ == "\u{1f6e1}\u{fe0f} Active \u{2014} expire dans **"@ + remaining@ + "**"@,
{
    let mut s = owned("\u{1f6e1}\u{fe0f} Active \u{2014} expire dans **");
    push_str(&mut s, remaining);
    push_str(&mut s, "**");
    s
}

/// Name and text of the curse field of a profile: the sabotages
/// `pancarte` and `graisser` have their own wording, any other kind is a
/// curse with its label.
pub open spec fn curse_field_spec(
    kind: Seq<char>,
    kind_emoji: Seq<char>,
    kind_label: Seq<char>,
    source_id: Seq<char>,
    remaining: Seq<char>,
) -> (Seq<char>, Seq<char>) {
    if kind == "pancarte"@ {
        (
            kind_emoji + " Rival officiel"@,
            "Sous le nez de tout le monde : **Rival officiel de <@"@ + source_id + ">**\nExpire dans **"@ + remaining
                + "**."@,
        )
    } else if kind == "graisser"@ {
        (
            kind_emoji + " Armes graissees"@,
            "Sabotage de <@"@ + source_id
                + "> : ta prochaine attaque speciale en combat va foirer ! Expire dans **"@ + remaining + "**."@,
        )
    } else {
        (
            kind_emoji + " Malediction"@,
            "**"@ + kind_label + "** \u{2014} pose par <@"@ + source_id + ">\nExpire dans **"@ + remaining
                + "** (lever : 600c)"@,
        )
    }
}

/// The curse field of a profile.
pub fn curse_field(kind: &str, kind_emoji: &str, kind_label: &str, source_id: &str, remaining: &str) -> (r: (
    String,
    String,
))
    ensures
        (r.0@, r.1@) == curse_field_spec(kind@, kind_emoji@, kind_label@, source_id@, remaining@),
{
    let mut name = owned(kind_emoji);
    let mut text = String::new();
    if crate::text::str_eq(kind, "pancarte") {
        push_str(&mut name, " Rival officiel");
        push_str(&mut text, "Sous le nez de tout le monde : **Rival officiel de <@");
        push_str(&mut text, source_id);
        push_str(&mut text, ">**\nExpire dans **");
        push_str(&mut text, remaining);
        push_str(&mut text, "**.");
    } else if crate::text::str_eq(kind, "graisser") {
        push_str(&mut name, " Armes graissees");
        push_str(&mut text, "Sabotage de <@");
        push_str(&mut text, source_id);
        push_str(&mut text, "> : ta prochaine attaque speciale en combat va foirer ! Expire dans **");
        push_str(&mut text, remaining);
        push_str(&mut text, "**.");
    } else {
        push_str(&mut name, " Malediction");
        push_str(&mut text, "**");
        push_str(&mut text, kind_label);
        push_str(&mut text, "** \u{2014} pose par <@");
        push_str(&mut text, source_id);
        push_str(&mut text, ">\nExpire dans **");
        push_str(&mut text, remaining);
        push_str(&mut text, "** (lever : 600c)");
    }
    (name, text)
}

// ───────────────────────── stats ─────────────────────────

/// A stat of a player: the class's base, its growth for each level above
/// the first, and the points bought with training.
pub open spec fn effective_stat_spec(base: int, growth: int, level: int, trained: int) -> int {
    base + (level - 1) * growth + trained
}

/// The attack or defence shown on a profile.
pub fn effective_stat(base: i64, growth: i64, level: i64, trained: i64) -> (s: i64)
    requires
        i64::MIN <= effective_stat_spec(base as int, growth as int, level as int, trained as int) <= i64::MAX,
        i64::MIN <= (level - 1) * growth <= i64::MAX,
        i64::MIN <= base + (level - 1) * growth <= i64::MAX,
        level > i64::MIN,
    ensures
        s == effective_stat_spec(base as int, growth as int, level as int, trained as int),
{
    base + (level - 1) * growth + trained
}

/// XP as shown: `MAX` at the top level, else the XP and the next level's
/// threshold.
pub fn xp_display(level: i64, max_level: i64, xp: i64, next_threshold: i64) -> (s: String)
    ensures
        s@ == (if level >= max_level {
            "MAX"@
        } else {
            int_text(xp as int) + " / "@ + int_text(next_threshold as int)
        }),
{
    if level >= max_level {
        return owned("MAX");
    }
    let mut s = String::new();
    push_i64(&mut s, xp);
    push_str(&mut s, " / ");
    push_i64(&mut s, next_threshold);
    s
}

// ───────────────────────── inventory ─────────────────────────

/// How the catalog shows an item.
#[derive(Clone, Debug)]
pub struct ItemLabel {
    pub emoji: String,
    pub name: String,
}

/// One line of a player's inventory, with the catalog's label for its key
/// when the catalog knows it.
#[derive(Clone, Debug)]
pub struct InventoryEntry {
    pub item_key: String,
    pub quantity: i64,
    pub label: Option<ItemLabel>,
}

/// Line of a held item: `<emoji> **<name>** x<n>`, or `❓ <key> x<n>` for
/// an item the catalog does not know.
pub open spec fn inventory_line_spec(e: InventoryEntry) -> Seq<char> {
    match e.label {
        Some(l) => l.emoji@ + " **"@ + l.name@ + "** x"@ + int_text(e.quantity as int),
        None => "\u{2753} "@ + e.item_key@ + " x"@ + int_text(e.quantity as int),
    }
}

/// Entry `j` has its place in `order`.
pub open spec fn listed(order: Seq<int>, j: int) -> bool {
    exists|q: int| 0 <= q < order.len() && order[q] == j
}

/// `order` lists, by position, the entries among the first `i` of `items`
/// that are held (quantity above zero), each once, sorted by item key,
/// those of equal keys in the order of `items`.
pub open spec fn held_order_upto(items: Seq<InventoryEntry>, i: int, order: Seq<int>) -> bool {
    &&& forall|q: int|
        0 <= q < order.len() ==> 0 <= #[trigger] order[q] < i && items[order[q]].quantity > 0
    &&& forall|j: int| 0 <= j < i && items[j].quantity > 0 ==> #[trigger] listed(order, j)
    &&& forall|a: int, b: int|
        0 <= a < b < order.len() ==> !lex_lt(items[#[trigger] order[b]].item_key@, items[#[trigger] order[a]].item_key@)
    &&& forall|a: int, b: int|
        0 <= a < b < order.len() && items[#[trigger] order[a]].item_key@ == items[#[trigger] order[b]].item_key@
            ==> order[a] < order[b]
}

/// `order` is the order in which `/profil` shows the inventory `items`:
/// the held entries sorted by item key (a stable sort).
pub open spec fn held_order(items: Seq<InventoryEntry>, order: Seq<int>) -> bool {
    held_order_upto(items, items.len() as int, order)
}

/// The inventory field for the entries of `items` in `order`: their lines,
/// or `_Aucun objet_` when there are none.
pub open spec fn inventory_text_spec(items: Seq<InventoryEntry>, order: Seq<int>) -> Seq<char> {
    if order.len() == 0 {
        "_Aucun objet_"@
    } else {
        join_spec(order.map_values(|j: int| inventory_line_spec(items[j])), "\n"@)
    }
}

spec fn as_ints(s: Seq<usize>) -> Seq<int> {
    s.map_values(|x: usize| x as int)
}

fn inventory_line(e: &InventoryEntry) -> (s: String)
    ensures
        s@ == inventory_line_spec(*e),
{
    let mut s = String::new();
    match &e.label {
        Some(l) => {
            push_str(&mut s, l.emoji.as_str());
            push_str(&mut s, " **");
            push_str(&mut s, l.name.as_str());
            push_str(&mut s, "** x");
        },
        None => {
            push_str(&mut s, "\u{2753} ");
            push_str(&mut s, e.item_key.as_str());
            push_str(&mut s, " x");
        },
    }
    push_i64(&mut s, e.quantity);
    s
}

/// Putting entry `i` at `p`, after the keys not above its own and before
/// those above it, keeps the order.
proof fn lemma_place_entry(items: Seq<InventoryEntry>, i: int, order: Seq<int>, p: int)
    requires
        0 <= i < items.len(),
        items[i].quantity > 0,
        held_order_upto(items, i, order),
        0 <= p <= order.len(),
        forall|q: int| 0 <= q < p ==> !lex_lt(items[i].item_key@, items[#[trigger] order[q]].item_key@),
        p < order.len() ==> lex_lt(items[i].item_key@, items[order[p]].item_key@),
    ensures
        held_order_upto(items, i + 1, order.insert(p, i)),
{
    let o2 = order.insert(p, i);
    let ki = items[i].item_key@;
    // every key from `p` on is above `ki`
    assert forall|q: int| p <= q < order.len() implies lex_lt(ki, items[#[trigger] order[q]].item_key@) by {
        if q > p {
            let kp = items[order[p]].item_key@;
            let kq = items[order[q]].item_key@;
            lemma_lex_total(kp, kq);
            if kp != kq {
                lemma_lex_transitive(ki, kp, kq);
            }
        }
    }
    assert forall|q: int| 0 <= q < o2.len() implies 0 <= #[trigger] o2[q] < i + 1 && items[o2[q]].quantity > 0 by {
        if q < p {
            assert(o2[q] == order[q]);
        } else if q > p {
            assert(o2[q] == order[q - 1]);
        }
    }
    assert forall|j: int| 0 <= j < i + 1 && items[j].quantity > 0 implies #[trigger] listed(o2, j) by {
        if j == i {
            assert(o2[p] == i);
        } else {
            assert(listed(order, j));
            let q = choose|q: int| 0 <= q < order.len() && order[q] == j;
            if q < p {
                assert(o2[q] == j);
            } else {
                assert(o2[q + 1] == j);
            }
        }
    }
    assert forall|a: int, b: int| 0 <= a < b < o2.len() implies
        !lex_lt(items[#[trigger] o2[b]].item_key@, items[#[trigger] o2[a]].item_key@)
        && (items[o2[a]].item_key@ == items[o2[b]].item_key@ ==> o2[a] < o2[b]) by {
        if b < p {
            assert(o2[a] == order[a] && o2[b] == order[b]);
        } else if a > p {
            assert(o2[a] == order[a - 1] && o2[b] == order[b - 1]);
        } else if b == p {
            assert(o2[a] == order[a] && o2[b] == i);
        } else if a == p {
            assert(o2[b] == order[b - 1] && o2[a] == i);
            let kb = items[order[b - 1]].item_key@;
            lemma_lex_total(ki, kb);
            lemma_lex_irreflexive(ki);
        } else {
            assert(o2[a] == order[a] && o2[b] == order[b - 1]);
        }
    }
}

/// The inventory field of `/profil`: the held entries sorted by item key,
/// one line each, or `_Aucun objet_` when none is held.
pub fn inventory_field(items: &Vec<InventoryEntry>) -> (s: String)
    ensures
        exists|order: Seq<int>| held_order(items@, order) && s@ == inventory_text_spec(items@, order),
{
    let n = items.len();
    let mut keys: Vec<Vec<char>> = Vec::new();
    for j in 0..n
        invariant
            n == items@.len(),
            keys@.len() == j,
            forall|q: int| 0 <= q < j ==> (#[trigger] keys@[q])@ == items@[q].item_key@,
    {
        keys.push(chars_of(items[j].item_key.as_str()));
    }
    let mut order: Vec<usize> = Vec::new();
    for i in 0..n
        invariant
            n == items@.len(),
            keys@.len() == n,
            forall|q: int| 0 <= q < n ==> (#[trigger] keys@[q])@ == items@[q].item_key@,
            held_order_upto(items@, i as int, as_ints(order@)),
    {
        let ghost ord = as_ints(order@);
        assert(order@.len() == ord.len());
        if items[i].quantity > 0 {
            let len = order.len();
            let mut p: usize = 0;
            loop
                invariant
                    len == order@.len(),
                    ord == as_ints(order@),
                    n == items@.len(),
                    keys@.len() == n,
                    forall|q: int| 0 <= q < n ==> (#[trigger] keys@[q])@ == items@[q].item_key@,
                    held_order_upto(items@, i as int, ord),
                    i < n,
                    p <= len,
                    forall|q: int| 0 <= q < p ==> !lex_lt(items@[i as int].item_key@, items@[#[trigger] ord[q]].item_key@),
                ensures
                    p <= len,
                    forall|q: int| 0 <= q < p ==> !lex_lt(items@[i as int].item_key@, items@[#[trigger] ord[q]].item_key@),
                    p < len ==> lex_lt(items@[i as int].item_key@, items@[ord[p as int]].item_key@),
                decreases len - p,
            {
                if p >= len {
                    break;
                }
                let at = order[p];
                assert(ord[p as int] == at as int);
                assert(at < i);
                if lex_less(keys[i].as_slice(), keys[at].as_slice()) {
                    break;
                }
                p = p + 1;
            }
            proof {
                lemma_place_entry(items@, i as int, ord, p as int);
            }
            order.insert(p, i);
            proof {
                assert(as_ints(order@) =~= ord.insert(p as int, i as int));
            }
        }
    }
    let ghost ord = as_ints(order@);
    let ghost lines = ord.map_values(|j: int| inventory_line_spec(items@[j]));
    let mut s = String::new();
    let m = order.len();
    for q in 0..m
        invariant
            m == order@.len(),
            ord == as_ints(order@),
            lines == ord.map_values(|j: int| inventory_line_spec(items@[j])),
            n == items@.len(),
            held_order_upto(items@, n as int, ord),
            s@ == join_spec(lines.take(q as int), "\n"@),
    {
        if q > 0 {
            push_str(&mut s, "\n");
        }
        assert(ord[q as int] == order@[q as int] as int);
        assert(0 <= ord[q as int] < n);
        let line = inventory_line(&items[order[q]]);
        push_str(&mut s, line.as_str());
        proof {
            let t = lines.take(q + 1);
            assert(t.drop_last() =~= lines.take(q as int));
            assert(t.last() == lines[q as int]);
            if q == 0 {
                assert(lines.take(0) =~= Seq::<Seq<char>>::empty());
                assert(t.len() == 1);
            }
        }
    }
    assert(lines.take(m as int) =~= lines);
    assert(held_order(items@, ord));
    if m == 0 {
        owned("_Aucun objet_")
    } else {
        s
    }
}

/// `/profil` shows each held inventory entry exactly once, and nothing
/// else.
pub proof fn law_each_held_item_shown_once(items: Seq<InventoryEntry>, order: Seq<int>, j: int)
    requires
        held_order(items, order),
        0 <= j < items.len(),
    ensures
        items[j].quantity > 0 <==> listed(order, j),
        forall|a: int, b: int| 0 <= a < b < order.len() ==> order[a] != order[b],
{
    if listed(order, j) {
        let q = choose|q: int| 0 <= q < order.len() && order[q] == j;
        assert(0 <= order[q] < items.len() && items[order[q]].quantity > 0);
    }
    assert forall|a: int, b: int| 0 <= a < b < order.len() implies order[a] != order[b] by {
        if order[a] == order[b] {
            assert(items[order[a]].item_key@ == items[order[b]].item_key@);
        }
    }
}

// ───────────────────────── rest ─────────────────────────

/// The answer of `/repos`.
#[derive(PartialEq, Eq, Structural, Clone, Copy, Debug)]
pub enum RestOutcome {
    /// Still resting: hours and minutes left.
    Cooldown { hours: i64, minutes: i64 },
    /// Nothing to heal.
    AlreadyFull,
    /// Healed to the maximum.
    Healed { healed: i64, hp_max: i64 },
}

/// The rest decision: while fewer minutes than the cooldown have passed
/// since the last rest (when known), the rest waits; otherwise a player
/// below its maximum (100 when unknown; current hit points default to
/// the maximum) heals the difference.
pub open spec fn rest_spec(
    cooldown_hours: int,
    elapsed_minutes: Option<int>,
    hp_current: Option<int>,
    hp_max: Option<int>,
) -> RestOutcome {
    let max = match hp_max {
        Some(m) => m,
        None => 100,
    };
    let cur = match hp_current {
        Some(c) => c,
        None => max,
    };
    let cooldown_mins = cooldown_hours * 60;
    if elapsed_minutes matches Some(e) && e < cooldown_mins {
        let left = cooldown_mins - elapsed_minutes->0;
        RestOutcome::Cooldown { hours: (left / 60) as i64, minutes: (left % 60) as i64 }
    } else if cur >= max {
        RestOutcome::AlreadyFull
    } else {
        RestOutcome::Healed { healed: (max - cur) as i64, hp_max: max as i64 }
    }
}

/// Decides what `/repos` does.
pub fn rest_decision(cooldown_hours: i64, elapsed_minutes: Option<i64>, hp_current: Option<i64>, hp_max: Option<
    i64,
>) -> (r: RestOutcome)
    requires
        i64::MIN <= cooldown_hours * 60 <= i64::MAX,
        hp_current matches Some(c) ==> i64::MIN <= (match hp_max {
            Some(m) => m as int,
            None => 100,
        }) - c <= i64::MAX,
    ensures
        r == rest_spec(
            cooldown_hours as int,
            match elapsed_minutes {
                Some(e) => Some(e as int),
                None => None,
            },
            match hp_current {
                Some(c) => Some(c as int),
                None => None,
            },
            match hp_max {
                Some(m) => Some(m as int),
                None => None,
            },
        ),
{
    let max: i64 = match hp_max {
        Some(m) => m,
        None => 100,
    };
    let cur: i64 = match hp_current {
        Some(c) => c,
        None => max,
    };
    let cooldown_mins: i64 = cooldown_hours * 60;
    if let Some(e) = elapsed_minutes {
        if e < cooldown_mins {
            let left: i128 = cooldown_mins as i128 - e as i128;
            let hours: i128 = left / 60;
            let minutes: i128 = left % 60;
            return RestOutcome::Cooldown { hours: hours as i64, minutes: minutes as i64 };
        }
    }
    if cur >= max {
        RestOutcome::AlreadyFull
    } else {
        RestOutcome::Healed { healed: max - cur, hp_max: max }
    }
}

/// Decides what `/repos` does now (`now_s` seconds and `now_f`
/// nanoseconds of Unix time) for a player whose last rest is written in
/// `last_used` (RFC 3339): the minutes since then count when the text reads
/// as a time, and are unknown otherwise.
pub fn rest_decision_at(
    cooldown_hours: i64,
    last_used: Option<&str>,
    now_s: i64,
    now_f: u32,
    hp_current: Option<i64>,
    hp_max: Option<i64>,
) -> (r: RestOutcome)
    requires
        i64::MIN <= cooldown_hours * 60 <= i64::MAX,
        hp_current matches Some(c) ==> i64::MIN <= (match hp_max {
            Some(m) => m as int,
            None => 100,
        }) - c <= i64::MAX,
    ensures
        r == rest_spec(
            cooldown_hours as int,
            match last_used {
                Some(t) => minutes_since_spec(t@, now_s as int, now_f as int),
                None => None,
            },
            match hp_current {
                Some(c) => Some(c as int),
                None => None,
            },
            match hp_max {
                Some(m) => Some(m as int),
                None => None,
            },
        ),
{
    let elapsed = match last_used {
        Some(t) => minutes_since(t, now_s, now_f),
        None => None,
    };
    let ghost e = match elapsed {
        Some(m) => Some(m as int),
        None => None,
    };
    assert(e == match last_used {
        Some(t) => minutes_since_spec(t@, now_s as int, now_f as int),
        None => None,
    });
    rest_decision(cooldown_hours, elapsed, hp_current, hp_max)
}

/// The answer of `/repos` while resting.
pub fn rest_wait_text(hours: i64, minutes: i64) -> (s: String)
    ensures
        s@ == "Tu dois encore te reposer **"@ + int_text(hours as int) + "h"@ + int_text(minutes as int)
            + "m** avant de pouvoir utiliser `/repos` !"@,
{
    let mut s = owned("Tu dois encore te reposer **");
    push_i64(&mut s, hours);
    push_str(&mut s, "h");
    push_i64(&mut s, minutes);
    push_str(&mut s, "m** avant de pouvoir utiliser `/repos` !");
    s
}

/// The text of a completed rest.
pub fn rest_done_text(user_id: &str, healed: i64, hp_max: i64, cooldown_hours: i64) -> (s: String)
    ensures
        s@ == "<@"@ + user_id@ + "> se repose et recupere **+"@ + int_text(healed as int)
            + " HP** !\n\n\u{2764}\u{fe0f} **"@ + int_text(hp_max as int) + "/"@ + int_text(hp_max as int)
            + "** HP\n\n_Prochain repos disponible dans "@ + int_text(cooldown_hours as int) + " heures._"@,
{
    let mut s = owned("<@");
    push_str(&mut s, user_id);
    push_str(&mut s, "> se repose et recupere **+");
    push_i64(&mut s, healed);
    push_str(&mut s, " HP** !\n\n\u{2764}\u{fe0f} **");
    push_i64(&mut s, hp_max);
    push_str(&mut s, "/");
    push_i64(&mut s, hp_max);
    push_str(&mut s, "** HP\n\n_Prochain repos disponible dans ");
    push_i64(&mut s, cooldown_hours);
    push_str(&mut s, " heures._");
    s
}

// ───────────────────────── gates ─────────────────────────

/// Why `/reset-stats` refuses.
#[derive(PartialEq, Eq, Structural, Clone, Copy, Debug)]
pub enum ResetRefusal {
    /// No stat point was spent.
    NothingToReset,
    /// The reset costs more than the player has.
    TooExpensive { cost: i64, coins: i64 },
}

/// Decides `/reset-stats`: a player who spent some stat point and can
/// pay gets those points back.
pub fn check_reset(atk: i64, def: i64, coins: i64, cost: i64) -> (r: Result<i64, ResetRefusal>)
    requires
        i64::MIN <= atk + def <= i64::MAX,
    ensures
        r == (if atk + def == 0 {
            Err(ResetRefusal::NothingToReset)
        } else if coins < cost {
            Err(ResetRefusal::TooExpensive { cost, coins })
        } else {
            Ok((atk + def) as i64)
        }),
{
    let spent = atk + def;
    if spent == 0 {
        Err(ResetRefusal::NothingToReset)
    } else if coins < cost {
        Err(ResetRefusal::TooExpensive { cost, coins })
    } else {
        Ok(spent)
    }
}

/// Level from which a player may take a prestige.
pub const PRESTIGE_UNLOCK_LEVEL: i32 = 25;

/// The refusal of `/prestige` below level 25, if it applies.
pub fn prestige_gate(level: i32) -> (r: Option<String>)
    ensures
        match r {
            Some(s) => level < 25 && s@ == "Tu dois etre niveau **25+** pour Prestige (tu es niveau "@ + int_text(
                level as int,
            ) + ")."@,
            None => level >= 25,
        },
{
    if level >= PRESTIGE_UNLOCK_LEVEL {
        return None;
    }
    let mut s = owned("Tu dois etre niveau **25+** pour Prestige (tu es niveau ");
    push_i64(&mut s, level as i64);
    push_str(&mut s, ").");
    Some(s)
}

/// Each prestige adds five percent of permanent gains.
pub fn prestige_bonus_percent(prestige_count: i64) -> (p: i64)
    requires
        i64::MIN <= prestige_count * 5 <= i64::MAX,
    ensures
        p == prestige_count * 5,
{
    prestige_count * 5
}

/// Whether a player's class ultimate is available, as `/ultimate` says.
pub fn ultimate_status(level: i32, unlock_level: i32) -> (s: String)
    ensures
        s@ == (if level >= unlock_level {
            "\u{2705} **Debloque** (niveau "@ + int_text(level as int) + ")"@
        } else {
            "\u{1f512} Verrouille \u{2014} debloque au niveau "@ + int_text(unlock_level as int) + " (tu es niveau "@
                + int_text(level as int) + ")"@
        }),
{
    let mut s = String::new();
    if level >= unlock_level {
        push_str(&mut s, "\u{2705} **Debloque** (niveau ");
        push_i64(&mut s, level as i64);
        push_str(&mut s, ")");
    } else {
        push_str(&mut s, "\u{1f512} Verrouille \u{2014} debloque au niveau ");
        push_i64(&mut s, unlock_level as i64);
        push_str(&mut s, " (tu es niveau ");
        push_i64(&mut s, level as i64);
        push_str(&mut s, ")");
    }
    s
}

/// A rest heals only once the cooldown since the last rest has passed (or
/// when no last rest is known), and only a player below its maximum, by
/// exactly what is missing.
pub proof fn law_rest_respects_cooldown(
    cooldown_hours: i64,
    elapsed_minutes: Option<i64>,
    hp_current: Option<i64>,
    hp_max: Option<i64>,
)
    requires
        hp_current matches Some(c) ==> i64::MIN <= (match hp_max {
            Some(m) => m as int,
            None => 100,
        }) - c <= i64::MAX,
    ensures
        ({
            let max: int = match hp_max {
                Some(m) => m as int,
                None => 100,
            };
            let cur: int = match hp_current {
                Some(c) => c as int,
                None => max,
            };
            let e: Option<int> = match elapsed_minutes {
                Some(x) => Some(x as int),
                None => None,
            };
            match rest_spec(
                cooldown_hours as int,
                e,
                match hp_current {
                    Some(c) => Some(c as int),
                    None => None,
                },
                match hp_max {
                    Some(m) => Some(m as int),
                    None => None,
                },
            ) {
                RestOutcome::Healed { healed, hp_max: m } => {
                    &&& (e matches Some(x) ==> x >= cooldown_hours * 60)
                    &&& cur < max
                    &&& healed == max - cur
                    &&& m == max
                },
                RestOutcome::Cooldown { .. } => e matches Some(x) && x < cooldown_hours * 60,
                RestOutcome::AlreadyFull => cur >= max,
            }
        }),
{
}

} // verus!
