//! Slot machine module: button routing and the player-facing error
//! texts.

use vstd::prelude::*;
use crate::config::ConfigMap;
use crate::text::{parse_i64, parse_i64_spec, parse_u64, parse_u64_spec, chars_of, contains, contains_seq, copy_range, find_chars, first_occurrence, index_from, index_of, int_text, owned, push_i64, push_str, str_eq, string_of};

verus! {

// ───────────────────────── slot module ─────────────────────────

/// Module name of the slot machine in the guild configuration.
pub const MODULE_BOT_NAME: &'static str = "slot-bot";
/// Button of the panel that plays a paid spin.
pub const PANEL_SPIN_ID: &'static str = "slot_panel_spin";
/// Button of the panel that plays the daily free spin.
pub const PANEL_DAILY_ID: &'static str = "slot_panel_daily";

/// The slot module handles the button `cid`: the panel's spin or daily
/// button, exactly.
pub fn handles_component(cid: &str) -> (r: bool)
    ensures
        r == (cid@ == "slot_panel_spin"@ || cid@ == "slot_panel_daily"@),
{
    str_eq(cid, PANEL_SPIN_ID) || str_eq(cid, PANEL_DAILY_ID)
}

// ───────────────────────── API error texts ─────────────────────────

/// `s` up to its first double quote (the first piece of `split('"')`).
pub open spec fn before_quote(s: Seq<char>) -> Seq<char> {
    match index_of(s, '"') {
        Some(i) => if 0 <= i <= s.len() {
            s.take(i)
        } else {
            s
        },
        None => s,
    }
}

/// Player-facing text for a raw error of the slot API: the server's own
/// cooldown or bet-range sentence when present (cut at the first quote),
/// otherwise a fixed sentence per known error, or a generic one.
pub open spec fn humanize_spec(raw: Seq<char>) -> Seq<char> {
    match first_occurrence(raw, "Cooldown"@) {
        Some(p) => before_quote(raw.skip(p)),
        None => match first_occurrence(raw, "Mise hors borne"@) {
            Some(p) => before_quote(raw.skip(p)),
            None => if contains_seq(raw, "Solde insuffisant"@) {
                "Solde insuffisant pour cette mise."@
            } else if contains_seq(raw, "desactive"@) {
                "Daily bonus desactive sur ce serveur."@
            } else if contains_seq(raw, "deja reclame"@) {
                "Tu as deja reclame ton daily bonus aujourd hui."@
            } else if contains_seq(raw, "Config slot-bot invalide"@) {
                "Configuration slot invalide. Contacte un admin."@
            } else {
                "Erreur lors du spin. Reessaie dans quelques instants."@
            },
        },
    }
}

/// `cs` from `from` on, up to the first double quote.
fn tail_before_quote(cs: &[char], from: usize) -> (r: String)
    requires
        from <= cs@.len(),
    ensures
        r@ == before_quote(cs@.skip(from as int)),
{
    let ghost rest = cs@.skip(from as int);
    match index_from(cs, from, '"') {
        Some(i) => {
            let piece = copy_range(cs, from, i);
            assert(piece@ =~= rest.take(i - from));
            string_of(piece.as_slice())
        },
        None => {
            let piece = copy_range(cs, from, cs.len());
            assert(piece@ =~= rest);
            string_of(piece.as_slice())
        },
    }
}

/// Turns a raw slot API error into the sentence shown to the player.
pub fn humanize_api_error(raw: &str) -> (r: String)
    ensures
        r@ == humanize_spec(raw@),
{
    let cs = chars_of(raw);
    let cooldown = chars_of("Cooldown");
    if let Some(p) = find_chars(cs.as_slice(), cooldown.as_slice()) {
        proof {
            crate::text::lemma_first_occurrence_bounds(cs@, cooldown@);
        }
        return tail_before_quote(cs.as_slice(), p);
    }
    let range = chars_of("Mise hors borne");
    if let Some(p) = find_chars(cs.as_slice(), range.as_slice()) {
        proof {
            crate::text::lemma_first_occurrence_bounds(cs@, range@);
        }
        return tail_before_quote(cs.as_slice(), p);
    }
    if contains(raw, "Solde insuffisant") {
        return owned("Solde insuffisant pour cette mise.");
    }
    if contains(raw, "desactive") {
        return owned("Daily bonus desactive sur ce serveur.");
    }
    if contains(raw, "deja reclame") {
        return owned("Tu as deja reclame ton daily bonus aujourd hui.");
    }
    if contains(raw, "Config slot-bot invalide") {
        return owned("Configuration slot invalide. Contacte un admin.");
    }
    owned("Erreur lors du spin. Reessaie dans quelques instants.")
}

// ───────────────────────── spin results ─────────────────────────

/// Kind of a spin result, which sets the title and colour of its card.
#[derive(PartialEq, Eq, Structural, Clone, Copy, Debug)]
pub enum SpinOutcome {
    Jackpot,
    Win,
    Refund,
    Loss,
}

/// Kind of a spin: jackpot first, then a payout above the bet, then the bet
/// paid back, else a loss.
pub open spec fn outcome_spec(payout: int, mise: int, is_jackpot: bool) -> SpinOutcome {
    if is_jackpot {
        SpinOutcome::Jackpot
    } else if payout > mise {
        SpinOutcome::Win
    } else if payout == mise && payout > 0 {
        SpinOutcome::Refund
    } else {
        SpinOutcome::Loss
    }
}

/// Kind of a spin with payout `payout` on bet `mise`.
pub fn spin_outcome(payout: i64, mise: i64, is_jackpot: bool) -> (o: SpinOutcome)
    ensures
        o == outcome_spec(payout as int, mise as int, is_jackpot),
{
    if is_jackpot {
        SpinOutcome::Jackpot
    } else if payout > mise {
        SpinOutcome::Win
    } else if payout == mise && payout > 0 {
        SpinOutcome::Refund
    } else {
        SpinOutcome::Loss
    }
}

/// Card title of an outcome.
pub open spec fn outcome_title_spec(o: SpinOutcome) -> Seq<char> {
    match o {
        SpinOutcome::Jackpot => "\u{1f3b0} JACKPOT \u{1f3b0}"@,
        SpinOutcome::Win => "\u{1f389} Gagne !"@,
        SpinOutcome::Refund => "\u{1f504} 2 identiques \u{2014} mise rendue"@,
        SpinOutcome::Loss => "\u{1f614} Perdu"@,
    }
}

/// Card colour of an outcome.
pub open spec fn outcome_color_spec(o: SpinOutcome) -> u32 {
    match o {
        SpinOutcome::Jackpot => 0xf1c40f,
        SpinOutcome::Win => 0x2ecc71,
        SpinOutcome::Refund => 0x3498db,
        SpinOutcome::Loss => 0x95a5a6,
    }
}

/// Card title and colour of an outcome.
pub fn outcome_title(o: SpinOutcome) -> (r: (String, u32))
    ensures
        r.0@ == outcome_title_spec(o),
        r.1 == outcome_color_spec(o),
{
    match o {
        SpinOutcome::Jackpot => (owned("\u{1f3b0} JACKPOT \u{1f3b0}"), 0xf1c40f),
        SpinOutcome::Win => (owned("\u{1f389} Gagne !"), 0x2ecc71),
        SpinOutcome::Refund => (owned("\u{1f504} 2 identiques \u{2014} mise rendue"), 0x3498db),
        SpinOutcome::Loss => (owned("\u{1f614} Perdu"), 0x95a5a6),
    }
}

/// Net gain of a spin as shown: `+n` when not negative, `-n` otherwise.
pub open spec fn net_text_spec(payout: int, mise: int) -> Seq<char> {
    if payout - mise >= 0 {
        "+"@ + int_text(payout - mise)
    } else {
        int_text(payout - mise)
    }
}

/// Net gain of a spin as shown on its card.
pub fn net_text(payout: i64, mise: i64) -> (s: String)
    requires
        i64::MIN <= payout - mise <= i64::MAX,
    ensures
        s@ == net_text_spec(payout as int, mise as int),
{
    let net = payout - mise;
    let mut s = String::new();
    if net >= 0 {
        push_str(&mut s, "+");
    }
    push_i64(&mut s, net);
    s
}

/// Card footer of a spin: the jackpot pool (reset or current) and the
/// player's name.
pub open spec fn footer_spec(jackpot_pool_after: int, username: Seq<char>, is_jackpot: bool) -> Seq<char> {
    if is_jackpot {
        "Pool jackpot reset a "@ + int_text(jackpot_pool_after) + " coins. "@ + username
    } else {
        "Pool jackpot actuel : "@ + int_text(jackpot_pool_after) + " coins | "@ + username
    }
}

/// Card footer of a spin.
pub fn spin_footer(jackpot_pool_after: i64, username: &str, is_jackpot: bool) -> (s: String)
    ensures
        s@ == footer_spec(jackpot_pool_after as int, username@, is_jackpot),
{
    let mut s = String::new();
    if is_jackpot {
        push_str(&mut s, "Pool jackpot reset a ");
        push_i64(&mut s, jackpot_pool_after);
        push_str(&mut s, " coins. ");
    } else {
        push_str(&mut s, "Pool jackpot actuel : ");
        push_i64(&mut s, jackpot_pool_after);
        push_str(&mut s, " coins | ");
    }
    push_str(&mut s, username);
    s
}

// ───────────────────────── requests and replies ─────────────────────────

/// A paid spin asked of the API.
pub struct SpinRequest {
    pub user_id: String,
    pub username: String,
    pub mise: i64,
}

/// The daily free spin asked of the API.
pub struct DailyRequest {
    pub user_id: String,
    pub username: String,
}

/// A taunt the API asks the bot to replay after a spin.
pub struct TauntEventDto {
    pub channel_id: String,
    pub target_user_id: String,
    pub message: String,
    pub nickname_suffix: String,
    pub streak_kind: String,
    pub streak_value: i32,
}

/// The progressive jackpot pool.
pub struct JackpotPoolResponse {
    pub current_pool: i64,
}

/// Bet of a paid spin when the guild sets none.
pub const FALLBACK_DEFAULT_BET: i64 = 50;

/// The bet of a paid spin: the guild's `default_bet` when its configuration
/// could be read and the value reads as an `i64`, else 50.
pub fn default_bet(cfg: Option<&ConfigMap>) -> (b: i64)
    ensures
        b == match cfg {
            Some(m) => match m.get_spec("default_bet"@) {
                Some(v) => match parse_i64_spec(v) {
                    Some(n) => n,
                    None => 50,
                },
                None => 50,
            },
            None => 50,
        },
{
    match cfg {
        Some(m) => match m.get("default_bet") {
            Some(v) => match parse_i64(v.as_str()) {
                Some(n) => n,
                None => FALLBACK_DEFAULT_BET,
            },
            None => FALLBACK_DEFAULT_BET,
        },
        None => FALLBACK_DEFAULT_BET,
    }
}

/// Name of a player's private slot channel: `slot-` and the first fifteen
/// characters of the player's name, in lower case.
pub fn slot_channel_name(username: &str) -> (s: String)
    ensures
        s@ == "slot-"@ + crate::text::lowercase_of(if username@.len() <= 15 { username@ } else { username@.take(15) }),
{
    let cs = chars_of(username);
    let k = if cs.len() <= 15 {
        cs.len()
    } else {
        15
    };
    let head = string_of(copy_range(cs.as_slice(), 0, k).as_slice());
    proof {
        if cs@.len() <= 15 {
            assert(head@ =~= username@);
        } else {
            assert(head@ =~= username@.take(15));
        }
    }
    let low = crate::text::to_lowercase(head.as_str());
    let mut s = owned("slot-");
    push_str(&mut s, low.as_str());
    s
}

/// Topic of a player's private slot channel: `[slot:<user id>]`.
pub fn slot_channel_topic(user_id: u64) -> (s: String)
    ensures
        s@ == "[slot:"@ + int_text(user_id as int) + "]"@,
{
    let mut s = owned("[slot:");
    crate::text::push_u64(&mut s, user_id);
    push_str(&mut s, "]");
    s
}

/// The guild's category for slot channels: `slot_category_id` when it
/// reads as a number.
pub fn slot_category(cfg: &ConfigMap) -> (r: Option<u64>)
    ensures
        r == match cfg.get_spec("slot_category_id"@) {
            Some(v) => parse_u64_spec(v),
            None => None,
        },
{
    match cfg.get("slot_category_id") {
        Some(v) => parse_u64(v.as_str()),
        None => None,
    }
}

/// A slot channel may be closed by its owner or by a member who manages
/// the guild or is an administrator.
pub fn may_close_channel(owner: Option<u64>, clicker: u64, manage_guild: bool, administrator: bool) -> (r: bool)
    ensures
        r == (owner == Some(clicker) || manage_guild || administrator),
{
    let is_owner = match owner {
        Some(o) => o == clicker,
        None => false,
    };
    is_owner || manage_guild || administrator
}

/// The reels of a spin as shown: `# ` and the symbols separated by an em
/// space between spaces.
pub open spec fn symbols_line_spec(symbols: Seq<Seq<char>>) -> Seq<char> {
    "# "@ + crate::text::join_spec(symbols, " \u{2003} "@)
}

/// The line of reels of a spin's card.
pub fn symbols_line(symbols: &Vec<String>) -> (s: String)
    ensures
        s@ == symbols_line_spec(symbols@.map_values(|x: String| x@)),
{
    let ghost items = symbols@.map_values(|x: String| x@);
    let mut s = owned("# ");
    let n = symbols.len();
    for i in 0..n
        invariant
            n == symbols@.len(),
            items == symbols@.map_values(|x: String| x@),
            s@ == "# "@ + crate::text::join_spec(items.take(i as int), " \u{2003} "@),
    {
        if i > 0 {
            push_str(&mut s, " \u{2003} ");
        }
        push_str(&mut s, symbols[i].as_str());
        proof {
            let t = items.take(i + 1);
            assert(t.drop_last() =~= items.take(i as int));
            assert(t.last() == symbols@[i as int]@);
            if i == 0 {
                assert(items.take(0) =~= Seq::<Seq<char>>::empty());
                assert(t.len() == 1);
            }
        }
    }
    assert(items.take(n as int) =~= items);
    s
}


// ───────────────────────── the spin card ─────────────────────────

/// A field of a card: its name and value (shown inline).
#[derive(Clone, Debug)]
pub struct CardField {
    pub name: String,
    pub value: String,
}

/// The card of a spin: title, reels, colour, fields and footer. The
/// multiplier field (`Multiplicateur`, a float shown only when positive and
/// not a jackpot) goes between `Solde` and `Net` and is left to the caller.
#[derive(Clone, Debug)]
pub struct SpinCard {
    pub title: String,
    pub description: String,
    pub color: u32,
    pub fields: Vec<CardField>,
    pub footer: String,
}

pub open spec fn field_views(v: Seq<CardField>) -> Seq<(Seq<char>, Seq<char>)> {
    v.map_values(|f: CardField| (f.name@, f.value@))
}

/// The fields of a spin's card, but the multiplier: the bet, the payout
/// and the balance in coins, the net gain, and `Type` for a free daily
/// spin.
pub open spec fn spin_fields_spec(mise: int, payout: int, balance_after: int, is_free: bool) -> Seq<(Seq<char>, Seq<char>)> {
    seq![
        ("Mise"@, int_text(mise) + " coins"@),
        ("Payout"@, int_text(payout) + " coins"@),
        ("Solde"@, int_text(balance_after) + " coins"@),
        ("Net"@, net_text_spec(payout, mise) + " coins"@),
    ] + if is_free {
        seq![("Type"@, "\u{1f381} Daily bonus (gratuit)"@)]
    } else {
        Seq::empty()
    }
}

fn card_field(name: &str, value: String) -> (f: CardField)
    ensures
        f.name@ == name@,
        f.value@ == value@,
{
    CardField { name: owned(name), value }
}

fn coins_text(n: i64) -> (s: String)
    ensures
        s@ == int_text(n as int) + " coins"@,
{
    let mut s = String::new();
    push_i64(&mut s, n);
    push_str(&mut s, " coins");
    s
}

/// The card of a spin, its multiplier field aside.
pub fn spin_card(
    symbols: &Vec<String>,
    mise: i64,
    payout: i64,
    balance_after: i64,
    is_jackpot: bool,
    is_free: bool,
    jackpot_pool_after: i64,
    username: &str,
) -> (c: SpinCard)
    requires
        i64::MIN <= payout - mise <= i64::MAX,
    ensures
        c.title@ == outcome_title_spec(outcome_spec(payout as int, mise as int, is_jackpot)),
        c.color == outcome_color_spec(outcome_spec(payout as int, mise as int, is_jackpot)),
        c.description@ == symbols_line_spec(symbols@.map_values(|x: String| x@)),
        field_views(c.fields@) == spin_fields_spec(mise as int, payout as int, balance_after as int, is_free),
        c.footer@ == footer_spec(jackpot_pool_after as int, username@, is_jackpot),
{
    let (title, color) = outcome_title(spin_outcome(payout, mise, is_jackpot));
    let description = symbols_line(symbols);
    let mut fields: Vec<CardField> = Vec::new();
    fields.push(card_field("Mise", coins_text(mise)));
    fields.push(card_field("Payout", coins_text(payout)));
    fields.push(card_field("Solde", coins_text(balance_after)));
    let mut net = net_text(payout, mise);
    push_str(&mut net, " coins");
    fields.push(card_field("Net", net));
    if is_free {
        fields.push(card_field("Type", owned("\u{1f381} Daily bonus (gratuit)")));
    }
    proof {
        assert(field_views(fields@) =~= spin_fields_spec(mise as int, payout as int, balance_after as int, is_free));
    }
    let footer = spin_footer(jackpot_pool_after, username, is_jackpot);
    SpinCard { title, description, color, fields, footer }
}

/// The card shown for a refused spin: `🎰 Slot`, the message, in red.
pub fn error_card(message: &str) -> (r: (String, String, u32))
    ensures
        r.0@ == "\u{1f3b0} Slot"@,
        r.1@ == message@,
        r.2 == 0xed4245,
{
    (owned("\u{1f3b0} Slot"), owned(message), 0xed4245)
}

} // verus!
