//! Game mentions in chat messages: `#Game` or `#"Game with spaces"`.

use vstd::prelude::*;
use crate::text::{chars_eq, chars_of, int_text, join_spec, lemma_lex_irreflexive, lemma_lex_total, lemma_lex_transitive, lex_less, lex_lt, lowercase_of, owned, push_str, str_eq, to_lowercase, trim, trim_spec};

verus! {

/// Capture groups of each successive match of the regular expression
/// `pattern` in `haystack` (group 0 is the whole match; an unmatched group
/// is `None`), or `None` when `pattern` is not a valid expression.
pub uninterp spec fn regex_captures(pattern: Seq<char>, haystack: Seq<char>) -> Option<Seq<Seq<Option<Seq<char>>>>>;

/// Runs `regex::Regex::new(pattern)` and, when it compiles, collects
/// `captures_iter(haystack)`: for each match, the text of every group.
/// The contract only names the result: it is `regex_captures` of the
/// arguments, the crate's leftmost-first matching not being restated.
#[verifier::external_body]
fn capture_groups(pattern: &str, haystack: &str) -> (r: Option<Vec<Vec<Option<String>>>>)
    ensures
        r.deep_view() == regex_captures(pattern@, haystack@),
{
    match regex::Regex::new(pattern) {
        Ok(re) => Some(
            re.captures_iter(haystack).map(
                |c| c.iter().map(|g| g.map(|m| m.as_str().to_string())).collect(),
            ).collect(),
        ),
        Err(_) => None,
    }
}

/// Pattern of a game mention: `#"..."` (anything but quotes) or `#word`.
pub const GAME_MENTION_PATTERN: &'static str = r#"#"([^"]+)"|#([\w]+)"#;

/// Group `i` of a match, `None` when absent.
pub open spec fn group(c: Seq<Option<Seq<char>>>, i: int) -> Option<Seq<char>> {
    if 0 <= i < c.len() {
        c[i]
    } else {
        None
    }
}

/// Name carried by one match: the quoted group, else the word group, else a
/// third group, trimmed.
pub open spec fn mention_of(c: Seq<Option<Seq<char>>>) -> Option<Seq<char>> {
    if group(c, 1) is Some {
        Some(trim_spec(group(c, 1)->0))
    } else if group(c, 2) is Some {
        Some(trim_spec(group(c, 2)->0))
    } else if group(c, 3) is Some {
        Some(trim_spec(group(c, 3)->0))
    } else {
        None
    }
}

/// Non-empty names carried by the matches, in order.
pub open spec fn mentions_spec(caps: Seq<Seq<Option<Seq<char>>>>) -> Seq<Seq<char>>
    decreases caps.len(),
{
    if caps.len() == 0 {
        Seq::empty()
    } else {
        let rest = mentions_spec(caps.drop_last());
        match mention_of(caps.last()) {
            Some(n) => if n.len() > 0 {
                rest.push(n)
            } else {
                rest
            },
            None => rest,
        }
    }
}

/// The views of a list of strings.
pub open spec fn string_views(v: Seq<String>) -> Seq<Seq<char>> {
    v.map_values(|s: String| s@)
}

/// Group `i` of one match.
fn group_exec(c: &Vec<Option<String>>, i: usize) -> (r: Option<&String>)
    ensures
        match r {
            Some(s) => group(c.deep_view(), i as int) == Some(s@),
            None => group(c.deep_view(), i as int) is None,
        },
{
    if i < c.len() {
        match &c[i] {
            Some(s) => Some(s),
            None => None,
        }
    } else {
        None
    }
}

/// Game names from the capture groups of the mention pattern: for each
/// match the quoted or bare name, trimmed, empty names dropped.
pub fn mentions_from_captures(caps: &Vec<Vec<Option<String>>>) -> (r: Vec<String>)
    ensures
        string_views(r@) == mentions_spec(caps.deep_view()),
{
    let mut r: Vec<String> = Vec::new();
    let n = caps.len();
    for k in 0..n
        invariant
            n == caps@.len(),
            string_views(r@) == mentions_spec(caps.deep_view().take(k as int)),
    {
        let c = &caps[k];
        let ghost cv = c.deep_view();
        let ghost t = caps.deep_view().take(k + 1);
        assert(t.drop_last() =~= caps.deep_view().take(k as int));
        assert(t.last() == cv);
        let g1 = group_exec(c, 1);
        let g2 = group_exec(c, 2);
        let g3 = group_exec(c, 3);
        let picked: Option<&String> = if g1.is_some() {
            g1
        } else if g2.is_some() {
            g2
        } else {
            g3
        };
        match picked {
            Some(s) => {
                let name = trim(s.as_str());
                if !name.as_str().is_empty() {
                    r.push(name);
                    assert(string_views(r@) =~= mentions_spec(caps.deep_view().take(k as int)).push(
                        mention_of(cv)->0,
                    ));
                }
            },
            None => {},
        }
    }
    assert(caps.deep_view().take(n as int) =~= caps.deep_view());
    r
}

/// Game names mentioned in a message, in order of appearance, trimmed;
/// empty when the mention pattern yields nothing.
pub fn extract_game_mentions(content: &str) -> (r: Vec<String>)
    ensures
        match regex_captures(GAME_MENTION_PATTERN@, content@) {
            Some(caps) => string_views(r@) == mentions_spec(caps),
            None => r@.len() == 0,
        },
{
    match capture_groups(GAME_MENTION_PATTERN, content) {
        Some(caps) => mentions_from_captures(&caps),
        None => Vec::new(),
    }
}

// ───────────────────────── notifying subscribers ─────────────────────────

/// Module name of the game features in the guild configuration.
pub const MODULE_BOT_NAME: &'static str = "game-bot";

/// Mentions `<@id>` of the subscribers other than the message's author,
/// in order.
pub open spec fn pings_spec(subscribers: Seq<Seq<char>>, author: Seq<char>) -> Seq<Seq<char>>
    decreases subscribers.len(),
{
    if subscribers.len() == 0 {
        Seq::empty()
    } else {
        let prev = pings_spec(subscribers.drop_last(), author);
        if subscribers.last() == author {
            prev
        } else {
            prev.push("<@"@ + subscribers.last() + ">"@)
        }
    }
}

/// The notification for a mentioned game: its name and the pings of its
/// subscribers but the author, or nothing when nobody else subscribed.
pub open spec fn game_ping_spec(game_name: Seq<char>, subscribers: Seq<Seq<char>>, author: Seq<char>) -> Option<
    Seq<char>,
> {
    let pings = pings_spec(subscribers, author);
    if pings.len() == 0 {
        None
    } else {
        Some("**"@ + game_name + "** mentionne ! "@ + join_spec(pings, " "@))
    }
}

/// The message that pings a game's subscribers after a mention.
pub fn game_ping(game_name: &str, subscribers: &Vec<String>, author: &str) -> (r: Option<String>)
    ensures
        match r {
            Some(t) => game_ping_spec(game_name@, subscribers@.map_values(|s: String| s@), author@) == Some(t@),
            None => game_ping_spec(game_name@, subscribers@.map_values(|s: String| s@), author@) is None,
        },
{
    let ghost subs = subscribers@.map_values(|s: String| s@);
    let n = subscribers.len();
    let mut body = String::new();
    let mut count: usize = 0;
    for i in 0..n
        invariant
            n == subscribers@.len(),
            subs == subscribers@.map_values(|s: String| s@),
            count == pings_spec(subs.take(i as int), author@).len(),
            count <= i,
            body@ == join_spec(pings_spec(subs.take(i as int), author@), " "@),
    {
        let ghost t = subs.take(i + 1);
        proof {
            assert(t.drop_last() =~= subs.take(i as int));
            assert(t.last() == subscribers@[i as int]@);
        }
        if !str_eq(subscribers[i].as_str(), author) {
            let ghost prev = pings_spec(subs.take(i as int), author@);
            if count > 0 {
                push_str(&mut body, " ");
            }
            push_str(&mut body, "<@");
            push_str(&mut body, subscribers[i].as_str());
            push_str(&mut body, ">");
            proof {
                let np = pings_spec(t, author@);
                assert(np == prev.push("<@"@ + subscribers@[i as int]@ + ">"@));
                assert(np.drop_last() =~= prev);
                if count == 0 {
                    assert(prev.len() == 0);
                    assert(np.len() == 1);
                }
            }
            count = count + 1;
        }
    }
    assert(subs.take(n as int) =~= subs);
    if count == 0 {
        None
    } else {
        let mut text = owned("**");
        push_str(&mut text, game_name);
        push_str(&mut text, "** mentionne ! ");
        push_str(&mut text, body.as_str());
        Some(text)
    }
}

// ───────────────────────── the `/game` commands ─────────────────────────

/// The sub-commands of `/game` and `/game-admin`.
#[derive(PartialEq, Eq, Structural, Clone, Copy, Debug)]
pub enum GameCommand {
    Create,
    Delete,
    Panel,
    Refresh,
    List,
    Join,
    Leave,
    MyGames,
    Players,
    Unknown,
}

/// The sub-command named by a command and its first option.
pub open spec fn route_spec(top: Seq<char>, sub: Seq<char>) -> GameCommand {
    if top == "game-admin"@ {
        if sub == "create"@ {
            GameCommand::Create
        } else if sub == "delete"@ {
            GameCommand::Delete
        } else if sub == "panel"@ {
            GameCommand::Panel
        } else if sub == "refresh"@ {
            GameCommand::Refresh
        } else {
            GameCommand::Unknown
        }
    } else if top == "game"@ {
        if sub == "list"@ {
            GameCommand::List
        } else if sub == "join"@ {
            GameCommand::Join
        } else if sub == "leave"@ {
            GameCommand::Leave
        } else if sub == "my-games"@ {
            GameCommand::MyGames
        } else if sub == "players"@ {
            GameCommand::Players
        } else {
            GameCommand::Unknown
        }
    } else {
        GameCommand::Unknown
    }
}

/// Routes a `/game` or `/game-admin` interaction.
pub fn route_game_command(top: &str, sub: &str) -> (c: GameCommand)
    ensures
        c == route_spec(top@, sub@),
{
    if str_eq(top, "game-admin") {
        if str_eq(sub, "create") {
            GameCommand::Create
        } else if str_eq(sub, "delete") {
            GameCommand::Delete
        } else if str_eq(sub, "panel") {
            GameCommand::Panel
        } else if str_eq(sub, "refresh") {
            GameCommand::Refresh
        } else {
            GameCommand::Unknown
        }
    } else if str_eq(top, "game") {
        if str_eq(sub, "list") {
            GameCommand::List
        } else if str_eq(sub, "join") {
            GameCommand::Join
        } else if str_eq(sub, "leave") {
            GameCommand::Leave
        } else if str_eq(sub, "my-games") {
            GameCommand::MyGames
        } else if str_eq(sub, "players") {
            GameCommand::Players
        } else {
            GameCommand::Unknown
        }
    } else {
        GameCommand::Unknown
    }
}

/// A game of the guild: its name and its reaction emoji, if any.
pub struct GameEntry {
    pub game_name: String,
    pub emoji: Option<String>,
}

pub open spec fn emoji_or_empty(e: Option<String>) -> Seq<char> {
    match e {
        Some(x) => x@,
        None => Seq::empty(),
    }
}

/// Line of a game in a list: `- <emoji> **<name>**`.
pub open spec fn game_line_spec(g: GameEntry) -> Seq<char> {
    "- "@ + emoji_or_empty(g.emoji) + " **"@ + g.game_name@ + "**"@
}

pub open spec fn game_lines_spec(gs: Seq<GameEntry>) -> Seq<Seq<char>> {
    gs.map_values(|g: GameEntry| game_line_spec(g))
}

fn game_line(g: &GameEntry) -> (s: String)
    ensures
        s@ == game_line_spec(*g),
{
    let mut s = owned("- ");
    match &g.emoji {
        Some(e) => push_str(&mut s, e.as_str()),
        None => {
            assert(s@ + Seq::<char>::empty() =~= s@);
        },
    }
    push_str(&mut s, " **");
    push_str(&mut s, g.game_name.as_str());
    push_str(&mut s, "**");
    s
}

/// The lines of a list of games, one per game.
pub fn games_list_text(games: &Vec<GameEntry>) -> (s: String)
    ensures
        s@ == join_spec(game_lines_spec(games@), "\n"@),
{
    let ghost lines = game_lines_spec(games@);
    let mut s = String::new();
    let n = games.len();
    for i in 0..n
        invariant
            n == games@.len(),
            lines == game_lines_spec(games@),
            s@ == join_spec(lines.take(i as int), "\n"@),
    {
        if i > 0 {
            push_str(&mut s, "\n");
        }
        let line = game_line(&games[i]);
        push_str(&mut s, line.as_str());
        proof {
            let t = lines.take(i + 1);
            assert(t.drop_last() =~= lines.take(i as int));
            assert(t.last() == lines[i as int]);
            if i == 0 {
                assert(lines.take(0) =~= Seq::<Seq<char>>::empty());
                assert(t.len() == 1);
            }
        }
    }
    assert(lines.take(n as int) =~= lines);
    s
}

/// The answer of `/game players`: the subscribers' mentions, or a
/// sentence when nobody subscribed.
pub fn players_text(game_name: &str, user_ids: &Vec<String>) -> (s: String)
    ensures
        s@ == (if user_ids@.len() == 0 {
            "Aucun joueur inscrit a **"@ + game_name@ + "**."@
        } else {
            "Joueurs inscrits a **"@ + game_name@ + "** ("@ + int_text(user_ids@.len() as int) + ") : "@ + join_spec(
                user_ids@.map_values(|u: String| "<@"@ + u@ + ">"@),
                ", "@,
            )
        }),
{
    let n = user_ids.len();
    if n == 0 {
        let mut s = owned("Aucun joueur inscrit a **");
        push_str(&mut s, game_name);
        push_str(&mut s, "**.");
        return s;
    }
    let ghost items = user_ids@.map_values(|u: String| "<@"@ + u@ + ">"@);
    let mut list = String::new();
    for i in 0..n
        invariant
            n == user_ids@.len(),
            items == user_ids@.map_values(|u: String| "<@"@ + u@ + ">"@),
            list@ == join_spec(items.take(i as int), ", "@),
    {
        if i > 0 {
            push_str(&mut list, ", ");
        }
        push_str(&mut list, "<@");
        push_str(&mut list, user_ids[i].as_str());
        push_str(&mut list, ">");
        proof {
            let t = items.take(i + 1);
            assert(t.drop_last() =~= items.take(i as int));
            assert(t.last() == items[i as int]);
            if i == 0 {
                assert(items.take(0) =~= Seq::<Seq<char>>::empty());
                assert(t.len() == 1);
            }
        }
    }
    assert(items.take(n as int) =~= items);
    let mut s = owned("Joueurs inscrits a **");
    push_str(&mut s, game_name);
    push_str(&mut s, "** (");
    crate::text::push_u64(&mut s, n as u64);
    push_str(&mut s, ") : ");
    push_str(&mut s, list.as_str());
    s
}

/// Title of a reaction panel: its category, or `Jeux`.
pub fn panel_title(category: Option<&str>) -> (s: String)
    ensures
        s@ == "- [ "@ + (match category {
            Some(c) => c@,
            None => "Jeux"@,
        }) + " ] -"@,
{
    let mut s = owned("- [ ");
    match category {
        Some(c) => push_str(&mut s, c),
        None => push_str(&mut s, "Jeux"),
    }
    push_str(&mut s, " ] -");
    s
}

/// Line of a game on a reaction panel: `<emoji> @<name>`.
pub open spec fn panel_line_spec(g: GameEntry) -> Seq<char> {
    emoji_or_empty(g.emoji) + " @"@ + g.game_name@
}

/// The body of a reaction panel: a line per game, or a sentence when the
/// panel has none.
pub fn panel_description(games: &Vec<GameEntry>) -> (s: String)
    ensures
        s@ == (if games@.len() == 0 {
            "*Aucun jeu.*"@
        } else {
            join_spec(games@.map_values(|g: GameEntry| panel_line_spec(g)), "\n"@)
        }),
{
    let n = games.len();
    if n == 0 {
        return owned("*Aucun jeu.*");
    }
    let ghost items = games@.map_values(|g: GameEntry| panel_line_spec(g));
    let mut s = String::new();
    for i in 0..n
        invariant
            n == games@.len(),
            items == games@.map_values(|g: GameEntry| panel_line_spec(g)),
            s@ == join_spec(items.take(i as int), "\n"@),
    {
        if i > 0 {
            push_str(&mut s, "\n");
        }
        let ghost before = s@;
        match &games[i].emoji {
            Some(e) => push_str(&mut s, e.as_str()),
            None => {},
        }
        push_str(&mut s, " @");
        push_str(&mut s, games[i].game_name.as_str());
        proof {
            let t = items.take(i + 1);
            assert(t.drop_last() =~= items.take(i as int));
            assert(t.last() == items[i as int]);
            assert(s@ =~= before + panel_line_spec(games@[i as int]));
            if i == 0 {
                assert(items.take(0) =~= Seq::<Seq<char>>::empty());
                assert(t.len() == 1);
            }
        }
    }
    assert(items.take(n as int) =~= items);
    s
}

// ───────────────────────── mentions to notify ─────────────────────────

/// The mention at `j` is the first of its lower-case form.
pub open spec fn first_of_its_key(input: Seq<Seq<char>>, j: int) -> bool {
    forall|k: int| 0 <= k < j ==> lowercase_of(#[trigger] input[k]) != lowercase_of(input[j])
}

/// Strictly increasing in the order of `lex_lt`.
pub open spec fn strictly_sorted(s: Seq<Seq<char>>) -> bool {
    forall|a: int, b: int| 0 <= a < b < s.len() ==> lex_lt(#[trigger] s[a], #[trigger] s[b])
}

/// The lower-case forms of a list of mentions.
pub open spec fn keys_of(s: Seq<Seq<char>>) -> Seq<Seq<char>> {
    s.map_values(|m: Seq<char>| lowercase_of(m))
}

/// Mention `q` of `out` is a mention of the first `i` of `input`, the first
/// of its lower-case form there.
pub open spec fn from_first_of_key(input: Seq<Seq<char>>, i: int, out: Seq<Seq<char>>, q: int) -> bool {
    exists|j: int| 0 <= j < i && #[trigger] input[j] == out[q] && first_of_its_key(input, j)
}

/// Mention `j` of `input` has its lower-case form in `out`.
pub open spec fn key_kept(input: Seq<Seq<char>>, out: Seq<Seq<char>>, j: int) -> bool {
    exists|q: int| 0 <= q < out.len() && lowercase_of(#[trigger] out[q]) == lowercase_of(input[j])
}

/// What holds after the first `i` mentions of `input` went through: `out`
/// holds one mention per lower-case form among them, the first written,
/// sorted by lower-case form.
pub open spec fn normalized_upto(input: Seq<Seq<char>>, i: int, out: Seq<Seq<char>>) -> bool {
    &&& strictly_sorted(keys_of(out))
    &&& forall|q: int| 0 <= q < out.len() ==> #[trigger] from_first_of_key(input, i, out, q)
    &&& forall|j: int| 0 <= j < i ==> #[trigger] key_kept(input, out, j)
}

/// `out` holds one mention per lower-case form of `input`, the first
/// written, sorted by lower-case form: what sorting by lower-case form and
/// then dropping the later duplicates gives.
pub open spec fn normalized(input: Seq<Seq<char>>, out: Seq<Seq<char>>) -> bool {
    normalized_upto(input, input.len() as int, out)
}

spec fn char_views(keys: Seq<Vec<char>>) -> Seq<Seq<char>> {
    keys.map_values(|v: Vec<char>| v@)
}

/// Where `k` stands among sorted keys: the first position whose key is not
/// below it, and whether that key is `k` itself.
fn locate_key(keys: &Vec<Vec<char>>, k: &Vec<char>) -> (r: (usize, bool))
    requires
        strictly_sorted(char_views(keys@)),
    ensures
        r.0 <= keys@.len(),
        forall|q: int| 0 <= q < r.0 ==> lex_lt(#[trigger] char_views(keys@)[q], k@),
        r.1 ==> r.0 < keys@.len() && char_views(keys@)[r.0 as int] == k@,
        !r.1 ==> r.0 < keys@.len() ==> lex_lt(k@, char_views(keys@)[r.0 as int]),
        !r.1 ==> forall|q: int| 0 <= q < keys@.len() ==> #[trigger] char_views(keys@)[q] != k@,
{
    let ghost kv = char_views(keys@);
    let len = keys.len();
    let mut p: usize = 0;
    while p < len
        invariant
            len == keys@.len(),
            kv == char_views(keys@),
            strictly_sorted(kv),
            p <= len,
            forall|q: int| 0 <= q < p ==> lex_lt(#[trigger] kv[q], k@),
        decreases len - p,
    {
        assert(kv[p as int] == keys@[p as int]@);
        if chars_eq(keys[p].as_slice(), k.as_slice()) {
            return (p, true);
        }
        if lex_less(k.as_slice(), keys[p].as_slice()) {
            proof {
                lemma_lex_irreflexive(k@);
                assert forall|q: int| 0 <= q < keys@.len() implies #[trigger] kv[q] != k@ by {
                    if q < p {
                        lemma_lex_irreflexive(k@);
                    } else if q > p {
                        lemma_lex_transitive(k@, kv[p as int], kv[q]);
                        lemma_lex_irreflexive(k@);
                    }
                }
            }
            return (p, false);
        }
        proof {
            lemma_lex_total(kv[p as int], k@);
        }
        p = p + 1;
    }
    proof {
        assert forall|q: int| 0 <= q < keys@.len() implies #[trigger] kv[q] != k@ by {
            lemma_lex_irreflexive(k@);
        }
    }
    (p, false)
}

/// Inserting `k` where `locate_key` puts it keeps the keys sorted.
proof fn lemma_insert_sorted(s: Seq<Seq<char>>, p: int, k: Seq<char>)
    requires
        strictly_sorted(s),
        0 <= p <= s.len(),
        forall|q: int| 0 <= q < p ==> lex_lt(#[trigger] s[q], k),
        p < s.len() ==> lex_lt(k, s[p]),
    ensures
        strictly_sorted(s.insert(p, k)),
{
    let t = s.insert(p, k);
    assert forall|a: int, b: int| 0 <= a < b < t.len() implies lex_lt(#[trigger] t[a], #[trigger] t[b]) by {
        if b < p {
        } else if a > p {
            assert(t[a] == s[a - 1] && t[b] == s[b - 1]);
        } else if a == p {
            assert(t[b] == s[b - 1]);
            if b - 1 > p {
                lemma_lex_transitive(k, s[p], s[b - 1]);
            }
        } else if b == p {
        } else {
            assert(t[b] == s[b - 1]);
            lemma_lex_transitive(s[a], k, s[p]);
            if b - 1 > p {
                lemma_lex_transitive(s[a], s[p], s[b - 1]);
            }
        }
    }
}

/// One step of `normalize_mentions` on a mention whose lower-case form is
/// new: it goes in at `p`.
proof fn lemma_step_new(input: Seq<Seq<char>>, i: int, out: Seq<Seq<char>>, p: int)
    requires
        0 <= i < input.len(),
        normalized_upto(input, i, out),
        0 <= p <= out.len(),
        forall|q: int| 0 <= q < p ==> lex_lt(#[trigger] keys_of(out)[q], lowercase_of(input[i])),
        p < out.len() ==> lex_lt(lowercase_of(input[i]), keys_of(out)[p]),
        forall|q: int| 0 <= q < out.len() ==> #[trigger] keys_of(out)[q] != lowercase_of(input[i]),
    ensures
        normalized_upto(input, i + 1, out.insert(p, input[i])),
{
    let o2 = out.insert(p, input[i]);
    let k = lowercase_of(input[i]);
    lemma_insert_sorted(keys_of(out), p, k);
    assert(keys_of(o2) =~= keys_of(out).insert(p, k));
    assert(first_of_its_key(input, i)) by {
        assert forall|j: int| 0 <= j < i implies lowercase_of(#[trigger] input[j]) != lowercase_of(input[i]) by {
            assert(key_kept(input, out, j));
            let q = choose|q: int| 0 <= q < out.len() && lowercase_of(#[trigger] out[q]) == lowercase_of(input[j]);
            assert(keys_of(out)[q] == lowercase_of(out[q]));
        }
    }
    assert forall|q: int| 0 <= q < o2.len() implies #[trigger] from_first_of_key(input, i + 1, o2, q) by {
        if q == p {
            assert(input[i] == o2[q]);
        } else if q < p {
            assert(from_first_of_key(input, i, out, q));
            assert(o2[q] == out[q]);
            let j = choose|j: int| 0 <= j < i && #[trigger] input[j] == out[q] && first_of_its_key(input, j);
            assert(input[j] == o2[q]);
        } else {
            assert(from_first_of_key(input, i, out, q - 1));
            assert(o2[q] == out[q - 1]);
            let j = choose|j: int| 0 <= j < i && #[trigger] input[j] == out[q - 1] && first_of_its_key(input, j);
            assert(input[j] == o2[q]);
        }
    }
    assert forall|j: int| 0 <= j < i + 1 implies #[trigger] key_kept(input, o2, j) by {
        if j == i {
            assert(o2[p] == input[i]);
        } else {
            assert(key_kept(input, out, j));
            let q = choose|q: int| 0 <= q < out.len() && lowercase_of(#[trigger] out[q]) == lowercase_of(input[j]);
            if q < p {
                assert(o2[q] == out[q]);
            } else {
                assert(o2[q + 1] == out[q]);
            }
        }
    }
}

/// One step of `normalize_mentions` on a mention whose lower-case form is
/// already there at `p`: nothing changes.
proof fn lemma_step_known(input: Seq<Seq<char>>, i: int, out: Seq<Seq<char>>, p: int)
    requires
        0 <= i < input.len(),
        normalized_upto(input, i, out),
        0 <= p < out.len(),
        keys_of(out)[p] == lowercase_of(input[i]),
    ensures
        normalized_upto(input, i + 1, out),
{
    assert forall|q: int| 0 <= q < out.len() implies #[trigger] from_first_of_key(input, i + 1, out, q) by {
        assert(from_first_of_key(input, i, out, q));
        let j = choose|j: int| 0 <= j < i && #[trigger] input[j] == out[q] && first_of_its_key(input, j);
    }
    assert forall|j: int| 0 <= j < i + 1 implies #[trigger] key_kept(input, out, j) by {
        if j == i {
            assert(lowercase_of(out[p]) == lowercase_of(input[j]));
        } else {
            assert(key_kept(input, out, j));
        }
    }
}

/// The games to notify for a message: its mentions sorted by lower-case
/// form, keeping the first of those equal but for case.
pub fn normalize_mentions(mentions: &Vec<String>) -> (r: Vec<String>)
    ensures
        normalized(string_views(mentions@), string_views(r@)),
{
    let ghost input = string_views(mentions@);
    let mut out: Vec<String> = Vec::new();
    let mut keys: Vec<Vec<char>> = Vec::new();
    let n = mentions.len();
    proof {
        assert(keys_of(string_views(out@)) =~= Seq::<Seq<char>>::empty());
    }
    for i in 0..n
        invariant
            n == mentions@.len(),
            input == string_views(mentions@),
            char_views(keys@) == keys_of(string_views(out@)),
            normalized_upto(input, i as int, string_views(out@)),
    {
        let low = to_lowercase(mentions[i].as_str());
        let k = chars_of(low.as_str());
        assert(input[i as int] == mentions@[i as int]@);
        let ghost o = string_views(out@);
        let (p, found) = locate_key(&keys, &k);
        assert(keys@.len() == char_views(keys@).len());
        assert(out@.len() == string_views(out@).len());
        if found {
            proof {
                lemma_step_known(input, i as int, o, p as int);
            }
        } else {
            let ghost old_keys = keys@;
            out.insert(p, owned(mentions[i].as_str()));
            keys.insert(p, k);
            proof {
                lemma_step_new(input, i as int, o, p as int);
                assert(string_views(out@) =~= o.insert(p as int, input[i as int]));
                assert(char_views(keys@) =~= char_views(old_keys).insert(p as int, k@));
                assert(keys_of(string_views(out@)) =~= keys_of(o).insert(p as int, k@));
            }
        }
    }
    out
}

/// No game is notified twice for a message: no two notified mentions are
/// equal but for case.
pub proof fn law_each_game_notified_once(input: Seq<Seq<char>>, out: Seq<Seq<char>>, a: int, b: int)
    requires
        normalized(input, out),
        0 <= a < out.len(),
        0 <= b < out.len(),
        a != b,
    ensures
        lowercase_of(out[a]) != lowercase_of(out[b]),
{
    let ks = keys_of(out);
    assert(ks[a] == lowercase_of(out[a]) && ks[b] == lowercase_of(out[b]));
    if a < b {
        assert(lex_lt(ks[a], ks[b]));
        lemma_lex_irreflexive(ks[a]);
    } else {
        assert(lex_lt(ks[b], ks[a]));
        lemma_lex_irreflexive(ks[b]);
    }
}


// ───────────────────────── laws of the routing ─────────────────────────

/// The command and sub-command names of each routed sub-command.
pub open spec fn command_path(c: GameCommand) -> (Seq<char>, Seq<char>) {
    match c {
        GameCommand::Create => ("game-admin"@, "create"@),
        GameCommand::Delete => ("game-admin"@, "delete"@),
        GameCommand::Panel => ("game-admin"@, "panel"@),
        GameCommand::Refresh => ("game-admin"@, "refresh"@),
        GameCommand::List => ("game"@, "list"@),
        GameCommand::Join => ("game"@, "join"@),
        GameCommand::Leave => ("game"@, "leave"@),
        GameCommand::MyGames => ("game"@, "my-games"@),
        GameCommand::Players => ("game"@, "players"@),
        GameCommand::Unknown => (Seq::empty(), Seq::empty()),
    }
}

/// Routing names what was asked: a routed sub-command is the one whose
/// command and sub-command names were given, and each sub-command is
/// reached by its own names.
pub proof fn law_route_names_the_sub_command(top: Seq<char>, sub: Seq<char>, c: GameCommand)
    ensures
        route_spec(top, sub) != GameCommand::Unknown ==> command_path(route_spec(top, sub)) == (top, sub),
        c != GameCommand::Unknown ==> route_spec(command_path(c).0, command_path(c).1) == c,
{
    reveal_strlit("game-admin");
    reveal_strlit("game");
    reveal_strlit("create");
    reveal_strlit("delete");
    reveal_strlit("panel");
    reveal_strlit("refresh");
    reveal_strlit("list");
    reveal_strlit("join");
    reveal_strlit("leave");
    reveal_strlit("my-games");
    reveal_strlit("players");
    assert("game"@.len() != "game-admin"@.len());
    assert("game"@ != "game-admin"@);
    assert("delete"@[0] != "create"@[0] && "panel"@[0] != "create"@[0] && "panel"@[0] != "delete"@[0]);
    assert("refresh"@[0] != "create"@[0] && "refresh"@[0] != "delete"@[0] && "refresh"@[0] != "panel"@[0]);
    assert("join"@[0] != "list"@[0] && "leave"@[1] != "list"@[1] && "leave"@[0] != "join"@[0]);
    assert("my-games"@[0] != "list"@[0] && "my-games"@[0] != "join"@[0] && "my-games"@[0] != "leave"@[0]);
    assert("players"@[0] != "list"@[0] && "players"@[0] != "join"@[0] && "players"@[0] != "leave"@[0]
        && "players"@[0] != "my-games"@[0]);
    assert("delete"@ != "create"@ && "panel"@ != "create"@ && "panel"@ != "delete"@);
    assert("refresh"@ != "create"@ && "refresh"@ != "delete"@ && "refresh"@ != "panel"@);
    assert("join"@ != "list"@ && "leave"@ != "list"@ && "leave"@ != "join"@);
    assert("my-games"@ != "list"@ && "my-games"@ != "join"@ && "my-games"@ != "leave"@);
    assert("players"@ != "list"@ && "players"@ != "join"@ && "players"@ != "leave"@ && "players"@ != "my-games"@);
}

} // verus!
