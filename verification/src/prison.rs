//! Buttons and commands that a player in prison may not use.

use vstd::prelude::*;
use crate::coude::{coude_commands, coude_component_prefixes};
use crate::text::{has_prefix_in, is_one_of, is_prefix, starts_with_any, views};

verus! {

// ───────────────────────── prison ─────────────────────────

/// Buttons refused to a prisoner: confirming, accepting or defending in a
/// fight, and defending against a theft.
pub open spec fn blocked_button_prefixes() -> Seq<Seq<char>> {
    seq!["coude_prec_ok|"@, "coude_accept:"@, "coude_defend:"@, "coude_defend_select:"@, "steal_defend:"@]
}

/// Commands refused to a prisoner: those that spend or move coins or items.
pub open spec fn blocked_commands() -> Seq<Seq<char>> {
    seq![
        "coude"@,
        "voler"@,
        "pari"@,
        "prime"@,
        "potion"@,
        "shop"@,
        "protection"@,
        "boost-voleur"@,
        "train"@,
        "classe"@,
        "donner"@,
        "repos"@,
        "reset-stats"@,
        "braquage"@,
    ]
}

/// The button `custom_id` is refused to a player in prison.
pub fn is_button_blocked(custom_id: &str) -> (r: bool)
    ensures
        r == has_prefix_in(blocked_button_prefixes(), custom_id@),
{
    let list: Vec<&str> = vec!["coude_prec_ok|", "coude_accept:", "coude_defend:", "coude_defend_select:", "steal_defend:"];
    assert(views(list@) =~= blocked_button_prefixes());
    starts_with_any(&list, custom_id)
}

/// The command `cmd_name` is refused to a player in prison.
pub fn is_command_blocked(cmd_name: &str) -> (r: bool)
    ensures
        r == blocked_commands().contains(cmd_name@),
{
    let list: Vec<&str> = vec![
        "coude",
        "voler",
        "pari",
        "prime",
        "potion",
        "shop",
        "protection",
        "boost-voleur",
        "train",
        "classe",
        "donner",
        "repos",
        "reset-stats",
        "braquage",
    ];
    assert(views(list@) =~= blocked_commands());
    is_one_of(&list, cmd_name)
}

/// Every button refused to a prisoner is a button of the game module.
pub proof fn law_blocked_buttons_are_game_buttons(cid: Seq<char>)
    ensures
        has_prefix_in(blocked_button_prefixes(), cid) ==> has_prefix_in(coude_component_prefixes(), cid),
{
    if has_prefix_in(blocked_button_prefixes(), cid) {
        let b = blocked_button_prefixes();
        let c = coude_component_prefixes();
        let i = choose|i: int| 0 <= i < b.len() && is_prefix(#[trigger] b[i], cid);
        if i == 0 {
            assert(is_prefix(c[0], cid));
        } else if i == 1 {
            assert(is_prefix(c[2], cid));
        } else if i == 2 {
            assert(is_prefix(c[4], cid));
        } else if i == 3 {
            assert(is_prefix(c[3], cid));
        } else {
            assert(is_prefix(c[8], cid));
        }
    }
}

/// Every command refused to a prisoner is a command of the game module.
pub proof fn law_blocked_commands_are_game_commands(name: Seq<char>)
    ensures
        blocked_commands().contains(name) ==> coude_commands().contains(name),
{
    if blocked_commands().contains(name) {
        let b = blocked_commands();
        let c = coude_commands();
        let i = choose|i: int| 0 <= i < b.len() && b[i] == name;
        assert(b[0] == c[0] && b[1] == c[6] && b[2] == c[5] && b[3] == c[3] && b[4] == c[13] && b[5] == c[2]);
        assert(b[6] == c[18] && b[7] == c[19] && b[8] == c[8] && b[9] == c[9] && b[10] == c[10]);
        assert(b[11] == c[12] && b[12] == c[15] && b[13] == c[22]);
        if i == 0 { assert(c[0] == name); } else if i == 1 { assert(c[6] == name); } else if i == 2 { assert(c[5] == name); }
        else if i == 3 { assert(c[3] == name); } else if i == 4 { assert(c[13] == name); } else if i == 5 { assert(c[2] == name); }
        else if i == 6 { assert(c[18] == name); } else if i == 7 { assert(c[19] == name); } else if i == 8 { assert(c[8] == name); }
        else if i == 9 { assert(c[9] == name); } else if i == 10 { assert(c[10] == name); } else if i == 11 { assert(c[12] == name); }
        else if i == 12 { assert(c[15] == name); } else { assert(c[22] == name); }
    }
}

/// The refusal shown to a jailed player, with the release date when known
/// (the date part of the timestamp).
pub open spec fn prison_text_spec(released_at: Option<Seq<char>>) -> Seq<char> {
    "\u{26d3}\u{fe0f} **Tu es en prison"@ + (match released_at {
        Some(ts) => " jusqu'au **"@ + crate::coude::date_part(ts) + "**"@,
        None => Seq::empty(),
    }) + "** !\n\nAucune action de jeu n'est possible (ni combat, ni achat, ni vol, ni meme `/repos`). Attends ta liberation ou accepte ton sort."@
}

/// The message that refuses a game action to a jailed player.
pub fn prison_text(released_at: &Option<String>) -> (s: String)
    ensures
        s@ == prison_text_spec(
            match released_at {
                Some(x) => Some(x@),
                None => None,
            },
        ),
{
    let mut s = crate::text::owned("\u{26d3}\u{fe0f} **Tu es en prison");
    let mut until = String::new();
    match released_at {
        Some(ts) => {
            crate::text::push_str(&mut until, " jusqu'au **");
            let d = crate::coude::date_prefix(ts.as_str());
            crate::text::push_str(&mut until, d.as_str());
            crate::text::push_str(&mut until, "**");
        },
        None => {},
    }
    crate::text::push_str(&mut s, until.as_str());
    crate::text::push_str(
        &mut s,
        "** !\n\nAucune action de jeu n'est possible (ni combat, ni achat, ni vol, ni meme `/repos`). Attends ta liberation ou accepte ton sort.",
    );
    s
}

/// A command is refused when it is one of the blocked ones and the player
/// is in prison (an unreachable prison service counts as free).
pub fn command_refused_in_prison(cmd_name: &str, in_prison: bool) -> (r: bool)
    ensures
        r == (blocked_commands().contains(cmd_name@) && in_prison),
{
    is_command_blocked(cmd_name) && in_prison
}

/// A button is refused when it is one of the blocked ones and the player
/// is in prison.
pub fn button_refused_in_prison(custom_id: &str, in_prison: bool) -> (r: bool)
    ensures
        r == (has_prefix_in(blocked_button_prefixes(), custom_id@) && in_prison),
{
    is_button_blocked(custom_id) && in_prison
}

} // verus!
