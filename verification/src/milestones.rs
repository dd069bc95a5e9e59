//! Permanent level milestones of the game (levels 5, 10, 15, 20, 25) and
//! the rest cooldown they shorten.

use vstd::prelude::*;
use crate::text::{int_text, join_spec, push_i64, push_str};

verus! {

/// A milestone unlocked at a given level.
#[derive(Clone, Copy, Debug)]
pub struct Milestone {
    pub level: i32,
    pub key: &'static str,
    pub label: &'static str,
    pub emoji: &'static str,
    pub description: &'static str,
    /// Whether the milestone's effect is wired into the game already.
    pub mechanical_implemented: bool,
}

/// Level from which the rest cooldown is shortened.
pub const REPOS_COOLDOWN_MILESTONE_LEVEL: i32 = 15;
/// Shortened rest cooldown, in hours.
pub const REPOS_COOLDOWN_REDUCED_HOURS: i64 = 8;

/// Rest cooldown of a player: the configured `base_hours`, lowered to
/// `REPOS_COOLDOWN_REDUCED_HOURS` once the player reaches the milestone.
pub open spec fn effective_repos_spec(base_hours: int, level: int) -> int {
    if level >= 15 && base_hours > 8 {
        8
    } else {
        base_hours
    }
}

/// Effective rest cooldown for a player of `level` in a guild configured
/// with `base_hours`.
pub fn effective_repos_cooldown_hours(base_hours: i64, level: i32) -> (r: i64)
    ensures
        r == effective_repos_spec(base_hours as int, level as int),
{
    if level >= REPOS_COOLDOWN_MILESTONE_LEVEL && base_hours > REPOS_COOLDOWN_REDUCED_HOURS {
        REPOS_COOLDOWN_REDUCED_HOURS
    } else {
        base_hours
    }
}

/// The milestones, by increasing level.
pub open spec fn milestones_spec() -> Seq<Milestone> {
    seq![
        Milestone {
            level: 5,
            key: "extra_insurance_slot",
            label: "Coffre renforce",
            emoji: "\u{1f6e1}\u{fe0f}",
            description: "+1 emplacement d assurance (cumul de 2 actives au lieu de 1).",
            mechanical_implemented: false,
        },
        Milestone {
            level: 10,
            key: "class_ultimate",
            label: "Ultime de classe",
            emoji: "\u{2b50}",
            description: "Debloque l ultime specifique a ta classe (cf. roadmap 3.1).",
            mechanical_implemented: false,
        },
        Milestone {
            level: 15,
            key: "repos_short_cooldown",
            label: "Convalescence",
            emoji: "\u{1f6cf}\u{fe0f}",
            description: "Cooldown /repos reduit a 8h (au lieu de 12h).",
            mechanical_implemented: true,
        },
        Milestone {
            level: 20,
            key: "riposte_first",
            label: "Riposte fulgurante",
            emoji: "\u{26a1}",
            description: "Priorite de riposte au round 1 quand tu te fais attaquer par un joueur de niveau inferieur.",
            mechanical_implemented: true,
        },
        Milestone {
            level: 25,
            key: "prestige_unlock",
            label: "Acces au Prestige",
            emoji: "\u{1f451}",
            description: "Tu peux activer le Prestige (cf. roadmap 3.3) pour te relancer.",
            mechanical_implemented: false,
        },
    ]
}

/// The milestones, by increasing level.
pub fn milestones() -> (v: Vec<Milestone>)
    ensures
        v@ == milestones_spec(),
{
    let v = vec![
        Milestone {
            level: 5,
            key: "extra_insurance_slot",
            label: "Coffre renforce",
            emoji: "\u{1f6e1}\u{fe0f}",
            description: "+1 emplacement d assurance (cumul de 2 actives au lieu de 1).",
            mechanical_implemented: false,
        },
        Milestone {
            level: 10,
            key: "class_ultimate",
            label: "Ultime de classe",
            emoji: "\u{2b50}",
            description: "Debloque l ultime specifique a ta classe (cf. roadmap 3.1).",
            mechanical_implemented: false,
        },
        Milestone {
            level: 15,
            key: "repos_short_cooldown",
            label: "Convalescence",
            emoji: "\u{1f6cf}\u{fe0f}",
            description: "Cooldown /repos reduit a 8h (au lieu de 12h).",
            mechanical_implemented: true,
        },
        Milestone {
            level: 20,
            key: "riposte_first",
            label: "Riposte fulgurante",
            emoji: "\u{26a1}",
            description: "Priorite de riposte au round 1 quand tu te fais attaquer par un joueur de niveau inferieur.",
            mechanical_implemented: true,
        },
        Milestone {
            level: 25,
            key: "prestige_unlock",
            label: "Acces au Prestige",
            emoji: "\u{1f451}",
            description: "Tu peux activer le Prestige (cf. roadmap 3.3) pour te relancer.",
            mechanical_implemented: false,
        },
    ];
    assert(v@ =~= milestones_spec());
    v
}

/// Milestones reached at `level`.
pub open spec fn unlocked_spec(level: int) -> Seq<Milestone> {
    milestones_spec().filter(|m: Milestone| level >= m.level)
}

/// First milestone strictly above `level`, if any.
pub open spec fn next_spec(level: int) -> Option<Milestone> {
    if level < 5 {
        Some(milestones_spec()[0])
    } else if level < 10 {
        Some(milestones_spec()[1])
    } else if level < 15 {
        Some(milestones_spec()[2])
    } else if level < 20 {
        Some(milestones_spec()[3])
    } else if level < 25 {
        Some(milestones_spec()[4])
    } else {
        None
    }
}

/// Milestones reached by a player of `level`, by increasing level.
pub fn unlocked_for(level: i32) -> (r: Vec<Milestone>)
    ensures
        r@ == unlocked_spec(level as int),
{
    let all = milestones();
    let mut r: Vec<Milestone> = Vec::new();
    let n = all.len();
    for i in 0..n
        invariant
            n == all@.len(),
            all@ == milestones_spec(),
            r@ == all@.take(i as int).filter(|m: Milestone| level >= m.level),
    {
        let m = all[i];
        if level >= m.level {
            r.push(m);
        }
        proof {
            let f = |m: Milestone| level >= m.level;
            assert(all@.take(i + 1).drop_last() =~= all@.take(i as int));
            reveal_with_fuel(Seq::filter, 1);
        }
    }
    assert(all@.take(n as int) =~= all@);
    r
}

/// First milestone above `level`; `None` once every milestone is reached.
pub fn next_for(level: i32) -> (r: Option<Milestone>)
    ensures
        r == next_spec(level as int),
{
    let all = milestones();
    let n = all.len();
    for i in 0..n
        invariant
            n == all@.len(),
            all@ == milestones_spec(),
            forall|j: int| 0 <= j < i ==> all@[j].level <= level,
    {
        if all[i].level > level {
            return Some(all[i]);
        }
    }
    None
}

/// Line shown for one reached milestone: emoji and bold label.
pub open spec fn milestone_item(m: Milestone) -> Seq<char> {
    m.emoji@ + " **"@ + m.label@ + "**"@
}

/// First paragraph of the profile section.
pub open spec fn unlocked_line_spec(level: int) -> Seq<char> {
    let u = unlocked_spec(level);
    if u.len() == 0 {
        "_Aucun palier debloque pour l instant._"@
    } else {
        join_spec(u.map_values(|m: Milestone| milestone_item(m)), " \u{b7} "@)
    }
}

/// Milestone section of a profile: reached milestones, then the next one
/// or a note that all are reached.
pub open spec fn profile_section_spec(level: int) -> Seq<char> {
    match next_spec(level) {
        Some(m) => unlocked_line_spec(level) + "\n\n\u{1f3af} Prochain : niveau **"@ + int_text(m.level as int)
            + "** -> "@ + m.emoji@ + " "@ + m.label@ + " ("@ + m.description@ + ")"@,
        None => unlocked_line_spec(level) + "\n\n\u{1f3c6} Tous les paliers debloques !"@,
    }
}

/// Milestone section of `/profil` for a player of `level`.
pub fn format_profile_section(level: i32) -> (s: String)
    ensures
        s@ == profile_section_spec(level as int),
{
    let unlocked = unlocked_for(level);
    let next = next_for(level);
    let mut s = String::new();
    if unlocked.len() == 0 {
        push_str(&mut s, "_Aucun palier debloque pour l instant._");
    } else {
        let n = unlocked.len();
        let ghost items = unlocked@.map_values(|m: Milestone| milestone_item(m));
        for i in 0..n
            invariant
                n == unlocked@.len(),
                n > 0,
                items == unlocked@.map_values(|m: Milestone| milestone_item(m)),
                i == 0 ==> s@ == Seq::<char>::empty(),
                i > 0 ==> s@ == join_spec(items.take(i as int), " \u{b7} "@),
        {
            let m = unlocked[i];
            if i > 0 {
                push_str(&mut s, " \u{b7} ");
            }
            push_str(&mut s, m.emoji);
            push_str(&mut s, " **");
            push_str(&mut s, m.label);
            push_str(&mut s, "**");
            proof {
                let t = items.take(i + 1);
                assert(t.drop_last() =~= items.take(i as int));
                assert(t.last() == milestone_item(m));
                if i == 0 {
                    assert(t.len() == 1);
                    assert(s@ =~= milestone_item(m));
                } else {
                    assert(s@ =~= join_spec(items.take(i as int), " \u{b7} "@) + " \u{b7} "@ + milestone_item(m));
                }
            }
        }
        assert(items.take(n as int) =~= items);
    }
    assert(s@ == unlocked_line_spec(level as int));
    match next {
        Some(m) => {
            push_str(&mut s, "\n\n\u{1f3af} Prochain : niveau **");
            push_i64(&mut s, m.level as i64);
            push_str(&mut s, "** -> ");
            push_str(&mut s, m.emoji);
            push_str(&mut s, " ");
            push_str(&mut s, m.label);
            push_str(&mut s, " (");
            push_str(&mut s, m.description);
            push_str(&mut s, ")");
        },
        None => {
            push_str(&mut s, "\n\n\u{1f3c6} Tous les paliers debloques !");
        },
    }
    s
}

// ───────────────────────── laws ─────────────────────────

/// A milestone is reached at `level` exactly when its level is at most
/// `level`, and the next milestone is the lowest one not yet reached.
pub proof fn law_unlocked_and_next_partition(level: int)
    ensures
        forall|i: int| 0 <= i < milestones_spec().len() ==> (unlocked_spec(level).contains(
            #[trigger] milestones_spec()[i],
        ) <==> milestones_spec()[i].level <= level),
        match next_spec(level) {
            Some(m) => level < m.level && milestones_spec().contains(m) && forall|i: int|
                0 <= i < milestones_spec().len() && level < #[trigger] milestones_spec()[i].level ==> m.level
                    <= milestones_spec()[i].level,
            None => forall|i: int| 0 <= i < milestones_spec().len() ==> #[trigger] milestones_spec()[i].level <= level,
        },
{
    let ms = milestones_spec();
    let f = |m: Milestone| level >= m.level;
    reveal_with_fuel(Seq::filter, 6);
    assert(ms.take(5) =~= ms);
    assert(ms.take(0).filter(f) =~= Seq::<Milestone>::empty());
    assert forall|i: int| 0 <= i < ms.len() implies (unlocked_spec(level).contains(#[trigger] ms[i]) <==> ms[i].level
        <= level) by {
        if ms[i].level <= level {
            ms.lemma_filter_contains(f, i);
        }
        if unlocked_spec(level).contains(ms[i]) {
            let k = choose|k: int| 0 <= k < unlocked_spec(level).len() && unlocked_spec(level)[k] == ms[i];
            ms.lemma_filter_pred(f, k);
        }
    }
    if let Some(m) = next_spec(level) {
        assert(ms[0].level == 5 && ms[1].level == 10 && ms[2].level == 15 && ms[3].level == 20 && ms[4].level == 25);
        if level < 5 {
            assert(ms.contains(ms[0]));
        } else if level < 10 {
            assert(ms.contains(ms[1]));
        } else if level < 15 {
            assert(ms.contains(ms[2]));
        } else if level < 20 {
            assert(ms.contains(ms[3]));
        } else {
            assert(ms.contains(ms[4]));
        }
    }
}

/// Raising a level only adds milestones: what is reached at `l1` is a
/// prefix of what is reached at any `l2 >= l1`.
pub proof fn law_unlocked_monotone(l1: int, l2: int)
    requires
        l1 <= l2,
    ensures
        unlocked_spec(l1).len() <= unlocked_spec(l2).len(),
        unlocked_spec(l1) == unlocked_spec(l2).take(unlocked_spec(l1).len() as int),
{
    let ms = milestones_spec();
    reveal_with_fuel(Seq::filter, 6);
    assert(ms.take(5) =~= ms);
    assert(ms[0].level == 5 && ms[1].level == 10 && ms[2].level == 15 && ms[3].level == 20 && ms[4].level == 25);
    assert(ms.take(4) =~= ms.take(5).drop_last());
    assert(ms.take(3) =~= ms.take(4).drop_last());
    assert(ms.take(2) =~= ms.take(3).drop_last());
    assert(ms.take(1) =~= ms.take(2).drop_last());
    assert(ms.take(0) =~= ms.take(1).drop_last());
    let u1 = unlocked_spec(l1);
    let u2 = unlocked_spec(l2);
    assert(u1 =~= u2.take(u1.len() as int));
}

/// The rest cooldown never grows with the milestone: it is at most the
/// configured one, equal to it below level 15, and at most 8 hours from
/// level 15 on.
pub proof fn law_repos_cooldown_bounded(base_hours: int, level: int)
    ensures
        effective_repos_spec(base_hours, level) <= base_hours,
        level < 15 ==> effective_repos_spec(base_hours, level) == base_hours,
        level >= 15 ==> effective_repos_spec(base_hours, level) <= 8,
{
}

} // verus!
