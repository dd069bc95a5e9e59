//! Class ultimates: one weekly special move per class, unlocked at a
//! level, and their one-line summary.

use vstd::prelude::*;
use crate::text::{int_text, push_i64, push_str, str_eq};

verus! {

/// The ultimate of one class.
#[derive(Clone, Copy, Debug)]
pub struct ClassUltimate {
    pub class_key: &'static str,
    pub name: &'static str,
    pub emoji: &'static str,
    pub label: &'static str,
    pub description: &'static str,
    /// Whether the ultimate's effect is wired into the game already.
    pub mechanical_implemented: bool,
    /// Days between two uses.
    pub cooldown_days: i64,
}

/// Level from which ultimates unlock by default.
pub const ULTIMATE_UNLOCK_LEVEL: i32 = 10;

/// The ultimates, one per class.
pub open spec fn ultimates_spec() -> Seq<ClassUltimate> {
    seq![
        ClassUltimate {
            class_key: "bourrin",
            name: "Bourrin",
            emoji: "\u{1f504}",
            label: "Echange de carcasses",
            description: "Swap ton HP courant avec celui de l adversaire AVANT le combat. Mourant a 5 HP ? Il herite de tes 5 HP et tu recuperes ses 180.",
            mechanical_implemented: true,
            cooldown_days: 7,
        },
        ClassUltimate {
            class_key: "agile",
            name: "Agile",
            emoji: "\u{1fa99}",
            label: "Pile ou face",
            description: "Combat instantanement resolu sur un 50/50 pur. Ignore classes, niveaux, items, HP, tout. Juste un coin flip.",
            mechanical_implemented: true,
            cooldown_days: 7,
        },
        ClassUltimate {
            class_key: "fourbe",
            name: "Fourbe",
            emoji: "\u{1f3c3}",
            label: "Le Fuyard",
            description: "Vol la mise AVANT le combat et te barre. Le defenseur recoit \u{ab} ton adversaire a fui avec la caisse \u{bb}. Cooldown 14 jours.",
            mechanical_implemented: true,
            cooldown_days: 14,
        },
        ClassUltimate {
            class_key: "tank",
            name: "Tank",
            emoji: "\u{1f9f1}",
            label: "Statue",
            description: "Aucun degat fait, aucun degat pris. Victoire automatique au bout de 10 rounds par forfait d ennui de l adversaire.",
            mechanical_implemented: true,
            cooldown_days: 7,
        },
    ]
}

/// The ultimates, one per class.
pub fn class_ultimates() -> (v: Vec<ClassUltimate>)
    ensures
        v@ == ultimates_spec(),
{
    let v = vec![
        ClassUltimate {
            class_key: "bourrin",
            name: "Bourrin",
            emoji: "\u{1f504}",
            label: "Echange de carcasses",
            description: "Swap ton HP courant avec celui de l adversaire AVANT le combat. Mourant a 5 HP ? Il herite de tes 5 HP et tu recuperes ses 180.",
            mechanical_implemented: true,
            cooldown_days: 7,
        },
        ClassUltimate {
            class_key: "agile",
            name: "Agile",
            emoji: "\u{1fa99}",
            label: "Pile ou face",
            description: "Combat instantanement resolu sur un 50/50 pur. Ignore classes, niveaux, items, HP, tout. Juste un coin flip.",
            mechanical_implemented: true,
            cooldown_days: 7,
        },
        ClassUltimate {
            class_key: "fourbe",
            name: "Fourbe",
            emoji: "\u{1f3c3}",
            label: "Le Fuyard",
            description: "Vol la mise AVANT le combat et te barre. Le defenseur recoit \u{ab} ton adversaire a fui avec la caisse \u{bb}. Cooldown 14 jours.",
            mechanical_implemented: true,
            cooldown_days: 14,
        },
        ClassUltimate {
            class_key: "tank",
            name: "Tank",
            emoji: "\u{1f9f1}",
            label: "Statue",
            description: "Aucun degat fait, aucun degat pris. Victoire automatique au bout de 10 rounds par forfait d ennui de l adversaire.",
            mechanical_implemented: true,
            cooldown_days: 7,
        },
    ];
    assert(v@ =~= ultimates_spec());
    v
}

/// Index of the first ultimate of class `key` in `us`, if any.
pub open spec fn find_class(us: Seq<ClassUltimate>, key: Seq<char>) -> Option<int> {
    if exists|i: int| 0 <= i < us.len() && (#[trigger] us[i]).class_key@ == key {
        Some(choose|i: int| 0 <= i < us.len() && us[i].class_key@ == key && forall|j: int|
            0 <= j < i ==> (#[trigger] us[j]).class_key@ != key)
    } else {
        None
    }
}

/// The ultimate of class `key`, if the class has one.
pub open spec fn ultimate_spec(key: Seq<char>) -> Option<ClassUltimate> {
    match find_class(ultimates_spec(), key) {
        Some(i) => Some(ultimates_spec()[i]),
        None => None,
    }
}

/// Looks an ultimate up by class key.
pub fn ultimate_for_class(class_key: &str) -> (r: Option<ClassUltimate>)
    ensures
        r == ultimate_spec(class_key@),
{
    let all = class_ultimates();
    let n = all.len();
    for i in 0..n
        invariant
            n == all@.len(),
            all@ == ultimates_spec(),
            forall|j: int| 0 <= j < i ==> (#[trigger] all@[j]).class_key@ != class_key@,
    {
        if str_eq(all[i].class_key, class_key) {
            proof {
                let us = ultimates_spec();
                assert(us[i as int].class_key@ == class_key@);
                let w = choose|k: int| 0 <= k < us.len() && us[k].class_key@ == class_key@ && forall|j: int|
                    0 <= j < k ==> (#[trigger] us[j]).class_key@ != class_key@;
                assert(0 <= w < us.len() && us[w].class_key@ == class_key@);
                if w < i {
                    assert(us[w].class_key@ != class_key@);
                }
                if w > i {
                    assert(us[i as int].class_key@ != class_key@);
                }
            }
            return Some(all[i]);
        }
    }
    None
}

/// One-line summary of a class ultimate for a player of `level` when the
/// guild unlocks ultimates at `unlock_level`.
pub open spec fn format_ultimate_spec(key: Seq<char>, level: int, unlock_level: int) -> Seq<char> {
    match ultimate_spec(key) {
        None => "_(pas d ultimate pour cette classe)_"@,
        Some(u) => if level < unlock_level {
            u.emoji@ + " **"@ + u.label@ + "** \u{2014} _Verrouille_ (debloque au niveau "@ + int_text(unlock_level)
                + ")"@
        } else {
            u.emoji@ + " **"@ + u.label@ + "** \u{2014} "@ + u.description@ + " _(cooldown "@ + int_text(
                u.cooldown_days as int,
            ) + " jours"@ + (if u.mechanical_implemented {
                ""@
            } else {
                ", effet a venir"@
            }) + ")_"@
        },
    }
}

/// Summary of the ultimate of class `class_key` for a player of `level`:
/// locked below `unlock_level`, described with its cooldown from there on.
pub fn format_ultimate_for_class(class_key: &str, level: i32, unlock_level: i32) -> (s: String)
    ensures
        s@ == format_ultimate_spec(class_key@, level as int, unlock_level as int),
{
    let mut s = String::new();
    match ultimate_for_class(class_key) {
        None => {
            push_str(&mut s, "_(pas d ultimate pour cette classe)_");
        },
        Some(u) => {
            push_str(&mut s, u.emoji);
            push_str(&mut s, " **");
            push_str(&mut s, u.label);
            if level < unlock_level {
                push_str(&mut s, "** \u{2014} _Verrouille_ (debloque au niveau ");
                push_i64(&mut s, unlock_level as i64);
                push_str(&mut s, ")");
            } else {
                push_str(&mut s, "** \u{2014} ");
                push_str(&mut s, u.description);
                push_str(&mut s, " _(cooldown ");
                push_i64(&mut s, u.cooldown_days);
                push_str(&mut s, " jours");
                if u.mechanical_implemented {
                    push_str(&mut s, "");
                } else {
                    push_str(&mut s, ", effet a venir");
                }
                push_str(&mut s, ")_");
            }
        },
    }
    s
}

/// Each class has exactly one ultimate: class keys are distinct, so the
/// lookup finds the ultimate at the key's position.
pub proof fn law_one_ultimate_per_class(i: int)
    requires
        0 <= i < ultimates_spec().len(),
    ensures
        ultimate_spec(ultimates_spec()[i].class_key@) == Some(ultimates_spec()[i]),
{
    let us = ultimates_spec();
    reveal_strlit("bourrin");
    reveal_strlit("agile");
    reveal_strlit("fourbe");
    reveal_strlit("tank");
    let key = us[i].class_key@;
    assert(us[0].class_key@.len() == 7);
    assert(us[1].class_key@.len() == 5);
    assert(us[2].class_key@.len() == 6);
    assert(us[3].class_key@.len() == 4);
    assert(us[0].class_key@ != us[1].class_key@);
    assert(us[0].class_key@ != us[2].class_key@);
    assert(us[0].class_key@ != us[3].class_key@);
    assert(us[1].class_key@ != us[2].class_key@);
    assert(us[1].class_key@ != us[3].class_key@);
    assert(us[2].class_key@ != us[3].class_key@);
    assert(exists|k: int| 0 <= k < us.len() && (#[trigger] us[k]).class_key@ == key);
    let w = choose|k: int| 0 <= k < us.len() && us[k].class_key@ == key && forall|j: int|
        0 <= j < k ==> (#[trigger] us[j]).class_key@ != key;
    assert(forall|j: int| 0 <= j < i ==> (#[trigger] us[j]).class_key@ != key);
    assert(w == i);
}

} // verus!
