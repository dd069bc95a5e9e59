use sentinel_bot::profile::{
    inventory_field, InventoryEntry, ItemLabel,
    check_reset, curse_field, effective_stat, insurance_field, prestige_bonus_percent, prestige_gate,
    remaining_text, rest_decision, rest_done_text, rest_wait_text, ultimate_status, xp_display, ResetRefusal,
    RestOutcome,
};

#[test]
fn remaining_durations() {
    assert_eq!(remaining_text(2 * 86400 + 5 * 3600 + 30), "2j 5h");
    assert_eq!(remaining_text(3 * 3600 + 125), "3h 2m");
    assert_eq!(remaining_text(125), "2m");
    assert_eq!(remaining_text(59), "<1m");
    assert_eq!(remaining_text(-500), "<1m");
    assert_eq!(insurance_field("2j 5h"), "\u{1f6e1}\u{fe0f} Active \u{2014} expire dans **2j 5h**");
}

#[test]
fn curse_fields() {
    let (n, t) = curse_field("pancarte", "P", "", "9", "1h 0m");
    assert_eq!(n, "P Rival officiel");
    assert_eq!(t, "Sous le nez de tout le monde : **Rival officiel de <@9>**\nExpire dans **1h 0m**.");
    let (n, _) = curse_field("graisser", "G", "", "9", "1m");
    assert_eq!(n, "G Armes graissees");
    let (n, t) = curse_field("chicken", "C", "Poulet", "9", "3m");
    assert_eq!(n, "C Malediction");
    assert_eq!(t, "**Poulet** \u{2014} pose par <@9>\nExpire dans **3m** (lever : 600c)");
}

#[test]
fn stats_and_xp() {
    assert_eq!(effective_stat(10, 2, 5, 3), 21);
    assert_eq!(xp_display(50, 50, 10, 20), "MAX");
    assert_eq!(xp_display(4, 50, 10, 20), "10 / 20");
}

#[test]
fn rest_outcomes() {
    assert_eq!(rest_decision(12, Some(60), Some(10), Some(100)), RestOutcome::Cooldown { hours: 11, minutes: 0 });
    assert_eq!(rest_decision(12, Some(700), Some(10), Some(100)), RestOutcome::Cooldown { hours: 0, minutes: 20 });
    assert_eq!(rest_decision(12, Some(720), Some(10), Some(100)), RestOutcome::Healed { healed: 90, hp_max: 100 });
    assert_eq!(rest_decision(12, None, None, Some(80)), RestOutcome::AlreadyFull);
    assert_eq!(rest_decision(8, None, Some(30), None), RestOutcome::Healed { healed: 70, hp_max: 100 });
    assert_eq!(rest_wait_text(1, 5), "Tu dois encore te reposer **1h5m** avant de pouvoir utiliser `/repos` !");
    assert_eq!(
        rest_done_text("7", 70, 100, 12),
        "<@7> se repose et recupere **+70 HP** !\n\n\u{2764}\u{fe0f} **100/100** HP\n\n_Prochain repos disponible dans 12 heures._"
    );
}

#[test]
fn gates() {
    assert_eq!(check_reset(0, 0, 1000, 300), Err(ResetRefusal::NothingToReset));
    assert_eq!(check_reset(2, 1, 100, 300), Err(ResetRefusal::TooExpensive { cost: 300, coins: 100 }));
    assert_eq!(check_reset(2, 1, 300, 300), Ok(3));
    assert_eq!(
        prestige_gate(20),
        Some("Tu dois etre niveau **25+** pour Prestige (tu es niveau 20).".to_string())
    );
    assert_eq!(prestige_gate(25), None);
    assert_eq!(prestige_bonus_percent(3), 15);
    assert_eq!(ultimate_status(12, 10), "\u{2705} **Debloque** (niveau 12)");
    assert_eq!(ultimate_status(3, 10), "\u{1f512} Verrouille \u{2014} debloque au niveau 10 (tu es niveau 3)");
}

fn entry(key: &str, quantity: i64, label: Option<(&str, &str)>) -> InventoryEntry {
    InventoryEntry {
        item_key: key.to_string(),
        quantity,
        label: label.map(|(e, n)| ItemLabel { emoji: e.to_string(), name: n.to_string() }),
    }
}

#[test]
fn inventory_sorted_by_key_without_empty_stacks() {
    let items = vec![
        entry("sword", 2, Some(("\u{2694}", "Epee"))),
        entry("apple", 0, Some(("\u{1f34e}", "Pomme"))),
        entry("bomb", 1, None),
    ];
    assert_eq!(inventory_field(&items), "\u{2753} bomb x1\n\u{2694} **Epee** x2");
}

#[test]
fn inventory_with_nothing_held() {
    assert_eq!(inventory_field(&vec![]), "_Aucun objet_");
    assert_eq!(inventory_field(&vec![entry("bomb", 0, None)]), "_Aucun objet_");
}

#[test]
fn inventory_equal_keys_keep_their_order() {
    let items = vec![entry("gem", 1, Some(("\u{1f48e}", "Gemme"))), entry("gem", 3, None), entry("axe", 1, None)];
    assert_eq!(inventory_field(&items), "\u{2753} axe x1\n\u{1f48e} **Gemme** x1\n\u{2753} gem x3");
}
