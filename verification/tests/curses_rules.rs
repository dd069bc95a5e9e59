use sentinel_bot::curses::{
    boost_item_label, curse_cast_text, curse_error_text, friendly_title, friendly_xp_line, sabotage_effect,
    target_gate, target_refusal_text, TargetRefusal,
};

#[test]
fn target_gates() {
    assert_eq!(target_gate(1, 1, false), Some(TargetRefusal::Yourself));
    assert_eq!(target_gate(1, 2, true), Some(TargetRefusal::Bot));
    assert_eq!(target_gate(1, 2, false), None);
    assert_eq!(target_refusal_text(TargetRefusal::Bot, true), "Pas de sabotage contre un bot !");
    assert_eq!(target_refusal_text(TargetRefusal::Yourself, false), "Tu ne peux pas te maudire toi-meme !");
}

#[test]
fn curse_errors() {
    assert_eq!(curse_error_text("curse deja active", false), "Cette cible a deja une malediction active. Attends qu elle expire.");
    assert_eq!(curse_error_text("SOLDE trop bas", true), "Pas assez de coins (150c minimum).");
    assert_eq!(curse_error_text("Insufficient funds", false), "Pas assez de coins (300c minimum).");
    assert_eq!(curse_error_text("pas toi-meme", false), "Tu ne peux pas te maudire toi-meme !");
    assert_eq!(curse_error_text("pas toi-meme", true), "Erreur API : pas toi-meme");
}

#[test]
fn curse_and_sabotage_texts() {
    assert_eq!(
        curse_cast_text(1, 2, "Poulet", 300),
        "<@1> a maudit <@2> avec **Poulet** !\n\nDuree : 24h. Cout : 300c.\nLa cible peut lever en payant 600c via `/profil`."
    );
    assert_eq!(sabotage_effect("zzz", 2, 1), "Effet inconnu sur <@2>.");
    assert!(sabotage_effect("pancarte", 2, 1).contains("Rival officiel de <@1>"));
}

#[test]
fn boosts_and_friendly_duels() {
    assert_eq!(boost_item_label("fumigene"), Some("\u{1f4a8} Fumigene (+20 au roll)"));
    assert_eq!(boost_item_label("bazooka"), None);
    assert_eq!(friendly_title(true, &None, "1", "2"), "\u{1f91d} Duel amical \u{2014} Egalite");
    assert_eq!(friendly_title(false, &Some("2".to_string()), "1", "2"), "\u{1f3c6} Duel amical \u{2014} Victoire de <@2>");
    assert_eq!(friendly_title(false, &Some("3".to_string()), "1", "2"), "\u{1f91d} Duel amical");
    assert_eq!(friendly_xp_line(false, 10, 3), "\u{2b06}\u{fe0f} +10 XP pour le gagnant, +3 XP pour le perdant");
    assert_eq!(friendly_xp_line(true, 10, 3), "\u{2b06}\u{fe0f} +3 XP pour les deux (egalite)");
}
