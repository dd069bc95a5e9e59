use sentinel_bot::config::ConfigMap;
use sentinel_bot::slot::{error_card, spin_card, 
    default_bet, humanize_api_error, may_close_channel, net_text, outcome_title, slot_category, slot_channel_name,
    slot_channel_topic, spin_footer, spin_outcome, symbols_line, SpinOutcome,
};

#[test]
fn loss_embed_contains_perdu_label() {
    let (title, _) = outcome_title(spin_outcome(0, 50, false));
    assert!(title.contains("Perdu"));
}

#[test]
fn jackpot_embed_contains_jackpot_label() {
    let (title, _) = outcome_title(spin_outcome(100_000, 100, true));
    assert!(title.contains("JACKPOT"));
}

#[test]
fn refund_embed_contains_refund_label() {
    let (title, _) = outcome_title(spin_outcome(50, 50, false));
    assert!(title.contains("mise rendue") || title.contains("identiques"));
}

#[test]
fn embed_shows_net_negative_on_loss() {
    assert!(net_text(0, 50).contains("-50"));
}

#[test]
fn embed_shows_net_positive_on_win() {
    assert!(net_text(1200, 100).contains("+1100"));
}

#[test]
fn outcomes_and_colors() {
    assert_eq!(spin_outcome(1200, 100, false), SpinOutcome::Win);
    assert_eq!(spin_outcome(0, 0, false), SpinOutcome::Loss);
    assert_eq!(outcome_title(SpinOutcome::Win).1, 0x2ecc71);
    assert_eq!(net_text(50, 50), "+0");
    assert_eq!(spin_footer(1000, "Alice", true), "Pool jackpot reset a 1000 coins. Alice");
    assert_eq!(spin_footer(1010, "Alice", false), "Pool jackpot actuel : 1010 coins | Alice");
}

#[test]
fn api_errors_humanized() {
    assert_eq!(humanize_api_error("HTTP 429: {\"error\":\"Cooldown actif 5s\"}"), "Cooldown actif 5s");
    assert_eq!(humanize_api_error("Mise hors borne (10-500)"), "Mise hors borne (10-500)");
    assert_eq!(humanize_api_error("x Solde insuffisant"), "Solde insuffisant pour cette mise.");
    assert_eq!(humanize_api_error("boom"), "Erreur lors du spin. Reessaie dans quelques instants.");
}

#[test]
fn default_bets() {
    assert_eq!(default_bet(None), 50);
    assert_eq!(default_bet(Some(&ConfigMap::new())), 50);
    let m = ConfigMap::from_pairs(vec![("default_bet".to_string(), "-20".to_string())]);
    assert_eq!(default_bet(Some(&m)), -20);
    let m = ConfigMap::from_pairs(vec![("default_bet".to_string(), "abc".to_string())]);
    assert_eq!(default_bet(Some(&m)), 50);
}

#[test]
fn private_channel() {
    assert_eq!(slot_channel_name("AliceWonderland_Extra"), "slot-alicewonderland");
    assert_eq!(slot_channel_name("BOB"), "slot-bob");
    assert_eq!(slot_channel_topic(42), "[slot:42]");
    let m = ConfigMap::from_pairs(vec![("slot_category_id".to_string(), "99".to_string())]);
    assert_eq!(slot_category(&m), Some(99));
    assert_eq!(slot_category(&ConfigMap::new()), None);
    assert!(may_close_channel(Some(1), 1, false, false));
    assert!(may_close_channel(Some(1), 2, true, false));
    assert!(may_close_channel(None, 2, false, true));
    assert!(!may_close_channel(Some(1), 2, false, false));
}

#[test]
fn reels_line() {
    let syms = vec!["a".to_string(), "b".to_string(), "c".to_string()];
    assert_eq!(symbols_line(&syms), "# a \u{2003} b \u{2003} c");
    assert_eq!(symbols_line(&vec![]), "# ");
}

#[test]
fn spin_card_of_a_free_daily_loss() {
    let symbols = vec!["🍒".to_string(), "🍋".to_string(), "🍊".to_string()];
    let c = spin_card(&symbols, 50, 0, 950, false, true, 12000, "bob");
    assert_eq!(c.title, "\u{1f614} Perdu");
    assert_eq!(c.color, 0x95a5a6);
    assert_eq!(c.description, "# 🍒 \u{2003} 🍋 \u{2003} 🍊");
    let fields: Vec<(&str, &str)> = c.fields.iter().map(|f| (f.name.as_str(), f.value.as_str())).collect();
    assert_eq!(
        fields,
        vec![
            ("Mise", "50 coins"),
            ("Payout", "0 coins"),
            ("Solde", "950 coins"),
            ("Net", "-50 coins"),
            ("Type", "\u{1f381} Daily bonus (gratuit)"),
        ]
    );
    assert_eq!(c.footer, "Pool jackpot actuel : 12000 coins | bob");
}

#[test]
fn spin_card_of_a_jackpot_and_the_error_card() {
    let symbols = vec!["7️⃣".to_string(); 3];
    let c = spin_card(&symbols, 100, 5000, 9000, true, false, 1000, "ann");
    assert_eq!(c.title, "\u{1f3b0} JACKPOT \u{1f3b0}");
    assert_eq!(c.fields.len(), 4);
    assert_eq!(c.fields[3].value, "+4900 coins");
    assert_eq!(c.footer, "Pool jackpot reset a 1000 coins. ann");
    assert_eq!(error_card("Mise trop haute"), ("\u{1f3b0} Slot".to_string(), "Mise trop haute".to_string(), 0xed4245));
}
