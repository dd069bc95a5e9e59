use sentinel_bot::help::{help_tips, HelpFacts, SeasonTheme};

fn theme() -> SeasonTheme {
    SeasonTheme { emoji: "\u{1f3b2}".to_string(), label: "Casino".to_string(), tagline: "Tout se joue".to_string() }
}

fn veteran() -> HelpFacts {
    HelpFacts {
        hp_current: Some(80),
        hp_max: Some(100),
        stat_points: 0,
        class: Some("bourrin".to_string()),
        total_wins: 3,
        total_losses: 1,
        total_draws: 0,
        coins: 500,
    }
}

#[test]
fn settled_player_gets_the_four_standing_tips() {
    let tips = help_tips(&veteran(), &theme());
    let names: Vec<&str> = tips.iter().map(|t| t.name.as_str()).collect();
    assert_eq!(
        names,
        vec!["\u{1faaf} Roue du destin", "\u{1f3e6} Cagnotte serveur", "\u{1f4cb} Ton profil", "\u{1f3ad} Saison en cours"]
    );
    assert_eq!(tips[3].value, "\u{1f3b2} **Casino** — Tout se joue");
}

#[test]
fn new_player_tips_are_cut_at_six_by_priority() {
    let f = HelpFacts {
        hp_current: Some(20),
        hp_max: Some(100),
        stat_points: 2,
        class: None,
        total_wins: 0,
        total_losses: 0,
        total_draws: 0,
        coins: 50,
    };
    let tips = help_tips(&f, &theme());
    assert_eq!(tips.len(), 6);
    assert_eq!(tips[0].name, "\u{2764}\u{fe0f} HP bas");
    assert_eq!(
        tips[0].value,
        "Tu es a **20/100 HP**. Tape `/repos` pour recuperer ou utilise une `/potion` si tu en as une."
    );
    assert_eq!(tips[1].value, "Tu as **2** points non depenses. Tape `/train` pour les placer en ATK ou DEF.");
    assert_eq!(tips[2].name, "\u{2694}\u{fe0f} Choisis ta classe");
    assert_eq!(tips[3].name, "\u{1f44a} Premier combat");
    assert_eq!(tips[4].name, "\u{1f4b8} Solde tres bas");
    assert_eq!(tips[5].name, "\u{1faaf} Roue du destin");
}

#[test]
fn quarter_hp_is_not_low_and_empty_class_counts_as_none() {
    let mut f = veteran();
    f.hp_current = Some(25);
    f.class = Some(String::new());
    let tips = help_tips(&f, &theme());
    assert_eq!(tips[0].name, "\u{2694}\u{fe0f} Choisis ta classe");
    assert_eq!(tips.len(), 5);
}
