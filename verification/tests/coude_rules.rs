use sentinel_bot::config::ConfigMap;
use sentinel_bot::coude::{
    all_or_nothing_intro, all_or_nothing_verdict,
    build_tiers, check_insurance, date_prefix, find_tier, format_heist, handles_command, handles_component,
    heist_description, heist_result_text, heist_texts, insurance_slots, insurance_total_cost, pick_random,
    HeistResult, InsuranceRefusal,
};
use sentinel_bot::guild_config::CoudeConfig;

fn cfg(pairs: &[(&str, &str)]) -> CoudeConfig {
    CoudeConfig::new(ConfigMap::from_pairs(pairs.iter().map(|(k, v)| (k.to_string(), v.to_string())).collect()))
}

#[test]
fn heist_placeholders_filled() {
    assert_eq!(
        format_heist("{user} vole {montant} ({chance}%) et {user} s'enfuit", "<@1>", 250, 35),
        "<@1> vole 250 (35%) et <@1> s'enfuit"
    );
    assert_eq!(format_heist("sans rien", "x", 1, 2), "sans rien");
    assert_eq!(format_heist("{montant}", "x", -5, 0), "-5");
}

#[test]
fn heist_placeholder_in_user_is_filled_later() {
    assert_eq!(format_heist("{user}", "{montant}", 7, 0), "7");
}

#[test]
fn twenty_texts_each_way() {
    assert_eq!(heist_texts(true).len(), 20);
    assert_eq!(heist_texts(false).len(), 20);
}

#[test]
fn pick_random_picks_a_member() {
    let msgs = vec!["a", "b", "c"];
    for _ in 0..20 {
        let m = pick_random(&msgs);
        assert!(msgs.contains(&m));
    }
}

#[test]
fn date_part_of_timestamps() {
    assert_eq!(date_prefix("2024-05-01T10:00:00Z"), "2024-05-01");
    assert_eq!(date_prefix("2024-05-01 10:00:00"), "2024-05-01");
    assert_eq!(date_prefix("2024-05-01"), "2024-05-01");
    assert_eq!(date_prefix(""), "");
}

#[test]
fn heist_success_text() {
    let r = HeistResult {
        success: true,
        amount_stolen: 300,
        chance_percent: 15,
        tools_consumed: 2,
        cashbox_total_before: 1000,
        prison_released_at: None,
    };
    assert_eq!(
        heist_description("Bravo", &r),
        "Bravo\n\n\u{1fa99} **+300 coins** empoches\n\u{1f3b2} Chance : **15 %**\n\u{1f6e0}\u{fe0f} 2 outils consommes\n\n_La caisse etait a 1000 coins avant le braquage._"
    );
}

#[test]
fn heist_failure_text() {
    let r = HeistResult {
        success: false,
        amount_stolen: 0,
        chance_percent: 5,
        tools_consumed: 0,
        cashbox_total_before: 1000,
        prison_released_at: Some("2024-05-02T08:00:00Z".to_string()),
    };
    assert_eq!(
        heist_description("Rate", &r),
        "Rate\n\n\u{1f3b2} Chance : **5 %**\n\u{1f6e0}\u{fe0f} Aucun outil utilise\n\u{26d3}\u{fe0f} **EN PRISON** jusqu'au **2024-05-02** \u{2014} aucune action de jeu possible !"
    );
}

#[test]
fn heist_result_uses_a_listed_text() {
    let r = HeistResult {
        success: true,
        amount_stolen: 42,
        chance_percent: 10,
        tools_consumed: 1,
        cashbox_total_before: 500,
        prison_released_at: None,
    };
    let s = heist_result_text("99", &r);
    let flavors: Vec<String> =
        heist_texts(true).iter().map(|t| format_heist(t, "<@99>", 42, 10)).collect();
    assert!(flavors.iter().any(|f| s == heist_description(f, &r)));
    assert!(s.contains("<@99>"));
}

#[test]
fn tiers_from_defaults_and_settings() {
    let t = build_tiers(&cfg(&[]));
    assert_eq!((t[0].key, t[0].label, t[0].duration_seconds, t[0].multiplier), ("day", "1 jour", 86400, 1));
    assert_eq!((t[1].key, t[1].label, t[1].duration_seconds, t[1].multiplier), ("week", "1 semaine", 604800, 6));
    assert_eq!((t[2].key, t[2].label, t[2].duration_seconds, t[2].multiplier), ("month", "1 mois", 2592000, 22));
    let t = build_tiers(&cfg(&[("assurance_tier_week_mult", "5"), ("assurance_tier_day_secs", "3600")]));
    assert_eq!(t[1].multiplier, 5);
    assert_eq!(t[0].duration_seconds, 3600);
    assert_eq!(find_tier(&t, "month"), Some(2));
    assert_eq!(find_tier(&t, "year"), None);
}

#[test]
fn insurance_price_saturates() {
    assert_eq!(insurance_total_cost(100, 6), 600);
    assert_eq!(insurance_total_cost(i64::MAX, 2), i64::MAX);
    assert_eq!(insurance_total_cost(i64::MIN, 2), i64::MIN);
    assert_eq!(insurance_total_cost(-3, 4), -12);
}

#[test]
fn insurance_checks() {
    let t = build_tiers(&cfg(&[]));
    assert_eq!(check_insurance(&t, &Some("week".to_string()), 100, 600, 1, false), Ok((1, 600)));
    assert_eq!(check_insurance(&t, &None, 100, 600, 1, false), Err(InsuranceRefusal::UnknownTier));
    assert_eq!(check_insurance(&t, &Some("x".to_string()), 100, 600, 1, false), Err(InsuranceRefusal::UnknownTier));
    assert_eq!(
        check_insurance(&t, &Some("month".to_string()), 100, 600, 1, false),
        Err(InsuranceRefusal::NotEnoughCoins { tier: 2, cost: 2200, coins: 600 })
    );
    assert_eq!(check_insurance(&t, &Some("day".to_string()), 100, 600, 4, true), Err(InsuranceRefusal::AlreadyInsured));
    assert_eq!(check_insurance(&t, &Some("day".to_string()), 100, 600, 5, true), Ok((0, 100)));
    assert_eq!(insurance_slots(4), 1);
    assert_eq!(insurance_slots(5), 2);
}

#[test]
fn routing_of_the_game_module() {
    assert!(handles_command("braquage"));
    assert!(!handles_command("travaux"));
    assert!(handles_component("coude_prec_no|1|2|-"));
    assert!(!handles_component("mod_unwarn:1"));
}

#[test]
fn all_or_nothing_intro_names_the_stake() {
    assert_eq!(
        all_or_nothing_intro("7", 500),
        "<@7> mise **500** coins (TOUT son wallet) sur un 50/50.\n\nPile : x2. Face : -80%.\n\u{23f3} Animation 10 secondes..."
    );
}

#[test]
fn all_or_nothing_win_and_loss() {
    let w = all_or_nothing_verdict("7", "won", 500, 500, 1000);
    assert_eq!(w.title, "\u{1f451} TOUT-OU-RIEN — VICTOIRE !");
    assert_eq!(w.color, 0xFFD700);
    assert_eq!(
        w.description,
        "<@7> a TOUT MISE et a GAGNE !\n\n\u{1f4b0} Mise : **500** coins\n\u{1f4c8} Gain : **+500** coins\n\u{1f9e7} Solde final : **1000** coins\n\nLe serveur s incline. \u{1f44f}"
    );
    let l = all_or_nothing_verdict("7", "lost", 500, -400, 100);
    assert_eq!(l.title, "\u{1faa6} TOUT-OU-RIEN — RUINE COSMIQUE");
    assert_eq!(l.color, 0xC0392B);
    assert_eq!(l.footer, "Tout-ou-rien · le destin t a craches dessus");
    assert!(l.description.contains("Perte : **400** coins (80%)"));
    assert!(l.description.ends_with("Bienvenue au **Memorial des clodos**. \u{1f47b}"));
}
