use sentinel_bot::config::ConfigMap;
use sentinel_bot::guild_config::CoudeConfig;
use sentinel_bot::prank::{
    call_confirmation, check_prank, chore_body, chore_flavor, chore_task, chore_title, draw_chore, fake_heist_text,
    prank_kind, prank_refusal_text, scoop_text, travaux_wait, PrankKind, PrankRefusal,
};

fn cfg(pairs: &[(&str, &str)]) -> CoudeConfig {
    CoudeConfig::new(ConfigMap::from_pairs(pairs.iter().map(|(k, v)| (k.to_string(), v.to_string())).collect()))
}

#[test]
fn prank_checks() {
    let c = cfg(&[("prank_scoop_cost", "250")]);
    assert_eq!(prank_kind("appel"), Some(PrankKind::Appel));
    assert_eq!(check_prank(&c, "braquage", None, 100), Ok((PrankKind::Braquage, 100)));
    assert_eq!(check_prank(&c, "scoop", Some(false), 300), Ok((PrankKind::Scoop, 250)));
    assert_eq!(check_prank(&c, "scoop", None, 300), Err(PrankRefusal::NeedsTarget));
    assert_eq!(check_prank(&c, "appel", Some(true), 300), Err(PrankRefusal::BotTarget));
    assert_eq!(check_prank(&c, "appel", Some(false), 49), Err(PrankRefusal::NotEnoughCoins { cost: 50 }));
    assert_eq!(check_prank(&c, "costume", None, 1000), Err(PrankRefusal::UnknownKind));
    assert_eq!(prank_refusal_text(PrankRefusal::NotEnoughCoins { cost: 50 }), "Pas assez de coins ! Il te faut 50c.");
}

#[test]
fn prank_texts() {
    assert_eq!(
        fake_heist_text(1234),
        "**ALERTE !** Un braquage est en cours !\nLa cagnotte serveur affiche **1234 coins** !\n\nTout le monde sur le pont !!! \u{1f4b0}"
    );
    assert_eq!(scoop_text("{cible} a vu {cible}", 5), "<@5> a vu <@5>");
    assert!(call_confirmation(5, true).starts_with("DM envoye a <@5> !"));
    assert!(call_confirmation(5, false).starts_with("Impossible d envoyer un DM a <@5>"));
}

#[test]
fn chores() {
    assert_eq!(travaux_wait(0), None);
    assert_eq!(travaux_wait(150), Some("Tu dois encore te reposer **2m** avant la prochaine tache.".to_string()));
    for _ in 0..20 {
        let o = draw_chore();
        assert!(o.task < 3 && o.flavor < 4);
        if o.success {
            assert!((50..=100).contains(&o.coins));
        } else {
            assert_eq!(o.coins, 0);
        }
    }
    let (key, label, _) = chore_task(1);
    assert_eq!(key, "cook");
    assert_eq!(chore_title(label, true), "\u{2705} \u{1f373} Cuisiner pour les gardes \u{2014} Reussi !");
    assert_eq!(chore_flavor(true, 1), "Personne ne t a vu glander. Bravo.");
    assert_eq!(chore_body("d", "f", true, 70), "_d_\n\nf\n\n\u{1f4b0} **+70c** + **5 XP**.\nProchaine tache dans 2h.");
    assert_eq!(chore_body("d", "f", false, 0), "_d_\n\nf\n\nProchaine tache dans 2h.");
}
