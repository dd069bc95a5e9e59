use sentinel_bot::challenge::{
    bloodbath_active, check_challenge, check_confirmation, confirm_color, confirm_description, confirm_refusal_text,
    hp_percent, hp_warning, is_surprise, parse_preconfirm_id, preconfirm_id, refusal_text, ChallengeFacts,
    ChallengeOffer, ChallengeRefusal, ConfirmRefusal, HpWarning, PRECONFIRM_NO_PREFIX, PRECONFIRM_OK_PREFIX,
};

fn facts() -> ChallengeFacts {
    ChallengeFacts {
        attacker_id: 1,
        target_id: 2,
        target_is_bot: false,
        hp_current: Some(80),
        hp_max: Some(100),
        attacker_level: 5,
        defender_level: 7,
        level_gap_blocked: false,
        mise: 50,
        min_bet: 10,
        max_bet: 1000,
        attacker_coins: 200,
        pending: false,
        special: None,
        has_item: false,
        defender_coins: 500,
    }
}

#[test]
fn hp_percent_rounds_toward_zero() {
    assert_eq!(hp_percent(9, 100), 9);
    assert_eq!(hp_percent(1, 3), 33);
    assert_eq!(hp_percent(-1, 3), -33);
    assert_eq!(hp_percent(50, 0), 0);
}

#[test]
fn warning_levels() {
    assert_eq!(hp_warning(25), HpWarning::VeryLow);
    assert_eq!(hp_warning(26), HpWarning::BelowHalf);
    assert_eq!(hp_warning(50), HpWarning::BelowHalf);
    assert_eq!(hp_warning(51), HpWarning::NoWarning);
    assert_eq!(confirm_color(25), 0xE74C3C);
    assert_eq!(confirm_color(26), 0xF1C40F);
}

#[test]
fn challenge_offered() {
    let r = check_challenge(&facts()).unwrap();
    assert_eq!(
        r,
        ChallengeOffer { hp_current: 80, hp_max: 100, hp_percent: 80, warning: HpWarning::NoWarning, defender_cap: None }
    );
}

#[test]
fn missing_hit_points_count_as_full() {
    let mut f = facts();
    f.hp_current = None;
    f.hp_max = None;
    assert_eq!(check_challenge(&f).unwrap().hp_percent, 100);
}

#[test]
fn each_refusal_in_order() {
    let mut f = facts();
    f.target_id = 1;
    assert_eq!(check_challenge(&f), Err(ChallengeRefusal::SelfChallenge));
    let mut f = facts();
    f.target_is_bot = true;
    assert_eq!(check_challenge(&f), Err(ChallengeRefusal::TargetIsBot));
    let mut f = facts();
    f.hp_current = Some(9);
    assert_eq!(check_challenge(&f), Err(ChallengeRefusal::LowHp { current: 9, max: 100, percent: 9 }));
    let mut f = facts();
    f.level_gap_blocked = true;
    assert_eq!(
        check_challenge(&f),
        Err(ChallengeRefusal::LevelGap { gap: 2, attacker_level: 5, defender_level: 7, target_id: 2 })
    );
    let mut f = facts();
    f.mise = 5;
    assert_eq!(check_challenge(&f), Err(ChallengeRefusal::BetTooLow { min: 10 }));
    let mut f = facts();
    f.mise = 5000;
    assert_eq!(check_challenge(&f), Err(ChallengeRefusal::BetTooHigh { max: 1000 }));
    let mut f = facts();
    f.attacker_coins = 49;
    assert_eq!(check_challenge(&f), Err(ChallengeRefusal::NotEnoughCoins { coins: 49, mise: 50 }));
    let mut f = facts();
    f.pending = true;
    assert_eq!(check_challenge(&f), Err(ChallengeRefusal::AlreadyPending));
    let mut f = facts();
    f.special = Some("rage".to_string());
    assert_eq!(check_challenge(&f), Err(ChallengeRefusal::MissingItem));
    let mut f = facts();
    f.defender_coins = 0;
    assert_eq!(check_challenge(&f), Err(ChallengeRefusal::DefenderBroke { target_id: 2 }));
}

#[test]
fn low_hp_wins_over_bet_checks() {
    let mut f = facts();
    f.hp_current = Some(5);
    f.mise = 1;
    assert!(matches!(check_challenge(&f), Err(ChallengeRefusal::LowHp { .. })));
}

#[test]
fn poor_defender_caps_the_gain() {
    let mut f = facts();
    f.defender_coins = 20;
    f.hp_current = Some(20);
    let offer = check_challenge(&f).unwrap();
    assert_eq!(offer.defender_cap, Some(20));
    assert_eq!(offer.warning, HpWarning::VeryLow);
    let text = confirm_description(2, 50, &None, &offer);
    assert_eq!(
        text,
        "Tu vas defier <@2> pour **50 coins**.\n\n\u{2764}\u{fe0f} **Tes PV actuels : 20 / 100**\n\n\u{26a0}\u{fe0f} **Tu es tres bas en PV !** Si tu lances ce combat tu risques une faillite HP rapide.\n\n\u{26a0}\u{fe0f} **<@2> n'a que 20 coins !** Si tu gagnes, tu ne recupereras que **20 coins** (pas 50). Si tu perds, tu perdras bien les 50 coins mises.\n\nLancer le combat ?"
    );
}

#[test]
fn confirmation_with_special() {
    let offer = check_challenge(&facts()).unwrap();
    let text = confirm_description(2, 50, &Some("rage".to_string()), &offer);
    assert_eq!(
        text,
        "Tu vas defier <@2> pour **50 coins**. | Special : **rage**\n\n\u{2764}\u{fe0f} **Tes PV actuels : 80 / 100**\n\nLancer le combat ?"
    );
}

#[test]
fn refusal_texts() {
    assert_eq!(
        refusal_text(ChallengeRefusal::LowHp { current: 5, max: 100, percent: 5 }, ""),
        "\u{1f480} Tu es trop bas en PV pour combattre ! (5/100 \u{2014} 5%)\nUtilise `/repos` (cooldown 12h) ou attends la regen passive."
    );
    assert_eq!(
        refusal_text(ChallengeRefusal::LevelGap { gap: 12, attacker_level: 3, defender_level: 15, target_id: 42 }, ""),
        "Ecart de niveau trop important ! (12 niveaux d'ecart, max 9)\nTon niveau : 3 | Niveau de <@42> : 15"
    );
    assert_eq!(refusal_text(ChallengeRefusal::BetTooLow { min: 10 }, ""), "La mise minimum est de 10 coins.");
    assert_eq!(refusal_text(ChallengeRefusal::BetTooHigh { max: 99 }, ""), "La mise maximum est de 99 coins.");
    assert_eq!(
        refusal_text(ChallengeRefusal::NotEnoughCoins { coins: 3, mise: 50 }, ""),
        "Tu n'as pas assez de coins ! (tu as 3 coins, mise demandee : 50)"
    );
    assert_eq!(
        refusal_text(ChallengeRefusal::MissingItem, "poison"),
        "Tu n'as pas l'objet **poison** dans ton inventaire !"
    );
    assert_eq!(
        refusal_text(ChallengeRefusal::DefenderBroke { target_id: 7 }, ""),
        "Impossible de defier <@7> : ce joueur n'a aucun coin. Pas de duel sans enjeu !"
    );
    assert_eq!(refusal_text(ChallengeRefusal::SelfChallenge, ""), "Tu ne peux pas te defier toi-meme !");
    assert_eq!(refusal_text(ChallengeRefusal::TargetIsBot, ""), "Tu ne peux pas defier un bot !");
    assert_eq!(refusal_text(ChallengeRefusal::AlreadyPending, ""), "Tu as deja un defi en attente !");
}

#[test]
fn preconfirm_ids() {
    assert_eq!(preconfirm_id(PRECONFIRM_OK_PREFIX, 42, 50, &None), "coude_prec_ok|42|50|-");
    assert_eq!(
        preconfirm_id(PRECONFIRM_NO_PREFIX, 42, -3, &Some("surprise".to_string())),
        "coude_prec_no|42|-3|surprise"
    );
}

#[test]
fn preconfirm_id_roundtrip() {
    let id = preconfirm_id(PRECONFIRM_OK_PREFIX, 123456789, 250, &Some("double_coup".to_string()));
    assert_eq!(
        parse_preconfirm_id(&id, PRECONFIRM_OK_PREFIX),
        Some(("123456789".to_string(), 250, "double_coup".to_string()))
    );
}

#[test]
fn preconfirm_parse_edges() {
    assert_eq!(parse_preconfirm_id("coude_prec_ok|1|2|a|b", PRECONFIRM_OK_PREFIX), Some(("1".to_string(), 2, "a|b".to_string())));
    assert_eq!(parse_preconfirm_id("coude_prec_ok|1|2", PRECONFIRM_OK_PREFIX), None);
    assert_eq!(parse_preconfirm_id("coude_prec_ok|1|x|-", PRECONFIRM_OK_PREFIX), None);
    assert_eq!(parse_preconfirm_id("coude_prec_no|1|2|-", PRECONFIRM_OK_PREFIX), None);
    assert_eq!(parse_preconfirm_id("coude_prec_ok||+7|", PRECONFIRM_OK_PREFIX), Some((String::new(), 7, String::new())));
}

#[test]
fn confirmation_checks() {
    assert_eq!(check_confirmation(100, 50, None, None, false, "-", false, true), Ok(None));
    assert_eq!(
        check_confirmation(100, 50, None, None, false, "rage", true, true),
        Ok(Some("rage".to_string()))
    );
    assert_eq!(
        check_confirmation(10, 50, None, None, false, "-", false, true),
        Err(ConfirmRefusal::BalanceTooLow { coins: 10, mise: 50 })
    );
    assert_eq!(
        check_confirmation(100, 50, Some(5), Some(100), false, "-", false, true),
        Err(ConfirmRefusal::LowHp { current: 5, max: 100, percent: 5 })
    );
    assert_eq!(check_confirmation(100, 50, None, None, true, "-", false, true), Err(ConfirmRefusal::AlreadyPending));
    assert_eq!(check_confirmation(100, 50, None, None, false, "rage", false, true), Err(ConfirmRefusal::ItemGone));
    assert_eq!(check_confirmation(100, 50, None, None, false, "-", false, false), Err(ConfirmRefusal::NoCombatChannel));
    assert_eq!(
        confirm_refusal_text(ConfirmRefusal::LowHp { current: 5, max: 100, percent: 5 }, ""),
        "\u{1f480} Tu es trop bas en PV maintenant (5/100 \u{2014} 5%). Defi annule."
    );
    assert_eq!(
        confirm_refusal_text(ConfirmRefusal::BalanceTooLow { coins: 10, mise: 50 }, ""),
        "Ton solde n'est plus suffisant ! (tu as 10 coins, mise demandee : 50)"
    );
    assert_eq!(confirm_refusal_text(ConfirmRefusal::ItemGone, "rage"), "Tu n'as plus l'objet **rage** dans ton inventaire !");
    assert_eq!(confirm_refusal_text(ConfirmRefusal::NoCombatChannel, ""), "Salon combats non configure.");
}

#[test]
fn routing_of_confirmed_duels() {
    assert!(is_surprise(&Some("surprise".to_string())));
    assert!(!is_surprise(&Some("rage".to_string())));
    assert!(!is_surprise(&None));
    assert!(bloodbath_active(&vec!["happy_hour".to_string(), "bloodbath".to_string()]));
    assert!(!bloodbath_active(&vec!["happy_hour".to_string()]));
    assert!(!bloodbath_active(&vec![]));
}
