use sentinel_bot::config::ConfigMap;
use sentinel_bot::guild_config::CoudeConfig;
use sentinel_bot::tournament::{
    medal, mention_or_name, steal_expired_decision, steal_expired_target, top5_text, tournament_channel, tournament_description,
    week_footer, StealExpired, TopEntry, TournamentResolved,
};

fn cfg(pairs: &[(&str, &str)]) -> CoudeConfig {
    CoudeConfig::new(ConfigMap::from_pairs(pairs.iter().map(|(k, v)| (k.to_string(), v.to_string())).collect()))
}

#[test]
fn names_and_medals() {
    assert_eq!(mention_or_name("12", "bob"), "<@12>");
    assert_eq!(mention_or_name("", "bob"), "bob");
    assert_eq!(medal(0), "\u{1f947}");
    assert_eq!(medal(2), "\u{1f949}");
    assert_eq!(medal(4), "\u{1f539}");
}

#[test]
fn top_five_lines() {
    assert_eq!(top5_text(&vec![]), "_Aucune activite enregistree._");
    let es = vec![
        TopEntry { user_id: "1".to_string(), username: "a".to_string(), net_gain: 300 },
        TopEntry { user_id: String::new(), username: "b".to_string(), net_gain: -5 },
    ];
    assert_eq!(
        top5_text(&es),
        "\u{1f947} **<@1>** \u{2014} 300 coins nets\n\u{1f948} **b** \u{2014} -5 coins nets\n"
    );
}

#[test]
fn announcement_text() {
    let ev = TournamentResolved {
        guild_id: "g".to_string(),
        winner_user_id: "1".to_string(),
        winner_username: "a".to_string(),
        prize_amount: 900,
        prize_pct: 30,
        week_start: "2024-04-29T00:00:00Z".to_string(),
        top5: vec![],
    };
    assert_eq!(
        tournament_description(&ev),
        "\u{1f3c6} **Gagnant** : <@1>\n\u{1f4b0} **Prix** : **900** coins (30% de la caisse)\n\n**Top 5 de la semaine**\n_Aucune activite enregistree._"
    );
    assert_eq!(week_footer(&ev.week_start), "Semaine du 2024-04-29");
    assert_eq!(week_footer("2024"), "Semaine du 2024");
}

#[test]
fn tournament_channel_choice() {
    assert_eq!(tournament_channel(&cfg(&[("tournament_channel_id", "5"), ("channel_activites", "6")])), Some(5));
    assert_eq!(tournament_channel(&cfg(&[("tournament_channel_id", ""), ("channel_activites", "6")])), Some(6));
    assert_eq!(tournament_channel(&cfg(&[("channel_activites", "abc")])), None);
    assert_eq!(tournament_channel(&cfg(&[])), None);
}

#[test]
fn expired_steal_payload() {
    let mut e = StealExpired {
        attempt_id: "550e8400-e29b-41d4-a716-446655440000".to_string(),
        guild_id: "g".to_string(),
        thief_id: "t".to_string(),
        target_id: "v".to_string(),
        message_id: "20".to_string(),
        channel_id: "10".to_string(),
    };
    assert_eq!(steal_expired_target(&e), Some((10, 20)));
    assert_eq!(steal_expired_decision(&e, false), None);
    assert_eq!(steal_expired_decision(&e, true), Some((10, 20)));
    let mut bad = StealExpired { attempt_id: "not-a-uuid".to_string(), ..e };
    assert_eq!(steal_expired_target(&bad), None);
    bad.attempt_id = "550e8400e29b41d4a716446655440000".to_string();
    assert_eq!(steal_expired_target(&bad), Some((10, 20)));
    let mut e = bad;
    e.channel_id = "x".to_string();
    assert_eq!(steal_expired_target(&e), None);
    e.channel_id = "10".to_string();
    e.thief_id = String::new();
    assert_eq!(steal_expired_target(&e), None);
}

#[test]
fn expired_steal_attempt_id_forms() {
    let with_id = |id: &str| StealExpired {
        attempt_id: id.to_string(),
        guild_id: "g".to_string(),
        thief_id: "t".to_string(),
        target_id: "v".to_string(),
        message_id: "20".to_string(),
        channel_id: "10".to_string(),
    };
    assert_eq!(steal_expired_target(&with_id("{550E8400-E29B-41D4-A716-446655440000}")), Some((10, 20)));
    assert_eq!(steal_expired_target(&with_id("URN:uuid:550e8400-e29b-41d4-a716-446655440000")), Some((10, 20)));
    assert_eq!(steal_expired_target(&with_id("550e8400-e29b-41d4-a716-44665544000g")), None);
    assert_eq!(steal_expired_target(&with_id("550e8400e-29b-41d4-a716-446655440000")), None);
    assert_eq!(steal_expired_target(&with_id("(550e8400-e29b-41d4-a716-446655440000)")), None);
}
