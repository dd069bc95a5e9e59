use sentinel_bot::games::{games_list_text, panel_description, panel_title, players_text, route_game_command, GameCommand, GameEntry};
use sentinel_bot::moderation::{
    call_channel_name, call_reason, call_text, call_topic, escalation_of, may_close_call, strikes_label, warn_gravity,
    Escalation,
};
use sentinel_bot::prison::{button_refused_in_prison, command_refused_in_prison, prison_text};
use sentinel_bot::security::button_captcha_reply;
use sentinel_bot::tournament::{season_header, season_ranking, taunts_opt_out, RankEntry};

#[test]
fn warn_escalations() {
    assert_eq!(escalation_of(Some("mute"), None), Escalation::Mute { secs: 600 });
    assert_eq!(escalation_of(Some("mute"), Some(60)), Escalation::Mute { secs: 60 });
    assert_eq!(escalation_of(Some("ban"), None), Escalation::Ban);
    assert_eq!(escalation_of(Some("kick"), None), Escalation::NoEscalation);
    assert_eq!(escalation_of(None, Some(1)), Escalation::NoEscalation);
    assert_eq!(warn_gravity(None), "medium");
    assert_eq!(strikes_label(Some(3)), " \u{2014} Strike 3");
    assert_eq!(strikes_label(None), "");
}

#[test]
fn summons() {
    assert_eq!(call_reason(None), "Convocation par un moderateur");
    assert_eq!(call_channel_name("Big Bob"), "call-big-bob");
    assert_eq!(call_topic(1, 2, "spam"), "[call:1:2] spam");
    assert_eq!(call_text(2, 1, "spam"), "<@2>, vous avez ete convoque par <@1>.\n\n**Raison :** spam");
    let moderate: u64 = 1 << 40;
    assert!(may_close_call("sentinel_mod_call_close:7", 7, None, moderate));
    assert!(!may_close_call("sentinel_mod_call_close:7", 8, None, moderate));
    assert!(may_close_call("sentinel_mod_call_close:7", 8, Some(moderate), moderate));
}

#[test]
fn prison_messages() {
    assert_eq!(
        prison_text(&Some("2024-06-01T00:00:00Z".to_string())),
        "\u{26d3}\u{fe0f} **Tu es en prison jusqu'au **2024-06-01**** !\n\nAucune action de jeu n'est possible (ni combat, ni achat, ni vol, ni meme `/repos`). Attends ta liberation ou accepte ton sort."
    );
    assert!(prison_text(&None).starts_with("\u{26d3}\u{fe0f} **Tu es en prison** !"));
    assert!(command_refused_in_prison("voler", true));
    assert!(!command_refused_in_prison("voler", false));
    assert!(!command_refused_in_prison("profil", true));
    assert!(button_refused_in_prison("coude_accept:1", true));
}

#[test]
fn game_commands() {
    assert_eq!(route_game_command("game-admin", "panel"), GameCommand::Panel);
    assert_eq!(route_game_command("game", "my-games"), GameCommand::MyGames);
    assert_eq!(route_game_command("game", "panel"), GameCommand::Unknown);
    let games = vec![
        GameEntry { game_name: "Valorant".to_string(), emoji: Some("V".to_string()) },
        GameEntry { game_name: "Chess".to_string(), emoji: None },
    ];
    assert_eq!(games_list_text(&games), "- V **Valorant**\n-  **Chess**");
    assert_eq!(panel_title(None), "- [ Jeux ] -");
    assert_eq!(panel_title(Some("FPS")), "- [ FPS ] -");
    assert_eq!(panel_description(&games), "V @Valorant\n @Chess");
    assert_eq!(panel_description(&vec![]), "*Aucun jeu.*");
    assert_eq!(players_text("Chess", &vec![]), "Aucun joueur inscrit a **Chess**.");
    assert_eq!(
        players_text("Chess", &vec!["1".to_string(), "2".to_string()]),
        "Joueurs inscrits a **Chess** (2) : <@1>, <@2>"
    );
}

#[test]
fn seasons_and_taunts() {
    let es = vec![
        RankEntry { username: "a".to_string(), value: 10 },
        RankEntry { username: "b".to_string(), value: 9 },
        RankEntry { username: "c".to_string(), value: 8 },
        RankEntry { username: "d".to_string(), value: 7 },
    ];
    assert_eq!(
        season_ranking(&es, "Niveau ", ""),
        "\u{1f947} **a** \u{2014} Niveau 10\n\u{1f948} **b** \u{2014} Niveau 9\n\u{1f949} **c** \u{2014} Niveau 8\n **d** \u{2014} Niveau 7"
    );
    assert_eq!(season_ranking(&vec![], "", " coins"), "Aucun joueur");
    let (t, d) = season_header(Some((4, "2026-04-10 12:34:56+00", 30)));
    assert_eq!(t, "\u{1f3c6} Saison 4");
    assert!(d.starts_with("Saison demarree le **2026-04-10**\n\u{23f3} Temps restant : **30 jours**"));
    assert_eq!(taunts_opt_out(Some("on")), Some(true));
    assert_eq!(taunts_opt_out(Some("off")), Some(false));
    assert_eq!(taunts_opt_out(Some("x")), None);
    let (t, _) = button_captcha_reply(false);
    assert_eq!(t, "\u{26a0}\u{fe0f} Deja verifie");
}
