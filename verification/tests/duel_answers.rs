use sentinel_bot::duel::{
    accepted_text, answer_refusal_text, check_answer, coward_note, defender_can_counter, expire_label,
    refusal_announce, shame_messages, AnswerRefusal, CombatView,
};

fn combat() -> CombatView {
    CombatView {
        guild_id: "g1".to_string(),
        attacker_id: "1".to_string(),
        defender_id: "2".to_string(),
        status: "pending".to_string(),
        mise: 50,
    }
}

#[test]
fn answers_checked_in_order() {
    let c = combat();
    assert_eq!(check_answer(&c, "2", Some("g1"), true, 10, 3600), Ok(()));
    assert_eq!(check_answer(&c, "2", Some("g2"), true, 10, 3600), Err(AnswerRefusal::OtherGuild));
    assert_eq!(check_answer(&c, "2", Some("g2"), false, 10, 3600), Ok(()));
    assert_eq!(check_answer(&c, "1", None, true, 10, 3600), Err(AnswerRefusal::NotDefender));
    let mut done = combat();
    done.status = "resolved".to_string();
    assert_eq!(check_answer(&done, "2", None, true, 10, 3600), Err(AnswerRefusal::NotPending));
    assert_eq!(check_answer(&c, "2", None, true, 3601, 3600), Err(AnswerRefusal::Expired));
    assert_eq!(check_answer(&c, "2", None, true, 3600, 3600), Ok(()));
}

#[test]
fn expiry_labels_and_texts() {
    assert_eq!(expire_label(7200), "2h");
    assert_eq!(expire_label(1800), "30min");
    assert_eq!(answer_refusal_text(AnswerRefusal::Expired, true, "2h"), "Ce defi a expire ! (2h)");
    assert_eq!(answer_refusal_text(AnswerRefusal::NotDefender, true, ""), "Seul le defenseur peut accepter le defi !");
    assert_eq!(answer_refusal_text(AnswerRefusal::NotDefender, false, ""), "Seul le defenseur peut refuser le defi !");
    assert_eq!(
        accepted_text("2", "1", 120),
        "<@2> a accepte le defi de <@1> !\n\n\u{1f3b2} **Les paris sont ouverts pendant 2 minute(s) !**\nUtilisez `/pari` pour miser sur le vainqueur.\n\n\u{23f3} Le combat sera resolu automatiquement par le serveur..."
    );
    assert!(defender_can_counter("HTTP 409 surprise_defender_can_counter"));
    assert!(!defender_can_counter("boom"));
}

#[test]
fn refusal_announcements() {
    let s = refusal_announce("2", 5);
    assert!(shame_messages().iter().any(|m| s == format!("\u{1f414} <@2> {m} Perte de **5 coins** !")));
    assert_eq!(coward_note("2", 2, 3, 20), None);
    assert_eq!(
        coward_note("2", 3, 3, 20),
        Some("\n\n\u{1f414} **<@2> est un lache notoire !** (3 refus)\nLes laches gagnent 20% de moins en combat.".to_string())
    );
}
