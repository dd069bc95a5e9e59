use sentinel_bot::config::ConfigMap;
use sentinel_bot::security::{
    captcha_index, captcha_outcome, captcha_reply, captcha_verified_event, guild_captcha_type,
    guild_security_enabled, history_limit, history_text, join_actions, normalize_captcha_type, quarantine_role,
    CaptchaOutcome, EventSummary, JoinActions, SecurityDecisionResponse,
};

fn decision() -> SecurityDecisionResponse {
    SecurityDecisionResponse {
        is_raid: false,
        raid_score: 0,
        is_suspicious_account: false,
        is_alt_account: false,
        alt_similar_to: String::new(),
        quarantine: false,
        send_captcha: false,
        activate_lockdown: true,
        slowmode_secs: 30,
        event_type: String::new(),
        event_description: String::new(),
    }
}

fn map(pairs: &[(&str, &str)]) -> ConfigMap {
    ConfigMap::from_pairs(pairs.iter().map(|(k, v)| (k.to_string(), v.to_string())).collect())
}

#[test]
fn captcha_kinds() {
    assert_eq!(normalize_captcha_type("math"), "math");
    assert_eq!(normalize_captcha_type("button"), "button");
    assert_eq!(normalize_captcha_type("image"), "button");
}

#[test]
fn guild_settings() {
    assert!(guild_security_enabled(&map(&[])));
    assert!(!guild_security_enabled(&map(&[("enabled", "false")])));
    assert_eq!(quarantine_role(&map(&[("quarantine_role_id", "77")]), Some(5)), Some(77));
    assert_eq!(quarantine_role(&map(&[("quarantine_role_id", "bad")]), Some(5)), Some(5));
    assert_eq!(quarantine_role(&map(&[]), None), None);
    assert_eq!(guild_captcha_type(&map(&[("captcha_type", "math")]), "button"), "math");
    assert_eq!(guild_captcha_type(&map(&[]), "button"), "button");
}

#[test]
fn no_raid_means_no_lockdown() {
    let a = join_actions(false, &decision(), Some(9));
    assert_eq!(
        a,
        JoinActions {
            is_raid: false,
            lockdown: false,
            slowmode: None,
            reset_trackers: false,
            quarantine_role: None,
            send_captcha: false,
            log_event: false,
        }
    );
}

#[test]
fn local_raid_applies_api_measures() {
    let a = join_actions(true, &decision(), Some(9));
    assert!(a.is_raid && a.lockdown && a.reset_trackers);
    assert_eq!(a.slowmode, Some(30));
}

#[test]
fn slowmode_seconds_truncate_to_u16() {
    let mut d = decision();
    d.is_raid = true;
    d.slowmode_secs = 65536 + 10;
    assert_eq!(join_actions(false, &d, None).slowmode, Some(10));
}

#[test]
fn captcha_needs_quarantine_role() {
    let mut d = decision();
    d.quarantine = true;
    d.send_captcha = true;
    d.event_type = "suspicious".to_string();
    let a = join_actions(false, &d, None);
    assert_eq!(a.quarantine_role, None);
    assert!(!a.send_captcha);
    assert!(a.log_event);
    let a = join_actions(false, &d, Some(4));
    assert_eq!(a.quarantine_role, Some(4));
    assert!(a.send_captcha);
}

#[test]
fn captcha_answers() {
    assert_eq!(captcha_index("captcha_math:2", "captcha_math:"), Some(2));
    assert_eq!(captcha_index("captcha_math:4", "captcha_math:"), None);
    assert_eq!(captcha_index("captcha_math:x", "captcha_math:"), None);
    assert_eq!(captcha_index("other", "captcha_math:"), None);
    assert_eq!(captcha_outcome(false, Some(true)), CaptchaOutcome::NotQuarantined);
    assert_eq!(captcha_outcome(true, Some(true)), CaptchaOutcome::Passed);
    assert_eq!(captcha_outcome(true, Some(false)), CaptchaOutcome::WrongAnswer);
    assert_eq!(captcha_outcome(true, None), CaptchaOutcome::Expired);
    let (t, d) = captcha_reply(CaptchaOutcome::Passed);
    assert_eq!(t, "\u{2705} Verification reussie");
    assert_eq!(d, "Bonne reponse ! Vous avez maintenant acces au serveur.");
}

#[test]
fn captcha_event() {
    let e = captcha_verified_event("1", "2", "bob", true);
    assert_eq!(e.event_type, "captcha_verified");
    assert_eq!(e.severity, "info");
    assert_eq!(e.description, "Utilisateur bob a passe le captcha math");
    assert_eq!(e.user_ids, vec!["2".to_string()]);
    let e = captcha_verified_event("1", "2", "bob", false);
    assert_eq!(e.description, "Utilisateur bob a passe le captcha");
}

#[test]
fn history_texts() {
    assert_eq!(history_text(&vec![]), "Aucun evenement recent.");
    let long = "x".repeat(90);
    let es = vec![
        EventSummary { event_type: Some("raid".to_string()), severity: Some("warn".to_string()), description: Some("Raid".to_string()) },
        EventSummary { event_type: None, severity: None, description: Some(long) },
    ];
    let expected = format!("1. [warn] **raid** \u{2014} Raid\n2. [info] **inconnu** \u{2014} {}...", "x".repeat(80));
    assert_eq!(history_text(&es), expected);
    assert_eq!(history_limit(None), 5);
    assert_eq!(history_limit(Some(12)), 12);
}
