use sentinel_bot::config::ConfigMap;
use sentinel_bot::moderation::{
    call_close_button_id, may_close_call, unwarn_button_id,
    ban_delete_days, count_deletions, handles_autocomplete, has_mod_permission, find_immune_role, immunity_message,
    parse_ignored_roles, plan_ban, risky_ban_text, unban_target, unwarn_action_id, unwarn_all_summary,
    unwarn_done_text, unwarn_log_text, warn_indices, warn_line, ModerationEntry,
};

#[test]
fn autocomplete_commands() {
    assert!(handles_autocomplete("warn"));
    assert!(handles_autocomplete("ban"));
    assert!(!handles_autocomplete("kick"));
}

#[test]
fn immunity() {
    assert_eq!(
        immunity_message(5, "Ban"),
        "\u{1f6e1}\u{fe0f} Ce membre est **immunise** contre les sanctions (role <@&5>).\nImpossible d'appliquer : **Ban**."
    );
    assert_eq!(parse_ignored_roles("1, 2\n3"), vec![1, 2, 3]);
    assert_eq!(find_immune_role(Some("7,8"), &vec![8, 7]), Some(8));
    assert_eq!(find_immune_role(None, &vec![8]), None);
}

#[test]
fn permission_bits() {
    let moderate: u64 = 1 << 40;
    assert!(has_mod_permission(Some(moderate | 1), moderate));
    assert!(has_mod_permission(Some(8), moderate));
    assert!(!has_mod_permission(Some(1), moderate));
    assert!(!has_mod_permission(None, moderate));
}

#[test]
fn ban_plans() {
    let p = plan_ban(Some("spam"), Some(24));
    assert_eq!(p.reason, "spam");
    assert!(!p.is_permanent);
    assert_eq!(p.duration_secs, Some(86400));
    assert_eq!(p.duration_label, "24h");
    assert_eq!(p.action_type, "ban_temp");
    let p = plan_ban(None, None);
    assert_eq!(p.reason, "Aucune raison");
    assert!(p.is_permanent);
    assert_eq!(p.duration_secs, None);
    assert_eq!(p.duration_label, "permanent");
    assert_eq!(p.action_type, "ban_permanent");
    let long = "r".repeat(600);
    assert_eq!(plan_ban(Some(&long), None).reason.chars().count(), 500);
}

#[test]
fn ban_settings_and_texts() {
    assert_eq!(ban_delete_days(&ConfigMap::new()), 1);
    let m = ConfigMap::from_pairs(vec![("ban_delete_message_days".to_string(), "263".to_string())]);
    assert_eq!(ban_delete_days(&m), 7);
    assert_eq!(
        risky_ban_text(9, "eve", "compte recent", "permanent", "spam"),
        "La cible <@9> (`eve`) presente un risque : **compte recent**.\n\nAction demandee : **Ban (permanent)**\nRaison : spam\n\nConfirmer l'execution ?"
    );
    assert_eq!(unban_target(Some("123")), Some(123));
    assert_eq!(unban_target(Some("abc")), None);
    assert_eq!(unban_target(None), Some(0));
}

#[test]
fn unwarn_texts() {
    assert_eq!(unwarn_action_id("mod_unwarn:abc-123"), Some("abc-123".to_string()));
    assert_eq!(unwarn_action_id("other:abc"), None);
    assert_eq!(unwarn_done_text("0123456789ab", "mod"), "Warn `01234567` supprime par **mod**.");
    assert_eq!(unwarn_log_text("abc", 5), "Warn `abc` retire par <@5>");
    assert_eq!(
        unwarn_all_summary(2, 3, 7, "mod"),
        "**2/3** avertissements supprimes pour <@7>\n\nModerateur : **mod**"
    );
    assert_eq!(count_deletions(&vec![Some(true), Some(false), None, Some(true)]), (2, 2));
}

#[test]
fn warn_listing() {
    let e = |t: &str| ModerationEntry {
        id: "id".to_string(),
        action_type: t.to_string(),
        created_at: "2024-05-01T12:00:00".to_string(),
        gravity: None,
        moderator_name: "mod".to_string(),
        reason: "x".repeat(60),
    };
    let es = vec![e("mute"), e("warn"), e("ban"), e("warn")];
    assert_eq!(warn_indices(&es), vec![1, 3]);
    assert_eq!(
        warn_line(0, &es[1]),
        format!("**#1** \u{2014} 2024-05-01 | Gravite: **?** | mod\n> Raison : {}\n\n", "x".repeat(50))
    );
}

#[test]
fn unwarn_button_reads_back() {
    let id = unwarn_button_id("a1b2c3");
    assert_eq!(id, "mod_unwarn:a1b2c3");
    assert_eq!(unwarn_action_id(&id), Some("a1b2c3".to_string()));
}

#[test]
fn summons_opener_may_close_its_call() {
    let id = call_close_button_id(4242);
    assert_eq!(id, "sentinel_mod_call_close:4242");
    assert!(may_close_call(&id, 4242, None, 1 << 40));
    assert!(!may_close_call(&id, 7, Some(0), 1 << 40));
}
