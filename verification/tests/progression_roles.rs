use sentinel_bot::config::ConfigMap;
use sentinel_bot::progression::{
    best_reward, days_since_join, default_role_id, effective_levels, needs_role_check, plan_role_sync, report_color,
    report_status, resync_summary, resync_summary_color, role_list, role_plan, sub_limit, voice_transition, voice_xp,
    xp_role_mode, ResyncTally, RewardEntry, RoleSyncReport, VoiceTransition,
};

fn reward(level: i32, role: &str, source: &str) -> RewardEntry {
    RewardEntry {
        id: format!("r{level}"),
        guild_id: "g".to_string(),
        level,
        role_id: role.to_string(),
        source: source.to_string(),
    }
}

fn rewards() -> Vec<RewardEntry> {
    vec![
        reward(5, "105", "text"),
        reward(10, "110", "text"),
        reward(20, "120", "text"),
        reward(10, "210", "voice"),
        reward(30, "330", "days"),
    ]
}

#[test]
fn effective_levels_by_mode() {
    assert_eq!(effective_levels("separate", 3, 9, 12), (3, 9));
    assert_eq!(effective_levels("max", 3, 9, 12), (9, 9));
    assert_eq!(effective_levels("total", 3, 9, 12), (12, 12));
    assert_eq!(effective_levels("weird", 3, 9, 12), (3, 9));
    let m = ConfigMap::from_pairs(vec![]);
    assert_eq!(xp_role_mode(&m), "separate");
}

#[test]
fn best_reward_is_highest_reached() {
    let rs = rewards();
    assert_eq!(best_reward(&rs, "text", 12), Some(1));
    assert_eq!(best_reward(&rs, "text", 25), Some(2));
    assert_eq!(best_reward(&rs, "text", 4), None);
    assert_eq!(best_reward(&rs, "voice", 10), Some(3));
}

#[test]
fn best_reward_ties_keep_first_listed() {
    let rs = vec![reward(10, "1", "text"), reward(10, "2", "text")];
    assert_eq!(best_reward(&rs, "text", 10), Some(0));
}

#[test]
fn plan_adds_best_and_removes_others() {
    let rs = rewards();
    let p = role_plan(&rs, "text", 12, &vec![105, 120, 999]);
    assert_eq!(p.add, Some(110));
    assert_eq!(p.remove, vec![120, 105]);
}

#[test]
fn plan_keeps_held_best() {
    let rs = rewards();
    let p = role_plan(&rs, "text", 12, &vec![110]);
    assert_eq!(p.add, None);
    assert!(p.remove.is_empty());
}

#[test]
fn plan_without_reached_reward_removes_all() {
    let rs = rewards();
    let p = role_plan(&rs, "text", 1, &vec![105, 110, 210]);
    assert_eq!(p.add, None);
    assert_eq!(p.remove, vec![110, 105]);
}

#[test]
fn unreadable_best_role_changes_nothing() {
    let rs = vec![reward(5, "105", "text"), reward(10, "oops", "text")];
    let p = role_plan(&rs, "text", 12, &vec![105]);
    assert_eq!(p.add, None);
    assert!(p.remove.is_empty());
}

#[test]
fn role_of_two_rewards_comes_once_per_reward() {
    let rs = vec![reward(5, "7", "text"), reward(6, "7", "text"), reward(9, "8", "text")];
    let p = role_plan(&rs, "text", 9, &vec![7]);
    assert_eq!(p.add, Some(8));
    assert_eq!(p.remove, vec![7, 7]);
}

#[test]
fn removals_walk_highest_level_first_ties_in_listed_order() {
    let rs = vec![reward(10, "1", "text"), reward(10, "2", "text"), reward(20, "3", "text"), reward(20, "4", "voice")];
    let p = role_plan(&rs, "text", 5, &vec![1, 2, 3, 4]);
    assert_eq!(p.add, None);
    assert_eq!(p.remove, vec![3, 1, 2]);
}

#[test]
fn sync_of_three_sources() {
    let rs = rewards();
    let plans = plan_role_sync(&rs, "max", 4, 10, 50, 31, &vec![]);
    assert_eq!(plans.len(), 3);
    assert_eq!(plans[0].add, Some(110));
    assert_eq!(plans[1].add, Some(210));
    assert_eq!(plans[2].add, Some(330));
}

#[test]
fn days_since_join_rounds_toward_zero() {
    assert_eq!(days_since_join(86400 * 3 + 5, Some(0)), 3);
    assert_eq!(days_since_join(0, Some(86400 + 1)), -1);
    assert_eq!(days_since_join(100, None), 0);
}

#[test]
fn role_checks_and_voice() {
    assert!(needs_role_check(true, 3, 4));
    assert!(needs_role_check(false, 0, 1));
    assert!(!needs_role_check(false, 2, 2));
    assert_eq!(voice_xp(899, 5), 70);
    assert_eq!(voice_xp(59, 5), 0);
    assert_eq!(voice_xp(600, -2), -20);
    assert_eq!(voice_transition(false, true, false, true), VoiceTransition::Join { afk: true });
    assert_eq!(voice_transition(true, true, false, true), VoiceTransition::AfkChange { afk: true });
    assert_eq!(voice_transition(true, true, true, true), VoiceTransition::Unchanged);
    assert_eq!(voice_transition(true, false, false, false), VoiceTransition::Leave);
    assert_eq!(voice_transition(false, false, false, false), VoiceTransition::Unchanged);
}

#[test]
fn default_role_setting() {
    let m = ConfigMap::from_pairs(vec![("default_role_id".to_string(), "42".to_string())]);
    assert_eq!(default_role_id(&m), Some(42));
    let m = ConfigMap::from_pairs(vec![("default_role_id".to_string(), "".to_string())]);
    assert_eq!(default_role_id(&m), None);
    let m = ConfigMap::from_pairs(vec![("default_role_id".to_string(), "x".to_string())]);
    assert_eq!(default_role_id(&m), None);
    assert_eq!(default_role_id(&ConfigMap::new()), None);
}

#[test]
fn resync_limits() {
    assert_eq!(sub_limit(None), 50);
    assert_eq!(sub_limit(Some(10)), 10);
    assert_eq!(sub_limit(Some(500)), 200);
    assert_eq!(sub_limit(Some(-1)), 200);
}

#[test]
fn resync_tally_and_texts() {
    let mut t = ResyncTally::new();
    t.record(&RoleSyncReport { added_roles: vec![1], removed_roles: vec![2, 3], errors: vec![], skipped: false });
    t.record(&RoleSyncReport { added_roles: vec![], removed_roles: vec![], errors: vec!["x".to_string()], skipped: true });
    t.record_unreadable();
    assert_eq!((t.total_added, t.total_removed, t.total_errors, t.skipped, t.affected_users), (1, 2, 1, 2, 1));
    assert_eq!(
        resync_summary(3, &t),
        "**3** joueurs traites (top XP global).\n\n- \u{2795} Roles attribues : **1**\n- \u{2796} Roles retires : **2**\n- \u{1f465} Membres modifies : **1**\n- \u{23ed}\u{fe0f} Skipped (parti du serveur, API HS, etc.) : **2**\n- \u{26a0}\u{fe0f} Erreurs Discord (perms / rate limit) : **1**"
    );
    assert_eq!(resync_summary_color(&t), 0xF1C40F);
    let r = RoleSyncReport { added_roles: vec![5, 6], removed_roles: vec![], errors: vec![], skipped: false };
    assert_eq!(report_color(&r), 0x3498DB);
    assert_eq!(report_status(&r), "\u{2705} Roles re-synchronises");
    assert_eq!(role_list(&r.added_roles), "<@&5>, <@&6>");
    assert_eq!(role_list(&vec![]), "_aucun_");
}
