use sentinel_bot::config::{config_bool, config_or, config_u64, ConfigMap, DoubleCoupMode};
use sentinel_bot::guild_config::CoudeConfig;
use sentinel_bot::milestones::{effective_repos_cooldown_hours, format_profile_section, milestones, next_for, unlocked_for};

fn map(pairs: &[(&str, &str)]) -> ConfigMap {
    ConfigMap::from_pairs(pairs.iter().map(|(k, v)| (k.to_string(), v.to_string())).collect())
}

#[test]
fn settings_read_with_defaults() {
    let m = map(&[("a", "12"), ("b", "true"), ("c", "1"), ("d", "yes"), ("a", "13")]);
    assert_eq!(config_u64(&m, "a", 5), 13);
    assert_eq!(config_u64(&m, "zz", 5), 5);
    assert_eq!(config_u64(&m, "d", 5), 5);
    assert!(config_bool(&m, "b", false));
    assert!(config_bool(&m, "c", false));
    assert!(!config_bool(&m, "d", true));
    assert!(config_bool(&m, "zz", true));
    assert_eq!(config_or(&m, "d", "x"), "yes");
    let mut m = ConfigMap::new();
    m.insert("k".to_string(), "v".to_string());
    assert_eq!(m.get("k"), Some("v".to_string()));
    assert_eq!(m.get("j"), None);
}

#[test]
fn double_coup_modes() {
    assert_eq!(DoubleCoupMode::parse(" MAX "), DoubleCoupMode::Max);
    assert_eq!(DoubleCoupMode::parse("min"), DoubleCoupMode::Min);
    assert_eq!(DoubleCoupMode::parse("other"), DoubleCoupMode::Median);
    assert_eq!(DoubleCoupMode::Max.aggregate(3, 9), 9);
    assert_eq!(DoubleCoupMode::Min.aggregate(3, 9), 3);
    assert_eq!(DoubleCoupMode::Median.aggregate(3, 8), 6);
    assert_eq!(DoubleCoupMode::Median.aggregate(-3, -8), -5);
    assert_eq!(DoubleCoupMode::Median.aggregate(3, 4), 4);
    assert_eq!(DoubleCoupMode::Median.aggregate(1, 20), 11);
    assert_eq!(DoubleCoupMode::Median.aggregate(6, 8), 7);
    assert_eq!(DoubleCoupMode::Median.aggregate(-4, -7), -5);
}

#[test]
fn coude_settings() {
    let c = CoudeConfig::new(map(&[("max_bet", "0"), ("channel_combats", "123"), ("channel_profil", "")]));
    assert_eq!(c.max_bet(), i64::MAX);
    assert_eq!(c.channel_combats(), Some("123".to_string()));
    assert_eq!(c.channel_profil(), None);
    assert!(c.enabled());
    assert_eq!(c.double_coup_mode(), DoubleCoupMode::Median);
}

#[test]
fn rest_cooldown_milestone() {
    assert_eq!(effective_repos_cooldown_hours(12, 14), 12);
    assert_eq!(effective_repos_cooldown_hours(12, 15), 8);
    assert_eq!(effective_repos_cooldown_hours(6, 30), 6);
}

#[test]
fn milestones_partition() {
    assert_eq!(milestones().len(), 5);
    let u = unlocked_for(12);
    assert_eq!(u.iter().map(|m| m.level).collect::<Vec<_>>(), vec![5, 10]);
    assert_eq!(next_for(12).map(|m| m.level), Some(15));
    assert_eq!(next_for(25).map(|m| m.level), None);
    assert!(unlocked_for(1).is_empty());
}

#[test]
fn profile_section_texts() {
    assert_eq!(
        format_profile_section(1),
        "_Aucun palier debloque pour l instant._\n\n\u{1f3af} Prochain : niveau **5** -> \u{1f6e1}\u{fe0f} Coffre renforce (+1 emplacement d assurance (cumul de 2 actives au lieu de 1).)"
    );
    assert!(format_profile_section(30).ends_with("\u{1f3c6} Tous les paliers debloques !"));
}

#[test]
fn penalties_and_rates_with_defaults_and_overrides() {
    let d = CoudeConfig::new(map(&[]));
    assert_eq!(d.cowardice_penalty_percent(), 20);
    assert_eq!(d.refusal_penalty_percent(), 20);
    assert_eq!(d.cancel_penalty_percent(), 5);
    assert_eq!(d.daily_chaos_percent_value(), 20);
    assert_eq!(d.gift_tax_percent(), 10);
    assert_eq!(d.hp_regen_rate_0_25_value(), 100);
    assert_eq!(d.hp_regen_rate_25_50_value(), 50);
    assert_eq!(d.hp_regen_rate_50_75_value(), 30);
    assert_eq!(d.hp_regen_rate_75_100_value(), 10);
    assert_eq!(d.shop_price("potion_soin"), 80);
    assert_eq!(d.shop_price("inconnu"), 100);
    let c = CoudeConfig::new(map(&[("cancel_penalty", "7"), ("shop_potion_soin_price", "95"), ("hp_regen_rate_0_25", "x")]));
    assert_eq!(c.cancel_penalty_percent(), 7);
    assert_eq!(c.shop_price("potion_soin"), 95);
    assert_eq!(c.hp_regen_rate_0_25_value(), 100);
}
