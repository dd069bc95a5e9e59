//! Typed settings of the "Coup de Coude" game for one guild, each read
//! from the guild's key/value configuration with a default.

use vstd::prelude::*;
use crate::config::{bool_setting, config_bool, config_or, config_u64, text_setting, u64_setting, ConfigMap, DoubleCoupMode, parse_mode_spec};
use crate::text::{push_str, str_eq};

verus! {

/// An optional text result matches an optional character sequence.
pub open spec fn opt_text_matches(r: Option<String>, s: Option<Seq<char>>) -> bool {
    match (r, s) {
        (Some(a), Some(b)) => a@ == b,
        (None, None) => true,
        _ => false,
    }
}

/// Channel setting: the configured text, `None` when unset or empty.
pub open spec fn channel_spec(m: &ConfigMap, key: Seq<char>) -> Option<Seq<char>> {
    let v = text_setting(m, key, Seq::empty());
    if v.len() == 0 {
        None
    } else {
        Some(v)
    }
}

/// Default price of a shop item.
pub open spec fn shop_default(item: Seq<char>) -> u64 {
    if item == "potion_soin"@ {
        80
    } else if item == "rage"@ {
        100
    } else if item == "mindgame"@ {
        150
    } else if item == "antidote"@ {
        150
    } else if item == "explosion"@ {
        200
    } else if item == "potion_majeure"@ {
        200
    } else if item == "double_coup"@ {
        250
    } else if item == "bouclier"@ {
        250
    } else if item == "surprise"@ {
        300
    } else if item == "poison"@ {
        300
    } else if item == "coup_traitre"@ {
        350
    } else if item == "masque_braquage"@ {
        100
    } else if item == "pied_de_biche"@ {
        150
    } else if item == "crochet_vault"@ {
        220
    } else if item == "plan_coffre"@ {
        320
    } else if item == "fumigene_diversion"@ {
        450
    } else if item == "explosif"@ {
        600
    } else if item == "hacker_kit"@ {
        800
    } else if item == "drone_espion"@ {
        1000
    } else if item == "equipe_de_pros"@ {
        1500
    } else {
        100
    }
}

/// Setting key of a shop item's price: `shop_<item>_price`.
pub open spec fn shop_key(item: Seq<char>) -> Seq<char> {
    "shop_"@ + item + "_price"@
}

/// Settings of the game for one guild.
pub struct CoudeConfig {
    pub raw: ConfigMap,
}

impl CoudeConfig {
    /// Settings read from a raw guild configuration.
    pub fn new(raw: ConfigMap) -> (c: CoudeConfig)
        ensures
            c.raw == raw,
    {
        CoudeConfig { raw }
    }

    /// Coins a new player starts with. Setting `starting_coins`, default 200.
    pub fn starting_coins(&self) -> (r: i64)
        ensures
            r == u64_setting(&self.raw, "starting_coins"@, 200) as i64,
    {
        config_u64(&self.raw, "starting_coins", 200) as i64
    }

    /// Smallest bet of a challenge. Setting `min_bet`, default 1.
    pub fn min_bet(&self) -> (r: i64)
        ensures
            r == u64_setting(&self.raw, "min_bet"@, 1) as i64,
    {
        config_u64(&self.raw, "min_bet", 1) as i64
    }

    /// Bet used when a challenge names none. Setting `default_bet`, default 10.
    pub fn default_bet(&self) -> (r: i64)
        ensures
            r == u64_setting(&self.raw, "default_bet"@, 10) as i64,
    {
        config_u64(&self.raw, "default_bet", 10) as i64
    }

    /// Chance (percent) of a chaos event in a fight. Setting `chaos_chance`, default 18.
    pub fn chaos_chance(&self) -> (r: u32)
        ensures
            r == u64_setting(&self.raw, "chaos_chance"@, 18) as u32,
    {
        config_u64(&self.raw, "chaos_chance", 18) as u32
    }

    /// Largest casino bet. Setting `casino_max_bet`, default 500.
    pub fn casino_max_bet(&self) -> (r: i64)
        ensures
            r == u64_setting(&self.raw, "casino_max_bet"@, 500) as i64,
    {
        config_u64(&self.raw, "casino_max_bet", 500) as i64
    }

    /// Seconds before an unanswered challenge expires. Setting `combat_expire_secs`, default 86400.
    pub fn combat_expire_secs(&self) -> (r: u64)
        ensures
            r == u64_setting(&self.raw, "combat_expire_secs"@, 86400),
    {
        config_u64(&self.raw, "combat_expire_secs", 86400)
    }

    /// Seconds between two casino games. Setting `casino_cooldown_secs`, default 300.
    pub fn casino_cooldown_secs(&self) -> (r: i64)
        ensures
            r == u64_setting(&self.raw, "casino_cooldown_secs"@, 300) as i64,
    {
        config_u64(&self.raw, "casino_cooldown_secs", 300) as i64
    }

    /// Casino games per day (0 means no limit). Setting `casino_max_daily`, default 10.
    pub fn casino_max_daily(&self) -> (r: u64)
        ensures
            r == u64_setting(&self.raw, "casino_max_daily"@, 10),
    {
        config_u64(&self.raw, "casino_max_daily", 10)
    }

    /// Casino gain per day (0 means no limit). Setting `casino_max_daily_gain`, default 5000.
    pub fn casino_max_daily_gain(&self) -> (r: i64)
        ensures
            r == u64_setting(&self.raw, "casino_max_daily_gain"@, 5000) as i64,
    {
        config_u64(&self.raw, "casino_max_daily_gain", 5000) as i64
    }

    /// Success chance (percent) of a theft. Setting `steal_success_rate`, default 30.
    pub fn steal_success_rate(&self) -> (r: u32)
        ensures
            r == u64_setting(&self.raw, "steal_success_rate"@, 30) as u32,
    {
        config_u64(&self.raw, "steal_success_rate", 30) as u32
    }

    /// Seconds between two thefts. Setting `steal_cooldown_secs`, default 1800.
    pub fn steal_cooldown_secs(&self) -> (r: i64)
        ensures
            r == u64_setting(&self.raw, "steal_cooldown_secs"@, 1800) as i64,
    {
        config_u64(&self.raw, "steal_cooldown_secs", 1800) as i64
    }

    /// Thefts per day (0 means no limit). Setting `steal_max_daily`, default 5.
    pub fn steal_max_daily(&self) -> (r: u64)
        ensures
            r == u64_setting(&self.raw, "steal_max_daily"@, 5),
    {
        config_u64(&self.raw, "steal_max_daily", 5)
    }

    /// Base price of an insurance. Setting `insurance_cost`, default 50.
    pub fn insurance_cost(&self) -> (r: i64)
        ensures
            r == u64_setting(&self.raw, "insurance_cost"@, 50) as i64,
    {
        config_u64(&self.raw, "insurance_cost", 50) as i64
    }

    /// Length of an insurance in seconds. Setting `insurance_duration_secs`, default 3600.
    pub fn insurance_duration_secs(&self) -> (r: i64)
        ensures
            r == u64_setting(&self.raw, "insurance_duration_secs"@, 3600) as i64,
    {
        config_u64(&self.raw, "insurance_duration_secs", 3600) as i64
    }

    /// Chance (percent) that an insurance is a scam. Setting `insurance_scam_rate`, default 5.
    pub fn insurance_scam_rate(&self) -> (r: u32)
        ensures
            r == u64_setting(&self.raw, "insurance_scam_rate"@, 5) as u32,
    {
        config_u64(&self.raw, "insurance_scam_rate", 5) as u32
    }

    /// Refusals after which a player is a notorious coward. Setting `cowardice_threshold`, default 5.
    pub fn cowardice_threshold(&self) -> (r: i32)
        ensures
            r == u64_setting(&self.raw, "cowardice_threshold"@, 5) as i32,
    {
        config_u64(&self.raw, "cowardice_threshold", 5) as i32
    }

    /// Gain reduction of cowards, in percent. Setting `cowardice_penalty`, default 20.
    pub fn cowardice_penalty_percent(&self) -> (r: u64)
        ensures
            r == u64_setting(&self.raw, "cowardice_penalty"@, 20),
    {
        config_u64(&self.raw, "cowardice_penalty", 20)
    }

    /// Part of the bet lost by refusing, in percent. Setting `refusal_penalty`, default 20.
    pub fn refusal_penalty_percent(&self) -> (r: u64)
        ensures
            r == u64_setting(&self.raw, "refusal_penalty"@, 20),
    {
        config_u64(&self.raw, "refusal_penalty", 20)
    }

    /// Part of the bet lost by cancelling, in percent. Setting `cancel_penalty`, default 5.
    pub fn cancel_penalty_percent(&self) -> (r: u64)
        ensures
            r == u64_setting(&self.raw, "cancel_penalty"@, 5),
    {
        config_u64(&self.raw, "cancel_penalty", 5)
    }

    /// Seconds during which bets on an accepted fight are open. Setting `bet_delay_secs`, default 300.
    pub fn bet_delay_secs(&self) -> (r: u64)
        ensures
            r == u64_setting(&self.raw, "bet_delay_secs"@, 300),
    {
        config_u64(&self.raw, "bet_delay_secs", 300)
    }

    /// Daily chaos share, in percent. Setting `daily_chaos_percent`, default 20.
    pub fn daily_chaos_percent_value(&self) -> (r: u64)
        ensures
            r == u64_setting(&self.raw, "daily_chaos_percent"@, 20),
    {
        config_u64(&self.raw, "daily_chaos_percent", 20)
    }

    /// Gain multiplier during happy hour. Setting `happy_hour_multiplier`, default 2.
    pub fn happy_hour_multiplier(&self) -> (r: i64)
        ensures
            r == u64_setting(&self.raw, "happy_hour_multiplier"@, 2) as i64,
    {
        config_u64(&self.raw, "happy_hour_multiplier", 2) as i64
    }

    /// Price of a class change. Setting `class_change_cost`, default 500.
    pub fn class_change_cost(&self) -> (r: i64)
        ensures
            r == u64_setting(&self.raw, "class_change_cost"@, 500) as i64,
    {
        config_u64(&self.raw, "class_change_cost", 500) as i64
    }

    /// Smallest gift. Setting `gift_min_coins`, default 10.
    pub fn gift_min_coins(&self) -> (r: i64)
        ensures
            r == u64_setting(&self.raw, "gift_min_coins"@, 10) as i64,
    {
        config_u64(&self.raw, "gift_min_coins", 10) as i64
    }

    /// Coins a giver must keep after a gift. Setting `gift_min_coins_after`, default 50.
    pub fn gift_min_coins_after(&self) -> (r: i64)
        ensures
            r == u64_setting(&self.raw, "gift_min_coins_after"@, 50) as i64,
    {
        config_u64(&self.raw, "gift_min_coins_after", 50) as i64
    }

    /// Tax on gifts, in percent. Setting `gift_tax_percent`, default 10.
    pub fn gift_tax_percent(&self) -> (r: u64)
        ensures
            r == u64_setting(&self.raw, "gift_tax_percent"@, 10),
    {
        config_u64(&self.raw, "gift_tax_percent", 10)
    }

    /// Seconds between two gifts. Setting `gift_cooldown_secs`, default 3600.
    pub fn gift_cooldown_secs(&self) -> (r: i64)
        ensures
            r == u64_setting(&self.raw, "gift_cooldown_secs"@, 3600) as i64,
    {
        config_u64(&self.raw, "gift_cooldown_secs", 3600) as i64
    }

    /// Price of the fake heist alert prank. Setting `prank_braquage_cost`, default 100.
    pub fn prank_braquage_cost(&self) -> (r: i64)
        ensures
            r == u64_setting(&self.raw, "prank_braquage_cost"@, 100) as i64,
    {
        config_u64(&self.raw, "prank_braquage_cost", 100) as i64
    }

    /// Price of the fake scoop prank. Setting `prank_scoop_cost`, default 200.
    pub fn prank_scoop_cost(&self) -> (r: i64)
        ensures
            r == u64_setting(&self.raw, "prank_scoop_cost"@, 200) as i64,
    {
        config_u64(&self.raw, "prank_scoop_cost", 200) as i64
    }

    /// Price of the fake call prank. Setting `prank_appel_cost`, default 50.
    pub fn prank_appel_cost(&self) -> (r: i64)
        ensures
            r == u64_setting(&self.raw, "prank_appel_cost"@, 50) as i64,
    {
        config_u64(&self.raw, "prank_appel_cost", 50) as i64
    }

    /// Price of a stat reset. Setting `reset_stats_cost`, default 300.
    pub fn reset_stats_cost(&self) -> (r: i64)
        ensures
            r == u64_setting(&self.raw, "reset_stats_cost"@, 300) as i64,
    {
        config_u64(&self.raw, "reset_stats_cost", 300) as i64
    }

    /// Hours between two rests. Setting `repos_cooldown_hours`, default 12.
    pub fn repos_cooldown_hours(&self) -> (r: i64)
        ensures
            r == u64_setting(&self.raw, "repos_cooldown_hours"@, 12) as i64,
    {
        config_u64(&self.raw, "repos_cooldown_hours", 12) as i64
    }

    /// Displayed regeneration rate below 25 % HP. Setting `hp_regen_rate_0_25`, default 100.
    pub fn hp_regen_rate_0_25_value(&self) -> (r: u64)
        ensures
            r == u64_setting(&self.raw, "hp_regen_rate_0_25"@, 100),
    {
        config_u64(&self.raw, "hp_regen_rate_0_25", 100)
    }

    /// Displayed regeneration rate from 25 to 50 % HP. Setting `hp_regen_rate_25_50`, default 50.
    pub fn hp_regen_rate_25_50_value(&self) -> (r: u64)
        ensures
            r == u64_setting(&self.raw, "hp_regen_rate_25_50"@, 50),
    {
        config_u64(&self.raw, "hp_regen_rate_25_50", 50)
    }

    /// Displayed regeneration rate from 50 to 75 % HP. Setting `hp_regen_rate_50_75`, default 30.
    pub fn hp_regen_rate_50_75_value(&self) -> (r: u64)
        ensures
            r == u64_setting(&self.raw, "hp_regen_rate_50_75"@, 30),
    {
        config_u64(&self.raw, "hp_regen_rate_50_75", 30)
    }

    /// Displayed regeneration rate above 75 % HP. Setting `hp_regen_rate_75_100`, default 10.
    pub fn hp_regen_rate_75_100_value(&self) -> (r: u64)
        ensures
            r == u64_setting(&self.raw, "hp_regen_rate_75_100"@, 10),
    {
        config_u64(&self.raw, "hp_regen_rate_75_100", 10)
    }

    /// Attacker HP (percent) needed for a surprise attack; 0 disables. Setting `surprise_min_hp_percent`, default 40.
    pub fn surprise_min_hp_percent(&self) -> (r: u64)
        ensures
            r == u64_setting(&self.raw, "surprise_min_hp_percent"@, 40),
    {
        config_u64(&self.raw, "surprise_min_hp_percent", 40)
    }

    /// Thief boosts active at once (0 means no limit). Setting `steal_max_active_boosts`, default 3.
    pub fn steal_max_active_boosts(&self) -> (r: u64)
        ensures
            r == u64_setting(&self.raw, "steal_max_active_boosts"@, 3),
    {
        config_u64(&self.raw, "steal_max_active_boosts", 3)
    }

    /// Coins (percent) a failed thief loses. Setting `steal_failure_penalty_pct`, default 20.
    pub fn steal_failure_penalty_pct(&self) -> (r: u64)
        ensures
            r == u64_setting(&self.raw, "steal_failure_penalty_pct"@, 20),
    {
        config_u64(&self.raw, "steal_failure_penalty_pct", 20)
    }

    /// Tools (percent) used up by a successful heist. Setting `braquage_tools_consumed_success_pct`, default 50.
    pub fn braquage_tools_consumed_success_pct(&self) -> (r: u64)
        ensures
            r == u64_setting(&self.raw, "braquage_tools_consumed_success_pct"@, 50),
    {
        config_u64(&self.raw, "braquage_tools_consumed_success_pct", 50)
    }

    /// Tools (percent) used up by a failed heist. Setting `braquage_tools_consumed_fail_pct`, default 25.
    pub fn braquage_tools_consumed_fail_pct(&self) -> (r: u64)
        ensures
            r == u64_setting(&self.raw, "braquage_tools_consumed_fail_pct"@, 25),
    {
        config_u64(&self.raw, "braquage_tools_consumed_fail_pct", 25)
    }

    /// Attack bonus (percent) of Rage. Setting `rage_atk_bonus_pct`, default 40.
    pub fn rage_atk_bonus_pct(&self) -> (r: u64)
        ensures
            r == u64_setting(&self.raw, "rage_atk_bonus_pct"@, 40),
    {
        config_u64(&self.raw, "rage_atk_bonus_pct", 40)
    }

    /// Defence malus (percent) of Rage. Setting `rage_def_malus_pct`, default 15.
    pub fn rage_def_malus_pct(&self) -> (r: u64)
        ensures
            r == u64_setting(&self.raw, "rage_def_malus_pct"@, 15),
    {
        config_u64(&self.raw, "rage_def_malus_pct", 15)
    }

    /// Defence malus (percent) of a treacherous hit. Setting `coup_traitre_def_malus_pct`, default 40.
    pub fn coup_traitre_def_malus_pct(&self) -> (r: u64)
        ensures
            r == u64_setting(&self.raw, "coup_traitre_def_malus_pct"@, 40),
    {
        config_u64(&self.raw, "coup_traitre_def_malus_pct", 40)
    }

    /// Defence bonus (percent) of a shield. Setting `bouclier_def_bonus_pct`, default 20.
    pub fn bouclier_def_bonus_pct(&self) -> (r: u64)
        ensures
            r == u64_setting(&self.raw, "bouclier_def_bonus_pct"@, 20),
    {
        config_u64(&self.raw, "bouclier_def_bonus_pct", 20)
    }

    /// HP lost per round under poison. Setting `poison_damage_per_round`, default 5.
    pub fn poison_damage_per_round(&self) -> (r: u64)
        ensures
            r == u64_setting(&self.raw, "poison_damage_per_round"@, 5),
    {
        config_u64(&self.raw, "poison_damage_per_round", 5)
    }

    /// Length in seconds of a one-day insurance. Setting `assurance_tier_day_secs`, default 86400.
    pub fn assurance_tier_day_secs(&self) -> (r: i64)
        ensures
            r == u64_setting(&self.raw, "assurance_tier_day_secs"@, 86400) as i64,
    {
        config_u64(&self.raw, "assurance_tier_day_secs", 86400) as i64
    }

    /// Price multiplier of a one-day insurance. Setting `assurance_tier_day_mult`, default 1.
    pub fn assurance_tier_day_mult(&self) -> (r: i64)
        ensures
            r == u64_setting(&self.raw, "assurance_tier_day_mult"@, 1) as i64,
    {
        config_u64(&self.raw, "assurance_tier_day_mult", 1) as i64
    }

    /// Length in seconds of a one-week insurance. Setting `assurance_tier_week_secs`, default 604800.
    pub fn assurance_tier_week_secs(&self) -> (r: i64)
        ensures
            r == u64_setting(&self.raw, "assurance_tier_week_secs"@, 604800) as i64,
    {
        config_u64(&self.raw, "assurance_tier_week_secs", 604800) as i64
    }

    /// Price multiplier of a one-week insurance. Setting `assurance_tier_week_mult`, default 6.
    pub fn assurance_tier_week_mult(&self) -> (r: i64)
        ensures
            r == u64_setting(&self.raw, "assurance_tier_week_mult"@, 6) as i64,
    {
        config_u64(&self.raw, "assurance_tier_week_mult", 6) as i64
    }

    /// Length in seconds of a one-month insurance. Setting `assurance_tier_month_secs`, default 2592000.
    pub fn assurance_tier_month_secs(&self) -> (r: i64)
        ensures
            r == u64_setting(&self.raw, "assurance_tier_month_secs"@, 2592000) as i64,
    {
        config_u64(&self.raw, "assurance_tier_month_secs", 2592000) as i64
    }

    /// Price multiplier of a one-month insurance. Setting `assurance_tier_month_mult`, default 22.
    pub fn assurance_tier_month_mult(&self) -> (r: i64)
        ensures
            r == u64_setting(&self.raw, "assurance_tier_month_mult"@, 22) as i64,
    {
        config_u64(&self.raw, "assurance_tier_month_mult", 22) as i64
    }

    /// The game is enabled in this guild. Setting `enabled`, default true.
    pub fn enabled(&self) -> (r: bool)
        ensures
            r == bool_setting(&self.raw, "enabled"@, true),
    {
        config_bool(&self.raw, "enabled", true)
    }

    /// Chaos events are enabled. Setting `chaos_enabled`, default true.
    pub fn chaos_enabled(&self) -> (r: bool)
        ensures
            r == bool_setting(&self.raw, "chaos_enabled"@, true),
    {
        config_bool(&self.raw, "chaos_enabled", true)
    }

    /// The casino is enabled. Setting `casino_enabled`, default true.
    pub fn casino_enabled(&self) -> (r: bool)
        ensures
            r == bool_setting(&self.raw, "casino_enabled"@, true),
    {
        config_bool(&self.raw, "casino_enabled", true)
    }

    /// Thefts are enabled. Setting `steal_enabled`, default true.
    pub fn steal_enabled(&self) -> (r: bool)
        ensures
            r == bool_setting(&self.raw, "steal_enabled"@, true),
    {
        config_bool(&self.raw, "steal_enabled", true)
    }

    /// The daily chaos is enabled. Setting `daily_chaos_enabled`, default true.
    pub fn daily_chaos_enabled(&self) -> (r: bool)
        ensures
            r == bool_setting(&self.raw, "daily_chaos_enabled"@, true),
    {
        config_bool(&self.raw, "daily_chaos_enabled", true)
    }

    /// A defender may answer a surprise attack with an explosion. Setting `surprise_allow_defender_counter`, default true.
    pub fn surprise_allow_defender_counter(&self) -> (r: bool)
        ensures
            r == bool_setting(&self.raw, "surprise_allow_defender_counter"@, true),
    {
        config_bool(&self.raw, "surprise_allow_defender_counter", true)
    }

    /// Channel id configured under `channel_combats`, `None` when unset or empty.
    pub fn channel_combats(&self) -> (r: Option<String>)
        ensures
            opt_text_matches(r, channel_spec(&self.raw, "channel_combats"@)),
    {
        self.channel_opt("channel_combats")
    }

    /// Channel id configured under `channel_leaderboard`, `None` when unset or empty.
    pub fn channel_leaderboard(&self) -> (r: Option<String>)
        ensures
            opt_text_matches(r, channel_spec(&self.raw, "channel_leaderboard"@)),
    {
        self.channel_opt("channel_leaderboard")
    }

    /// Channel id configured under `channel_profil`, `None` when unset or empty.
    pub fn channel_profil(&self) -> (r: Option<String>)
        ensures
            opt_text_matches(r, channel_spec(&self.raw, "channel_profil"@)),
    {
        self.channel_opt("channel_profil")
    }

    /// Channel id configured under `channel_activites`, `None` when unset or empty.
    pub fn channel_activites(&self) -> (r: Option<String>)
        ensures
            opt_text_matches(r, channel_spec(&self.raw, "channel_activites"@)),
    {
        self.channel_opt("channel_activites")
    }

    /// Channel id configured under `channel_announcements`, `None` when unset or empty.
    pub fn channel_announcements(&self) -> (r: Option<String>)
        ensures
            opt_text_matches(r, channel_spec(&self.raw, "channel_announcements"@)),
    {
        self.channel_opt("channel_announcements")
    }

    /// Channel id configured under `channel_notifications`, `None` when unset or empty.
    pub fn channel_notifications(&self) -> (r: Option<String>)
        ensures
            opt_text_matches(r, channel_spec(&self.raw, "channel_notifications"@)),
    {
        self.channel_opt("channel_notifications")
    }

    /// Channel of the weekly tournament's results: `tournament_channel_id`,
    /// else `channel_activites`; `None` when neither is set.
    pub fn channel_tournament(&self) -> (r: Option<String>)
        ensures
            opt_text_matches(
                r,
                match channel_spec(&self.raw, "tournament_channel_id"@) {
                    Some(v) => Some(v),
                    None => channel_spec(&self.raw, "channel_activites"@),
                },
            ),
    {
        match self.channel_opt("tournament_channel_id") {
            Some(c) => Some(c),
            None => self.channel_activites(),
        }
    }

    /// Largest bet of a challenge. Setting `max_bet`, default 0; 0 means
    /// no limit (`i64::MAX`).
    pub fn max_bet(&self) -> (r: i64)
        ensures
            r == if u64_setting(&self.raw, "max_bet"@, 0) as i64 == 0 {
                i64::MAX
            } else {
                u64_setting(&self.raw, "max_bet"@, 0) as i64
            },
    {
        let v = config_u64(&self.raw, "max_bet", 0) as i64;
        if v == 0 {
            i64::MAX
        } else {
            v
        }
    }

    /// Price of a shop item. Setting `shop_<item>_price`, with a default
    /// per item (100 for an unknown item).
    pub fn shop_price(&self, item_key: &str) -> (r: i64)
        ensures
            r == u64_setting(&self.raw, shop_key(item_key@), shop_default(item_key@)) as i64,
    {
        let mut key = String::new();
        push_str(&mut key, "shop_");
        push_str(&mut key, item_key);
        push_str(&mut key, "_price");
        let default: u64 =
        if str_eq(item_key, "potion_soin") {
            80
        } else if str_eq(item_key, "rage") {
            100
        } else if str_eq(item_key, "mindgame") {
            150
        } else if str_eq(item_key, "antidote") {
            150
        } else if str_eq(item_key, "explosion") {
            200
        } else if str_eq(item_key, "potion_majeure") {
            200
        } else if str_eq(item_key, "double_coup") {
            250
        } else if str_eq(item_key, "bouclier") {
            250
        } else if str_eq(item_key, "surprise") {
            300
        } else if str_eq(item_key, "poison") {
            300
        } else if str_eq(item_key, "coup_traitre") {
            350
        } else if str_eq(item_key, "masque_braquage") {
            100
        } else if str_eq(item_key, "pied_de_biche") {
            150
        } else if str_eq(item_key, "crochet_vault") {
            220
        } else if str_eq(item_key, "plan_coffre") {
            320
        } else if str_eq(item_key, "fumigene_diversion") {
            450
        } else if str_eq(item_key, "explosif") {
            600
        } else if str_eq(item_key, "hacker_kit") {
            800
        } else if str_eq(item_key, "drone_espion") {
            1000
        } else if str_eq(item_key, "equipe_de_pros") {
            1500
        } else {
            100
        };
        config_u64(&self.raw, key.as_str(), default) as i64
    }

    /// Channel id of the log channel, `None` when unset or empty.
    pub fn log_channel_id(&self) -> (r: Option<String>)
        ensures
            opt_text_matches(r, channel_spec(&self.raw, "log_channel_id"@)),
    {
        self.channel_opt("log_channel_id")
    }

    /// Text setting `key` as a channel id, `None` when unset or empty.
    fn channel_opt(&self, key: &str) -> (r: Option<String>)
        ensures
            opt_text_matches(r, channel_spec(&self.raw, key@)),
    {
        let v = config_or(&self.raw, key, "");
        proof {
            reveal_strlit("");
        }
        assert(""@ =~= Seq::<char>::empty());
        if v.as_str().is_empty() {
            None
        } else {
            Some(v)
        }
    }

    /// Aggregation mode of a double hit. Setting `double_coup_mode`,
    /// default `median`.
    pub fn double_coup_mode(&self) -> (m: DoubleCoupMode)
        ensures
            m == parse_mode_spec(text_setting(&self.raw, "double_coup_mode"@, "median"@)),
    {
        let raw = config_or(&self.raw, "double_coup_mode", "median");
        DoubleCoupMode::parse(raw.as_str())
    }
}

} // verus!
