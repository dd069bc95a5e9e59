use sentinel_bot::games::{game_ping, normalize_mentions};

#[test]
fn pings_other_subscribers() {
    let subs = vec!["1".to_string(), "2".to_string(), "3".to_string()];
    assert_eq!(game_ping("Valorant", &subs, "2"), Some("**Valorant** mentionne ! <@1> <@3>".to_string()));
}

#[test]
fn no_ping_for_the_author_alone() {
    assert_eq!(game_ping("Valorant", &vec!["2".to_string()], "2"), None);
    assert_eq!(game_ping("Valorant", &vec![], "2"), None);
}

#[test]
fn mentions_sorted_and_deduplicated_ignoring_case() {
    let input = vec!["Fortnite".to_string(), "fortnite".to_string(), "Apex".to_string()];
    assert_eq!(normalize_mentions(&input), vec!["Apex".to_string(), "Fortnite".to_string()]);
}

#[test]
fn no_mentions_nothing_to_notify() {
    assert!(normalize_mentions(&vec![]).is_empty());
}
