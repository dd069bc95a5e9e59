use sentinel_bot::challenge::{
    confirm_end_text, ConfirmAction, ConfirmEnd, ConfirmEvent, ConfirmFlow, ConfirmRefusal, ConfirmStage,
};

fn run(mut f: ConfirmFlow, events: &[ConfirmEvent]) -> (ConfirmFlow, Vec<ConfirmAction>) {
    let mut actions = Vec::new();
    for e in events {
        let (g, a) = f.step(*e);
        f = g;
        actions.push(a);
    }
    (f, actions)
}

fn healthy(coins: i64) -> ConfirmEvent {
    ConfirmEvent::Attacker { coins, hp_current: Some(80), hp_max: Some(100) }
}

#[test]
fn special_attack_item_used_after_checks_then_combat() {
    let f = ConfirmFlow::start(50, "rage", true);
    let (f, actions) = run(
        f,
        &[
            ConfirmEvent::Begin,
            healthy(100),
            ConfirmEvent::PendingChecked { pending: false },
            ConfirmEvent::DefenderFetched,
            ConfirmEvent::ItemChecked { owned: true },
            ConfirmEvent::ItemUsed,
            ConfirmEvent::CombatCreated,
            ConfirmEvent::EventsFetched { bloodbath: false },
        ],
    );
    assert_eq!(
        actions,
        vec![
            ConfirmAction::FetchAttacker,
            ConfirmAction::FetchPending,
            ConfirmAction::FetchDefender,
            ConfirmAction::CheckItem,
            ConfirmAction::UseItem,
            ConfirmAction::CreateCombat,
            ConfirmAction::FetchEvents,
            ConfirmAction::PostChallenge,
        ]
    );
    assert_eq!(f.stage, ConfirmStage::Done);
    assert!(f.item_used);
}

#[test]
fn no_special_goes_straight_to_combat() {
    let (_, actions) = run(
        ConfirmFlow::start(50, "-", true),
        &[ConfirmEvent::Begin, healthy(100), ConfirmEvent::PendingChecked { pending: false }, ConfirmEvent::DefenderFetched],
    );
    assert_eq!(actions[3], ConfirmAction::CreateCombat);
}

#[test]
fn refusals_end_before_the_item_is_used() {
    let (_, a) = run(ConfirmFlow::start(50, "rage", true), &[ConfirmEvent::Begin, healthy(10)]);
    assert_eq!(
        a[1],
        ConfirmAction::Finish(ConfirmEnd::Refused(ConfirmRefusal::BalanceTooLow { coins: 10, mise: 50 }))
    );
    let (_, a) = run(
        ConfirmFlow::start(50, "rage", true),
        &[ConfirmEvent::Begin, ConfirmEvent::Attacker { coins: 100, hp_current: Some(5), hp_max: Some(100) }],
    );
    assert_eq!(
        a[1],
        ConfirmAction::Finish(ConfirmEnd::Refused(ConfirmRefusal::LowHp { current: 5, max: 100, percent: 5 }))
    );
    let (_, a) = run(
        ConfirmFlow::start(50, "rage", false),
        &[
            ConfirmEvent::Begin,
            healthy(100),
            ConfirmEvent::PendingChecked { pending: false },
            ConfirmEvent::DefenderFetched,
            ConfirmEvent::ItemChecked { owned: true },
        ],
    );
    assert_eq!(a[4], ConfirmAction::Finish(ConfirmEnd::Refused(ConfirmRefusal::NoCombatChannel)));
    let (_, a) = run(
        ConfirmFlow::start(50, "rage", true),
        &[
            ConfirmEvent::Begin,
            healthy(100),
            ConfirmEvent::PendingChecked { pending: false },
            ConfirmEvent::DefenderFetched,
            ConfirmEvent::ItemChecked { owned: false },
        ],
    );
    assert_eq!(a[4], ConfirmAction::Finish(ConfirmEnd::Refused(ConfirmRefusal::ItemGone)));
}

#[test]
fn surprise_resolves_or_falls_back_on_a_counter() {
    let prefix = [
        ConfirmEvent::Begin,
        healthy(100),
        ConfirmEvent::PendingChecked { pending: false },
        ConfirmEvent::DefenderFetched,
        ConfirmEvent::ItemChecked { owned: true },
        ConfirmEvent::ItemUsed,
        ConfirmEvent::CombatCreated,
    ];
    let (f, a) = run(ConfirmFlow::start(50, "surprise", true), &prefix);
    assert_eq!(a[6], ConfirmAction::ResolveSurprise);
    let (_, a2) = run(f, &[ConfirmEvent::Resolved]);
    assert_eq!(a2[0], ConfirmAction::Finish(ConfirmEnd::SurpriseResolved));
    let (_, a3) = run(f, &[ConfirmEvent::DefenderCanCounter, ConfirmEvent::EventsFetched { bloodbath: true }, ConfirmEvent::Resolved]);
    assert_eq!(
        a3,
        vec![
            ConfirmAction::FetchEvents,
            ConfirmAction::ResolveBloodbath,
            ConfirmAction::Finish(ConfirmEnd::BloodbathResolved)
        ]
    );
}

#[test]
fn failed_calls_end_the_flow() {
    let (_, a) = run(ConfirmFlow::start(50, "-", true), &[ConfirmEvent::Begin, ConfirmEvent::ApiFailed]);
    assert_eq!(a[1], ConfirmAction::Finish(ConfirmEnd::ApiError));
    let (f, a) = run(ConfirmFlow::start(50, "-", true), &[ConfirmEvent::ItemUsed]);
    assert_eq!(a[0], ConfirmAction::Ignore);
    assert_eq!(f.stage, ConfirmStage::Start);
    assert_eq!(confirm_end_text(ConfirmEnd::CombatError, "", "boom"), "Erreur creation combat : boom");
    assert_eq!(confirm_end_text(ConfirmEnd::ChallengePosted, "", ""), "\u{2705} Defi envoye dans le salon combats !");
    assert_eq!(
        confirm_end_text(ConfirmEnd::Refused(ConfirmRefusal::ItemGone), "rage", ""),
        "Tu n'as plus l'objet **rage** dans ton inventaire !"
    );
}
