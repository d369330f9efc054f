use show_me::cache::CacheSlot;
use show_me::cache::RefreshAction;
use show_me::cache::RefreshEvent;
use show_me::cache::RefreshPhase;
use show_me::cache::Refresher;
use show_me::cache::DEFAULT_INTERVAL;
use show_me::errors::ShowMeErrors;

fn failed() -> RefreshEvent<Vec<u32>> {
    RefreshEvent::Failed { error: ShowMeErrors::PingApiError("down".to_string()) }
}

#[test]
fn a_slot_holds_what_was_published_last() {
    let mut slot = CacheSlot::new("scripts".to_string(), vec![1u32]);
    assert_eq!(slot.name(), "scripts");
    assert_eq!(slot.read(), &vec![1]);
    assert_eq!(slot.publish(vec![2, 3]), vec![1]);
    assert_eq!(slot.read(), &vec![2, 3]);
    assert_eq!(slot.name(), "scripts");
}

#[test]
fn a_full_cycle_publishes_and_sleeps() {
    let mut slot = CacheSlot::new("scripts".to_string(), vec![0u32]);
    let mut refresher = Refresher::new(DEFAULT_INTERVAL);
    assert_eq!(DEFAULT_INTERVAL, 30);
    assert_eq!(refresher.current_phase(), RefreshPhase::Sleeping);

    assert!(matches!(refresher.step(&mut slot, RefreshEvent::Tick), RefreshAction::AcquireToken));
    assert_eq!(refresher.current_phase(), RefreshPhase::NeedToken);

    let action = refresher.step(&mut slot, RefreshEvent::Token { token: "t".to_string() });
    match action {
        RefreshAction::Fetch { token } => assert_eq!(token, "t"),
        other => panic!("unexpected action {:?}", other),
    }
    assert_eq!(refresher.current_phase(), RefreshPhase::Fetching);
    // The refresh under way is invisible to readers.
    assert_eq!(slot.read(), &vec![0]);

    let action = refresher.step(&mut slot, RefreshEvent::Fetched { snapshot: vec![7, 8] });
    assert!(matches!(action, RefreshAction::Sleep { seconds: 30, failure: None }));
    assert_eq!(refresher.current_phase(), RefreshPhase::Sleeping);
    assert_eq!(slot.read(), &vec![7, 8]);
}

#[test]
fn two_failed_fetches_leave_the_last_good_snapshot() {
    let mut slot = CacheSlot::new("scripts".to_string(), vec![0u32]);
    let mut refresher = Refresher::new(5);
    refresher.step(&mut slot, RefreshEvent::Tick);
    refresher.step(&mut slot, RefreshEvent::Token { token: "t".to_string() });
    refresher.step(&mut slot, RefreshEvent::Fetched { snapshot: vec![1, 2, 3] });

    for _ in 0..2 {
        assert!(matches!(
            refresher.step(&mut slot, RefreshEvent::Tick),
            RefreshAction::AcquireToken
        ));
        assert!(matches!(
            refresher.step(&mut slot, RefreshEvent::Token { token: "t".to_string() }),
            RefreshAction::Fetch { .. }
        ));
        let action = refresher.step(&mut slot, failed());
        assert!(matches!(
            action,
            RefreshAction::Sleep { seconds: 5, failure: Some(ShowMeErrors::PingApiError(_)) }
        ));
        assert_eq!(refresher.current_phase(), RefreshPhase::Sleeping);
        assert_eq!(slot.read(), &vec![1, 2, 3]);
    }
}

#[test]
fn a_failed_credential_ends_the_cycle_and_the_next_tick_retries() {
    let mut slot = CacheSlot::new("scripts".to_string(), vec![9u32]);
    let mut refresher = Refresher::new(30);
    refresher.step(&mut slot, RefreshEvent::Tick);
    let action = refresher.step(&mut slot, failed());
    assert!(matches!(action, RefreshAction::Sleep { seconds: 30, failure: Some(_) }));
    assert_eq!(slot.read(), &vec![9]);
    assert!(matches!(refresher.step(&mut slot, RefreshEvent::Tick), RefreshAction::AcquireToken));
}

#[test]
fn a_snapshot_that_is_not_awaited_is_not_published() {
    let mut slot = CacheSlot::new("scripts".to_string(), vec![9u32]);
    let mut refresher = Refresher::new(30);
    let action = refresher.step(&mut slot, RefreshEvent::Fetched { snapshot: vec![1] });
    assert!(matches!(action, RefreshAction::Sleep { seconds: 30, failure: None }));
    assert_eq!(slot.read(), &vec![9]);

    refresher.step(&mut slot, RefreshEvent::Tick);
    let action = refresher.step(&mut slot, RefreshEvent::Fetched { snapshot: vec![2] });
    assert!(matches!(action, RefreshAction::Sleep { .. }));
    assert_eq!(refresher.current_phase(), RefreshPhase::Sleeping);
    assert_eq!(slot.read(), &vec![9]);
}

#[test]
fn an_event_out_of_turn_ends_the_cycle() {
    let mut slot = CacheSlot::new("scripts".to_string(), vec![9u32]);
    let mut refresher = Refresher::new(11);
    let action = refresher.step(&mut slot, RefreshEvent::Token { token: "t".to_string() });
    assert!(matches!(action, RefreshAction::Sleep { seconds: 11, failure: None }));
    refresher.step(&mut slot, RefreshEvent::Tick);
    refresher.step(&mut slot, RefreshEvent::Token { token: "t".to_string() });
    let action = refresher.step(&mut slot, RefreshEvent::Tick);
    assert!(matches!(action, RefreshAction::Sleep { seconds: 11, failure: None }));
    assert_eq!(refresher.current_phase(), RefreshPhase::Sleeping);
    assert_eq!(slot.read(), &vec![9]);
}
