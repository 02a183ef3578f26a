use kafka_dashboard::dashboard::Action;
use kafka_dashboard::dashboard::DashboardState;
use kafka_dashboard::dashboard::Event;
use kafka_dashboard::dashboard::Key;
use kafka_dashboard::dashboard::MenuItem;
use kafka_dashboard::errors::DashboardError;
use kafka_dashboard::kafka_client::Partition;
use kafka_dashboard::kafka_client::TopicData;

fn topic(name: &str) -> TopicData {
    TopicData { name: name.to_string(), partitions: Vec::new() }
}

fn state_with_topics(names: &[&str]) -> DashboardState {
    let mut s = DashboardState::new();
    let catalog: Vec<TopicData> = names.iter().map(|n| topic(n)).collect();
    s.apply_refresh(Ok(catalog));
    s
}

#[test]
fn startup_state_is_empty() {
    let s = DashboardState::new();
    assert_eq!(s.catalog.len(), 0);
    assert_eq!(s.selected, 0);
    assert_eq!(s.messages.len(), 0);
    assert_eq!(s.active_tab, MenuItem::Topics);
    assert_eq!(MenuItem::Topics.tab_index(), 0);
}

#[test]
fn navigate_down_wraps_at_last_index() {
    let mut s = state_with_topics(&["a", "b", "c"]);
    s.navigate_down();
    assert_eq!(s.selected, 1);
    s.navigate_down();
    assert_eq!(s.selected, 2);
    s.navigate_down();
    assert_eq!(s.selected, 0);
}

#[test]
fn navigate_up_wraps_at_index_zero() {
    let mut s = state_with_topics(&["a", "b", "c"]);
    s.navigate_up();
    assert_eq!(s.selected, 2);
    s.navigate_up();
    assert_eq!(s.selected, 1);
}

#[test]
fn navigation_on_single_topic_is_a_no_op() {
    let mut s = state_with_topics(&["only"]);
    s.navigate_down();
    assert_eq!(s.selected, 0);
    s.navigate_up();
    assert_eq!(s.selected, 0);
}

#[test]
fn navigation_on_empty_catalog_is_a_no_op() {
    let mut s = DashboardState::new();
    s.navigate_down();
    assert_eq!(s.selected, 0);
    s.navigate_up();
    assert_eq!(s.selected, 0);
}

#[test]
fn failed_refresh_leaves_catalog_untouched() {
    let mut s = state_with_topics(&["a", "b"]);
    s.navigate_down();
    let before: Vec<String> = s.catalog.iter().map(|t| t.name.clone()).collect();
    s.apply_refresh(Err(DashboardError::MetadataFetchFailed));
    let after: Vec<String> = s.catalog.iter().map(|t| t.name.clone()).collect();
    assert_eq!(before, after);
    assert_eq!(s.selected, 1);
}

#[test]
fn failed_refresh_at_startup_leaves_catalog_empty() {
    let mut s = DashboardState::new();
    s.apply_refresh(Err(DashboardError::MetadataFetchFailed));
    assert_eq!(s.catalog.len(), 0);
    assert_eq!(s.selected, 0);
}

#[test]
fn successful_refresh_replaces_catalog_wholesale() {
    let mut s = state_with_topics(&["a", "b", "c"]);
    s.apply_refresh(Ok(vec![topic("x")]));
    assert_eq!(s.catalog.len(), 1);
    assert_eq!(s.catalog[0].name, "x");
    assert_eq!(s.selected, 0);
}

#[test]
fn failed_pull_leaves_message_log_unchanged() {
    let mut s = state_with_topics(&["a"]);
    s.apply_pull(Ok(vec!["kept".to_string()]));
    s.apply_pull(Err(DashboardError::PollFailed));
    assert_eq!(s.messages, vec!["kept".to_string()]);
}

#[test]
fn clear_empties_only_the_message_log() {
    let mut s = state_with_topics(&["a", "b"]);
    s.navigate_down();
    s.apply_pull(Ok(vec!["m1".to_string()]));
    let a = s.step(Event::Input(Key::Char('c')));
    assert!(matches!(a, Action::Redraw));
    assert_eq!(s.messages.len(), 0);
    assert_eq!(s.catalog.len(), 2);
    assert_eq!(s.selected, 1);
}

#[test]
fn quit_key_requests_quit() {
    let mut s = state_with_topics(&["a"]);
    let a = s.step(Event::Input(Key::Char('q')));
    assert!(matches!(a, Action::Quit));
}

#[test]
fn tick_requests_redraw_with_unchanged_state() {
    let mut s = state_with_topics(&["a", "b"]);
    s.navigate_down();
    let a = s.step(Event::Tick);
    assert!(matches!(a, Action::Redraw));
    assert_eq!(s.selected, 1);
    assert_eq!(s.catalog.len(), 2);
}

#[test]
fn unknown_key_is_ignored() {
    let mut s = state_with_topics(&["a"]);
    let a = s.step(Event::Input(Key::Char('x')));
    assert!(matches!(a, Action::Redraw));
    let b = s.step(Event::Input(Key::Other));
    assert!(matches!(b, Action::Redraw));
    assert_eq!(s.catalog.len(), 1);
}

#[test]
fn pull_on_empty_catalog_does_nothing() {
    let mut s = DashboardState::new();
    let a = s.step(Event::Input(Key::Char('p')));
    assert!(matches!(a, Action::Redraw));
    assert_eq!(s.messages.len(), 0);
}

#[test]
fn pull_scenario_appends_batch_and_returns_to_idle() {
    let catalog = vec![TopicData {
        name: "orders".to_string(),
        partitions: vec![Partition {
            id: 0,
            leader: "b1".to_string(),
            available: true,
            offset: 42,
        }],
    }];
    let mut s = DashboardState::new();
    s.apply_refresh(Ok(catalog));
    assert_eq!(s.selected, 0);

    let a = s.step(Event::Input(Key::Char('p')));
    match a {
        Action::Pull(t) => assert_eq!(t, "orders"),
        _ => panic!("expected a pull request"),
    }

    let polled = kafka_dashboard::kafka_client::decode_all(&vec![b"{\"id\":1}".to_vec()]);
    s.apply_pull(polled);
    assert_eq!(s.messages, vec!["{\"id\":1}".to_string()]);

    let b = s.step(Event::Tick);
    assert!(matches!(b, Action::Redraw));
    assert_eq!(s.catalog[0].name, "orders");
}
