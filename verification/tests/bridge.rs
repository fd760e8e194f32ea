use qservo::bridge::{BrowserEventBridge, ProtocolError, WebView};
use qservo::events::{EngineCommand, EngineEvent};

type Bridge = BrowserEventBridge<i32>;

fn ev(e: EngineEvent) -> (Option<u64>, EngineEvent) {
    (None, e)
}

#[test]
fn web_view_record_defaults_empty() {
    assert_eq!(WebView::default(), WebView {});
}

#[test]
fn empty_batch_reports_nothing() {
    let mut b: Bridge = BrowserEventBridge::new();
    let resp = b.drain(vec![], true).unwrap();
    assert_eq!(resp.title, None);
    assert_eq!(resp.loading, None);
    assert_eq!(resp.favicon_url, None);
    assert_eq!(resp.url, None);
    assert_eq!(resp.blocked_navigation_request, None);
    assert_eq!(resp.can_go_back, None);
    assert_eq!(resp.can_go_forward, None);
    assert_eq!(resp.present, None);
    assert!(b.take_commands().is_empty());
}

#[test]
fn title_set_exactly_once_then_absent() {
    let mut b: Bridge = BrowserEventBridge::new();
    let resp = b
        .drain(
            vec![ev(EngineEvent::ChangePageTitle { title: Some("One".to_string()) })],
            true,
        )
        .unwrap();
    assert_eq!(resp.title, Some("One".to_string()));
    // The next drain carries no title event: the delta is absent, not repeated.
    let resp2 = b.drain(vec![ev(EngineEvent::LoadStart)], true).unwrap();
    assert_eq!(resp2.title, None);
    assert_eq!(resp2.loading, Some(true));
}

#[test]
fn title_last_write_wins() {
    let mut b: Bridge = BrowserEventBridge::new();
    let resp = b
        .drain(
            vec![
                ev(EngineEvent::ChangePageTitle { title: Some("Old".to_string()) }),
                ev(EngineEvent::ChangePageTitle { title: Some("New".to_string()) }),
            ],
            true,
        )
        .unwrap();
    assert_eq!(resp.title, Some("New".to_string()));
}

#[test]
fn untitled_page_erases_earlier_title_in_batch() {
    let mut b: Bridge = BrowserEventBridge::new();
    let resp = b
        .drain(
            vec![
                ev(EngineEvent::ChangePageTitle { title: Some("Old".to_string()) }),
                ev(EngineEvent::ChangePageTitle { title: None }),
            ],
            true,
        )
        .unwrap();
    assert_eq!(resp.title, None);
}

#[test]
fn end_to_end_scenario() {
    let mut b: Bridge = BrowserEventBridge::new();
    let resp = b
        .drain(
            vec![
                ev(EngineEvent::ViewOpened { id: 7 }),
                ev(EngineEvent::LoadStart),
                ev(EngineEvent::ChangePageTitle { title: Some("Example".to_string()) }),
                ev(EngineEvent::ReadyToPresent),
            ],
            true,
        )
        .unwrap();
    assert_eq!(resp.loading, Some(true));
    assert_eq!(resp.title, Some("Example".to_string()));
    assert_eq!(resp.present, Some(true));
    assert_eq!(b.webview_id(), Some(7));
    let cmds = b.take_commands();
    assert_eq!(cmds.len(), 1);
    assert!(matches!(cmds[0], EngineCommand::FocusView { id: 7 }));
}

#[test]
fn second_view_open_is_fatal() {
    let mut b: Bridge = BrowserEventBridge::new();
    b.drain(vec![ev(EngineEvent::ViewOpened { id: 1 })], true).unwrap();
    let err = b.drain(vec![ev(EngineEvent::ViewOpened { id: 2 })], true).unwrap_err();
    assert_eq!(err, ProtocolError::SecondViewOpened { existing: 1, attempted: 2 });
}

#[test]
fn second_view_open_in_same_batch_is_fatal() {
    let mut b: Bridge = BrowserEventBridge::new();
    let err = b
        .drain(
            vec![
                ev(EngineEvent::ViewOpened { id: 1 }),
                ev(EngineEvent::ViewOpened { id: 2 }),
            ],
            true,
        )
        .unwrap_err();
    assert_eq!(err, ProtocolError::SecondViewOpened { existing: 1, attempted: 2 });
    // The rejected batch left nothing behind.
    assert_eq!(b.webview_id(), None);
    assert!(b.take_commands().is_empty());
}

#[test]
fn reopen_after_close_is_allowed() {
    let mut b: Bridge = BrowserEventBridge::new();
    b.drain(vec![ev(EngineEvent::ViewOpened { id: 1 })], true).unwrap();
    b.drain(vec![ev(EngineEvent::ViewClosed { id: 1 })], true).unwrap();
    assert_eq!(b.webview_id(), None);
    b.drain(vec![ev(EngineEvent::ViewOpened { id: 2 })], true).unwrap();
    assert_eq!(b.webview_id(), Some(2));
}

#[test]
fn allowed_navigation_sets_url_and_queues_reply() {
    let mut b: Bridge = BrowserEventBridge::new();
    b.drain(vec![ev(EngineEvent::ViewOpened { id: 1 })], true).unwrap();
    b.take_commands();
    let resp = b
        .drain(
            vec![ev(EngineEvent::AllowNavigationRequest {
                pipeline: 42,
                url: "https://example.net/".to_string(),
            })],
            true,
        )
        .unwrap();
    assert_eq!(resp.url, Some("https://example.net/".to_string()));
    assert_eq!(resp.blocked_navigation_request, None);
    let cmds = b.take_commands();
    assert_eq!(cmds.len(), 1);
    assert!(matches!(
        cmds[0],
        EngineCommand::AllowNavigationResponse { pipeline: 42, allow: true }
    ));
}

#[test]
fn blocked_navigation_reports_blocked_url() {
    let mut b: Bridge = BrowserEventBridge::new();
    b.drain(vec![ev(EngineEvent::ViewOpened { id: 1 })], true).unwrap();
    b.take_commands();
    let resp = b
        .drain(
            vec![ev(EngineEvent::AllowNavigationRequest {
                pipeline: 9,
                url: "https://blocked.example/".to_string(),
            })],
            false,
        )
        .unwrap();
    assert_eq!(resp.url, None);
    assert_eq!(
        resp.blocked_navigation_request,
        Some("https://blocked.example/".to_string())
    );
    let cmds = b.take_commands();
    assert_eq!(cmds.len(), 1);
    assert!(matches!(
        cmds[0],
        EngineCommand::AllowNavigationResponse { pipeline: 9, allow: false }
    ));
}

#[test]
fn navigation_request_without_view_queues_nothing() {
    let mut b: Bridge = BrowserEventBridge::new();
    let resp = b
        .drain(
            vec![ev(EngineEvent::AllowNavigationRequest {
                pipeline: 1,
                url: "https://example.net/".to_string(),
            })],
            true,
        )
        .unwrap();
    assert_eq!(resp.url, None);
    assert!(b.take_commands().is_empty());
}

#[test]
fn opening_new_view_is_denied() {
    let mut b: Bridge = BrowserEventBridge::new();
    b.drain(vec![ev(EngineEvent::AllowOpeningView)], true).unwrap();
    let cmds = b.take_commands();
    assert_eq!(cmds.len(), 1);
    assert!(matches!(cmds[0], EngineCommand::AllowOpeningView { allow: false }));
}

#[test]
fn history_changed_derives_traversal_flags() {
    let mut b: Bridge = BrowserEventBridge::new();
    let entries = vec![
        "https://a.example/".to_string(),
        "https://b.example/".to_string(),
        "https://c.example/".to_string(),
    ];
    let resp = b
        .drain(
            vec![ev(EngineEvent::HistoryChanged { entries: entries.clone(), position: 1 })],
            true,
        )
        .unwrap();
    assert_eq!(resp.url, Some("https://b.example/".to_string()));
    assert_eq!(resp.can_go_back, Some(true));
    assert_eq!(resp.can_go_forward, Some(true));

    let first = b
        .drain(vec![ev(EngineEvent::HistoryChanged { entries: entries.clone(), position: 0 })], true)
        .unwrap();
    assert_eq!(first.can_go_back, Some(false));
    assert_eq!(first.can_go_forward, Some(true));

    let last = b
        .drain(vec![ev(EngineEvent::HistoryChanged { entries, position: 2 })], true)
        .unwrap();
    assert_eq!(last.can_go_back, Some(true));
    assert_eq!(last.can_go_forward, Some(false));
}

#[test]
fn unrecognized_events_are_ignored() {
    let mut b: Bridge = BrowserEventBridge::new();
    let resp = b
        .drain(vec![ev(EngineEvent::Unrecognized), ev(EngineEvent::LoadComplete)], true)
        .unwrap();
    assert_eq!(resp.loading, Some(false));
    assert_eq!(resp.url, None);
    assert!(b.take_commands().is_empty());
}
