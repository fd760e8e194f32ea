use qservo::events::{EngineCommand, EngineEvent, TraversalDirection};
use qservo::worker::EngineWorker;

type Worker = EngineWorker<&'static str>;

fn ev(e: EngineEvent) -> (Option<u64>, EngineEvent) {
    (None, e)
}

const EMPTY_FAVICON: &str = "https://localhost/emptyfavicon.ico";

#[test]
fn favicon_event_is_reported_and_cached() {
    let mut w: Worker = EngineWorker::new(1);
    w.process_batch(vec![ev(EngineEvent::ViewOpened { id: 1 })], true).unwrap();
    let resp = w
        .process_batch(
            vec![
                ev(EngineEvent::AllowNavigationRequest {
                    pipeline: 1,
                    url: "https://a.example/".to_string(),
                }),
                ev(EngineEvent::NewFavicon { url: "https://a.example/f.ico".to_string() }),
            ],
            true,
        )
        .unwrap();
    assert_eq!(resp.url, Some("https://a.example/".to_string()));
    assert_eq!(resp.favicon_url, Some("https://a.example/f.ico".to_string()));
}

#[test]
fn cached_favicon_returns_on_revisit() {
    let mut w: Worker = EngineWorker::new(1);
    w.process_batch(vec![ev(EngineEvent::ViewOpened { id: 1 })], true).unwrap();
    // Visit A with its favicon F, then B (no favicon), then A again.
    w.process_batch(
        vec![
            ev(EngineEvent::AllowNavigationRequest {
                pipeline: 1,
                url: "https://a.example/".to_string(),
            }),
            ev(EngineEvent::NewFavicon { url: "https://a.example/f.ico".to_string() }),
        ],
        true,
    )
    .unwrap();
    w.process_batch(
        vec![ev(EngineEvent::AllowNavigationRequest {
            pipeline: 1,
            url: "https://b.example/".to_string(),
        })],
        true,
    )
    .unwrap();
    let back = w
        .process_batch(
            vec![ev(EngineEvent::AllowNavigationRequest {
                pipeline: 1,
                url: "https://a.example/".to_string(),
            })],
            true,
        )
        .unwrap();
    assert_eq!(back.url, Some("https://a.example/".to_string()));
    assert_eq!(back.favicon_url, Some("https://a.example/f.ico".to_string()));
}

#[test]
fn unknown_page_gets_sentinel_favicon_not_previous_one() {
    let mut w: Worker = EngineWorker::new(1);
    w.process_batch(vec![ev(EngineEvent::ViewOpened { id: 1 })], true).unwrap();
    w.process_batch(
        vec![
            ev(EngineEvent::AllowNavigationRequest {
                pipeline: 1,
                url: "https://a.example/".to_string(),
            }),
            ev(EngineEvent::NewFavicon { url: "https://a.example/f.ico".to_string() }),
        ],
        true,
    )
    .unwrap();
    let resp = w
        .process_batch(
            vec![ev(EngineEvent::AllowNavigationRequest {
                pipeline: 1,
                url: "https://b.example/".to_string(),
            })],
            true,
        )
        .unwrap();
    assert_eq!(resp.url, Some("https://b.example/".to_string()));
    assert_eq!(resp.favicon_url, Some(EMPTY_FAVICON.to_string()));
}

#[test]
fn url_without_any_favicon_yields_sentinel() {
    let mut w: Worker = EngineWorker::new(1);
    w.process_batch(vec![ev(EngineEvent::ViewOpened { id: 1 })], true).unwrap();
    let resp = w
        .process_batch(
            vec![ev(EngineEvent::AllowNavigationRequest {
                pipeline: 1,
                url: "https://first.example/".to_string(),
            })],
            true,
        )
        .unwrap();
    assert_eq!(resp.favicon_url, Some(EMPTY_FAVICON.to_string()));
}

#[test]
fn response_without_url_change_keeps_favicon_absent() {
    let mut w: Worker = EngineWorker::new(1);
    let resp = w.process_batch(vec![ev(EngineEvent::LoadStart)], true).unwrap();
    assert_eq!(resp.favicon_url, None);
}

#[test]
fn set_url_creates_view_then_loads() {
    let mut w: Worker = EngineWorker::new(9);
    w.set_url("https://a.example/".to_string());
    let cmds = w.take_commands();
    assert_eq!(cmds.len(), 1);
    match &cmds[0] {
        EngineCommand::NewView { url, id } => {
            assert_eq!(url, "https://a.example/");
            assert_eq!(*id, 9);
        }
        _ => panic!("expected a new-view command"),
    }
    // Once a view is tracked, a new URL loads into it instead.
    w.process_batch(vec![ev(EngineEvent::ViewOpened { id: 5 })], true).unwrap();
    w.take_commands();
    w.set_url("https://b.example/".to_string());
    let cmds = w.take_commands();
    assert_eq!(cmds.len(), 1);
    match &cmds[0] {
        EngineCommand::LoadUrl { url, id } => {
            assert_eq!(url, "https://b.example/");
            assert_eq!(*id, 5);
        }
        _ => panic!("expected a load command"),
    }
}

#[test]
fn repeated_url_assignment_is_dropped() {
    let mut w: Worker = EngineWorker::new(1);
    w.set_url("https://a.example/".to_string());
    w.set_url("https://a.example/".to_string());
    let cmds = w.take_commands();
    assert_eq!(cmds.len(), 1);
    // A different URL goes through again.
    w.set_url("https://b.example/".to_string());
    assert_eq!(w.take_commands().len(), 1);
}

#[test]
fn navigation_steps_translate_to_directions() {
    let mut w: Worker = EngineWorker::new(1);
    w.navigation(-3);
    w.navigation(2);
    w.navigation(0);
    let cmds = w.take_commands();
    assert_eq!(cmds.len(), 3);
    assert!(matches!(
        cmds[0],
        EngineCommand::Navigation { direction: TraversalDirection::Back(3) }
    ));
    assert!(matches!(
        cmds[1],
        EngineCommand::Navigation { direction: TraversalDirection::Forward(2) }
    ));
    assert!(matches!(
        cmds[2],
        EngineCommand::Navigation { direction: TraversalDirection::Forward(0) }
    ));
}

#[test]
fn extreme_backward_step_count_is_exact() {
    let dir = qservo::events::traversal_direction(i32::MIN);
    assert_eq!(dir, TraversalDirection::Back(2147483648));
}

#[test]
fn raw_input_preserves_order() {
    let mut w: Worker = EngineWorker::new(1);
    w.raw_input("pointer-down");
    w.raw_input("pointer-up");
    let cmds = w.take_commands();
    assert_eq!(cmds.len(), 2);
    assert!(matches!(cmds[0], EngineCommand::RawInput { event: "pointer-down" }));
    assert!(matches!(cmds[1], EngineCommand::RawInput { event: "pointer-up" }));
}

#[test]
fn resize_queues_notification() {
    let mut w: Worker = EngineWorker::new(1);
    w.resize();
    let cmds = w.take_commands();
    assert_eq!(cmds.len(), 1);
    assert!(matches!(cmds[0], EngineCommand::Resize));
}

#[test]
fn protocol_violation_leaves_session_untouched() {
    let mut w: Worker = EngineWorker::new(1);
    w.process_batch(vec![ev(EngineEvent::ViewOpened { id: 1 })], true).unwrap();
    w.set_url("https://a.example/".to_string());
    let before = w.take_commands().len();
    assert_eq!(before, 2);
    w.process_batch(vec![ev(EngineEvent::ViewOpened { id: 2 })], true).unwrap_err();
    // Nothing was queued or changed by the rejected batch.
    assert!(w.take_commands().is_empty());
}
