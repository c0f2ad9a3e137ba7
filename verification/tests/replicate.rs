use skitter_ro_client::codec::encode;
use skitter_ro_client::record::CompressedWeb;
use skitter_ro_client::replicate::{
    effective_watermark, plan_windows, LoopAction, LoopEvent, LoopState, Replicator,
};
use skitter_ro_client::WebStat;

#[test]
fn target_bound_is_one_past_the_frontier() {
    let stat = WebStat { max_wid: 1024 };
    assert_eq!(stat.target_bound(), 1025);
}

#[test]
fn windows_tile_the_span() {
    let ws = plan_windows(0, 2501);
    assert_eq!(ws.len(), 3);
    assert_eq!((ws[0].low, ws[0].high), (1, 1001));
    assert_eq!((ws[1].low, ws[1].high), (1001, 2001));
    assert_eq!((ws[2].low, ws[2].high), (2001, 2501));
}

#[test]
fn windows_exact_multiple_of_the_cap() {
    let ws = plan_windows(24, 2025);
    assert_eq!(ws.len(), 2);
    assert_eq!((ws[0].low, ws[0].high), (25, 1025));
    assert_eq!((ws[1].low, ws[1].high), (1025, 2025));
}

#[test]
fn windows_empty_span() {
    assert_eq!(plan_windows(1024, 1025).len(), 0);
    assert_eq!(plan_windows(1024, 1000).len(), 0);
}

#[test]
fn windows_single_narrow_span() {
    let ws = plan_windows(1024, 1026);
    assert_eq!(ws.len(), 1);
    assert_eq!((ws[0].low, ws[0].high), (1025, 1026));
}

#[test]
fn watermark_clamped_by_floor() {
    assert_eq!(effective_watermark(Some(5), 10), 10);
    assert_eq!(effective_watermark(Some(50), 10), 50);
    assert_eq!(effective_watermark(None, 10), 10);
    assert_eq!(effective_watermark(Some(-3), -7), -3);
}

fn fetched_record(id: i64) -> CompressedWeb {
    CompressedWeb {
        id,
        created: "2023-06-01T23:24:25.065Z".to_string(),
        url: "https://example.com/s/1/1".to_string(),
        status: 200,
        response: encode(b"example body"),
    }
}

#[test]
fn cycle_walks_idle_to_idle() {
    let rep = Replicator::new(0);

    let (state, action) = rep.step(LoopState::Idle, LoopEvent::Tick);
    assert!(matches!(state, LoopState::Polling));
    assert!(matches!(action, LoopAction::QueryFrontier));

    let (state, action) = rep.step(
        state,
        LoopEvent::Frontier {
            outcome: Ok(WebStat { max_wid: 1024 }),
        },
    );
    assert!(matches!(state, LoopState::Windowing { target: 1025 }));
    assert!(matches!(action, LoopAction::QueryStoredMax));

    let (state, action) = rep.step(state, LoopEvent::StoredMax { max: Some(24) });
    assert!(matches!(state, LoopState::Fetching { next: 0, .. }));
    assert!(matches!(
        action,
        LoopAction::FetchWindow {
            low: 25,
            high: 1025
        }
    ));

    let (state, action) = rep.step(
        state,
        LoopEvent::Fetched {
            outcome: Ok(vec![fetched_record(25)]),
        },
    );
    assert!(matches!(state, LoopState::Persisting { next: 0, .. }));
    match action {
        LoopAction::PersistRecords { records } => {
            assert_eq!(records.len(), 1);
            assert_eq!(records[0].id, 25);
        }
        _ => panic!("expected PersistRecords"),
    }

    let (state, action) = rep.step(state, LoopEvent::Persisted);
    assert!(matches!(state, LoopState::Idle));
    assert!(matches!(action, LoopAction::AwaitTick));
}

#[test]
fn cycle_fetches_every_window_in_order() {
    let rep = Replicator::new(0);
    let (state, _) = rep.step(LoopState::Idle, LoopEvent::Tick);
    let (state, _) = rep.step(
        state,
        LoopEvent::Frontier {
            outcome: Ok(WebStat { max_wid: 2500 }),
        },
    );
    let (mut state, action) = rep.step(state, LoopEvent::StoredMax { max: None });
    assert!(matches!(action, LoopAction::FetchWindow { low: 1, high: 1001 }));

    let mut fetched = Vec::new();
    loop {
        let (next, action) = rep.step(
            state,
            LoopEvent::Fetched {
                outcome: Ok(Vec::new()),
            },
        );
        let (next, action2) = match action {
            LoopAction::PersistRecords { .. } => rep.step(next, LoopEvent::Persisted),
            _ => panic!("expected PersistRecords"),
        };
        match action2 {
            LoopAction::FetchWindow { low, high } => {
                fetched.push((low, high));
                state = next;
            }
            LoopAction::AwaitTick => {
                assert!(matches!(next, LoopState::Idle));
                break;
            }
            _ => panic!("expected FetchWindow or AwaitTick"),
        }
    }
    assert_eq!(fetched, vec![(1001, 2001), (2001, 2501)]);
}

#[test]
fn cycle_idles_when_nothing_is_new() {
    let rep = Replicator::new(0);
    let (state, _) = rep.step(LoopState::Idle, LoopEvent::Tick);
    let (state, _) = rep.step(
        state,
        LoopEvent::Frontier {
            outcome: Ok(WebStat { max_wid: 1024 }),
        },
    );
    let (state, action) = rep.step(state, LoopEvent::StoredMax { max: Some(1024) });
    assert!(matches!(state, LoopState::Idle));
    assert!(matches!(action, LoopAction::AwaitTick));
}

#[test]
fn cycle_stops_on_frontier_failure() {
    let rep = Replicator::new(0);
    let (state, _) = rep.step(LoopState::Idle, LoopEvent::Tick);
    let (state, action) = rep.step(
        state,
        LoopEvent::Frontier {
            outcome: Err("failed to send request: dns failure".to_string()),
        },
    );
    match (&state, &action) {
        (LoopState::Stopped { err }, LoopAction::Stop { err: e2 }) => {
            assert_eq!(err, "failed to send request: dns failure");
            assert_eq!(e2, err);
        }
        _ => panic!("expected the loop to stop"),
    }
    // A stopped loop stays stopped.
    let (state, _) = rep.step(state, LoopEvent::Tick);
    assert!(matches!(state, LoopState::Stopped { .. }));
}

#[test]
fn cycle_stops_on_fetch_failure() {
    let rep = Replicator::new(0);
    let (state, _) = rep.step(LoopState::Idle, LoopEvent::Tick);
    let (state, _) = rep.step(
        state,
        LoopEvent::Frontier {
            outcome: Ok(WebStat { max_wid: 100 }),
        },
    );
    let (state, _) = rep.step(state, LoopEvent::StoredMax { max: None });
    let (state, action) = rep.step(
        state,
        LoopEvent::Fetched {
            outcome: Err("max_wid - min_wid must be less than 1000".to_string()),
        },
    );
    assert!(matches!(state, LoopState::Stopped { .. }));
    assert!(matches!(action, LoopAction::Stop { .. }));
}

#[test]
fn cycle_stops_on_an_event_out_of_place() {
    let rep = Replicator::new(0);
    let (state, action) = rep.step(LoopState::Idle, LoopEvent::Persisted);
    assert!(matches!(state, LoopState::Stopped { .. }));
    assert!(matches!(action, LoopAction::Stop { .. }));
}
