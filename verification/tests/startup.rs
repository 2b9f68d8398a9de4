use serde_json::Value;
use startup_resolver::startup::{Failure, Phase, Reply, Request, MAIN_WINDOW, STORE_FILE};

fn fullscreen_document() -> Option<Value> {
    Some(serde_json::from_str(r#"{"screenSize": "fullscreen"}"#).unwrap())
}

const REPLY_KINDS: usize = 8;

fn reply_of_kind(kind: usize) -> Reply {
    match kind {
        0 => Reply::StoreOpened,
        1 => Reply::StoreFailed,
        2 => Reply::Settings(None),
        3 => Reply::Settings(fullscreen_document()),
        4 => Reply::WindowFound,
        5 => Reply::WindowMissing,
        6 => Reply::Succeeded,
        _ => Reply::Failed,
    }
}

fn every_reply() -> Vec<Reply> {
    (0..REPLY_KINDS).map(reply_of_kind).collect()
}

#[test]
fn store_and_window_names() {
    assert_eq!(STORE_FILE, "settings.json");
    assert_eq!(MAIN_WINDOW, "main");
}

#[test]
fn launch_begins_by_opening_the_store() {
    let phase = Phase::start();
    assert_eq!(phase, Phase::OpeningStore);
    assert_eq!(phase.request(), Some(Request::OpenStore));
    assert_eq!(phase.outcome(), None);
}

#[test]
fn each_phase_has_its_request() {
    assert_eq!(Phase::OpeningStore.request(), Some(Request::OpenStore));
    assert_eq!(Phase::ReadingSettings.request(), Some(Request::ReadSettings));
    assert_eq!(
        Phase::FindingWindow { fullscreen: true }.request(),
        Some(Request::FindWindow)
    );
    assert_eq!(
        Phase::ApplyingFullscreen { fullscreen: true }.request(),
        Some(Request::SetFullscreen(true))
    );
    assert_eq!(
        Phase::ApplyingFullscreen { fullscreen: false }.request(),
        Some(Request::SetFullscreen(false))
    );
    assert_eq!(Phase::ShowingWindow.request(), Some(Request::ShowWindow));
    assert_eq!(Phase::Running.request(), None);
    assert_eq!(
        Phase::Aborted { failure: Failure::ShowRejected }.request(),
        None
    );
}

#[test]
fn outcome_tells_how_the_launch_ended() {
    assert_eq!(Phase::OpeningStore.outcome(), None);
    assert_eq!(Phase::ReadingSettings.outcome(), None);
    assert_eq!(Phase::FindingWindow { fullscreen: false }.outcome(), None);
    assert_eq!(Phase::ApplyingFullscreen { fullscreen: false }.outcome(), None);
    assert_eq!(Phase::ShowingWindow.outcome(), None);
    assert_eq!(Phase::Running.outcome(), Some(Ok(())));
    for failure in [
        Failure::StoreUnavailable,
        Failure::FullscreenRejected,
        Failure::ShowRejected,
    ] {
        assert_eq!(Phase::Aborted { failure }.outcome(), Some(Err(failure)));
    }
}

#[test]
fn opened_store_is_read() {
    assert_eq!(
        Phase::OpeningStore.step(Reply::StoreOpened),
        (Phase::ReadingSettings, Some(Request::ReadSettings))
    );
}

#[test]
fn failed_store_aborts() {
    assert_eq!(
        Phase::OpeningStore.step(Reply::StoreFailed),
        (Phase::Aborted { failure: Failure::StoreUnavailable }, None)
    );
}

#[test]
fn settings_resolve_the_preference() {
    assert_eq!(
        Phase::ReadingSettings.step(Reply::Settings(fullscreen_document())),
        (Phase::FindingWindow { fullscreen: true }, Some(Request::FindWindow))
    );
    assert_eq!(
        Phase::ReadingSettings.step(Reply::Settings(None)),
        (Phase::FindingWindow { fullscreen: false }, Some(Request::FindWindow))
    );
    let windowed = Some(serde_json::from_str(r#"{"screenSize": "windowed"}"#).unwrap());
    assert_eq!(
        Phase::ReadingSettings.step(Reply::Settings(windowed)),
        (Phase::FindingWindow { fullscreen: false }, Some(Request::FindWindow))
    );
}

#[test]
fn found_window_gets_the_resolved_mode() {
    for fullscreen in [false, true] {
        assert_eq!(
            Phase::FindingWindow { fullscreen }.step(Reply::WindowFound),
            (
                Phase::ApplyingFullscreen { fullscreen },
                Some(Request::SetFullscreen(fullscreen))
            )
        );
    }
}

#[test]
fn missing_window_completes_the_launch() {
    for fullscreen in [false, true] {
        assert_eq!(
            Phase::FindingWindow { fullscreen }.step(Reply::WindowMissing),
            (Phase::Running, None)
        );
    }
}

#[test]
fn applied_mode_leads_to_show() {
    for fullscreen in [false, true] {
        assert_eq!(
            Phase::ApplyingFullscreen { fullscreen }.step(Reply::Succeeded),
            (Phase::ShowingWindow, Some(Request::ShowWindow))
        );
    }
}

#[test]
fn rejected_mode_aborts_before_show() {
    for fullscreen in [false, true] {
        assert_eq!(
            Phase::ApplyingFullscreen { fullscreen }.step(Reply::Failed),
            (Phase::Aborted { failure: Failure::FullscreenRejected }, None)
        );
    }
}

#[test]
fn shown_window_completes_the_launch() {
    assert_eq!(
        Phase::ShowingWindow.step(Reply::Succeeded),
        (Phase::Running, None)
    );
}

#[test]
fn rejected_show_aborts() {
    assert_eq!(
        Phase::ShowingWindow.step(Reply::Failed),
        (Phase::Aborted { failure: Failure::ShowRejected }, None)
    );
}

#[test]
fn ended_launch_takes_no_reply() {
    let ended = [
        Phase::Running,
        Phase::Aborted { failure: Failure::StoreUnavailable },
        Phase::Aborted { failure: Failure::FullscreenRejected },
        Phase::Aborted { failure: Failure::ShowRejected },
    ];
    for phase in ended {
        for reply in every_reply() {
            assert_eq!(phase.step(reply), (phase, None));
        }
    }
}

#[test]
fn reply_to_another_request_changes_nothing() {
    let cases: [(Phase, [usize; 2]); 5] = [
        (Phase::OpeningStore, [0, 1]),
        (Phase::ReadingSettings, [2, 3]),
        (Phase::FindingWindow { fullscreen: true }, [4, 5]),
        (Phase::ApplyingFullscreen { fullscreen: true }, [6, 7]),
        (Phase::ShowingWindow, [6, 7]),
    ];
    for (phase, accepted) in cases {
        for (index, reply) in every_reply().into_iter().enumerate() {
            if !accepted.contains(&index) {
                assert_eq!(phase.step(reply), (phase, None), "{:?} at {}", phase, index);
            }
        }
    }
}

#[test]
fn requests_come_in_the_fixed_order_whatever_the_replies() {
    let count = REPLY_KINDS;
    let mut script = [0usize; 6];
    loop {
        let mut phase = Phase::start();
        let mut requests = vec![Request::OpenStore];
        for pick in script {
            let (next, issued) = phase.step(reply_of_kind(pick));
            phase = next;
            if let Some(request) = issued {
                requests.push(request);
            }
        }
        assert!(requests.len() <= 5);
        for (index, request) in requests.iter().enumerate() {
            let place = match request {
                Request::OpenStore => 0,
                Request::ReadSettings => 1,
                Request::FindWindow => 2,
                Request::SetFullscreen(_) => 3,
                Request::ShowWindow => 4,
            };
            assert_eq!(place, index, "{:?}", script);
        }
        let mut digit = 0;
        while digit < script.len() {
            script[digit] += 1;
            if script[digit] < count {
                break;
            }
            script[digit] = 0;
            digit += 1;
        }
        if digit == script.len() {
            break;
        }
    }
}
