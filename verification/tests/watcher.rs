use slp_scout::connect_code::ConnectCode;
use slp_scout::pipeline::{PipelineError, get_opponent_connect_code, win_loss_from_response};
use slp_scout::replay::{DecodeError, Replay};
use slp_scout::resolver::resolve_opponent;
use slp_scout::stats::WinLossData;
use slp_scout::watcher::{DirectoryWatcher, WatcherPhase};

#[test]
fn start_moves_idle_to_watching() {
    let mut watcher = DirectoryWatcher::new(ConnectCode::new("IBDW".to_string(), 0));
    assert_eq!(watcher.phase(), WatcherPhase::Idle);
    watcher.start(true).unwrap();
    assert_eq!(watcher.phase(), WatcherPhase::Watching);
}

#[test]
fn failed_setup_is_fatal() {
    let mut watcher = DirectoryWatcher::new(ConnectCode::new("IBDW".to_string(), 0));
    assert!(watcher.start(false).is_err());
    assert_eq!(watcher.phase(), WatcherPhase::Stopped);
}

#[test]
fn stop_is_idempotent() {
    let mut watcher = DirectoryWatcher::new(ConnectCode::new("IBDW".to_string(), 0));
    watcher.start(true).unwrap();
    watcher.stop();
    assert_eq!(watcher.phase(), WatcherPhase::Stopped);
    watcher.stop();
    assert_eq!(watcher.phase(), WatcherPhase::Stopped);
}

#[test]
fn only_creation_events_for_regular_files_are_decoded() {
    let mut watcher = DirectoryWatcher::new(ConnectCode::new("IBDW".to_string(), 0));
    assert!(!watcher.should_decode(true, true));
    watcher.start(true).unwrap();
    assert!(watcher.should_decode(true, true));
    assert!(!watcher.should_decode(true, false));
    assert!(!watcher.should_decode(false, true));
    watcher.stop();
    assert!(!watcher.should_decode(true, true));
}

#[test]
fn one_bad_event_does_not_stop_scouting() {
    // End to end, with the outside transfers played by hand: a creation
    // event for a valid two-participant replay yields exactly one success
    // record; a second event for a malformed replay fails on its own
    // without stopping the watcher.
    let mut watcher = DirectoryWatcher::new(ConnectCode::new("IBDW".to_string(), 0));
    watcher.start(true).unwrap();

    // First event: a decoded replay where the local player faces ABCD#1.
    assert!(watcher.should_decode(true, true));
    let replay = Replay::new("IBDW#0".to_string(), "ABCD#1".to_string());
    let opponent = resolve_opponent(&replay, watcher.local_code()).unwrap();
    assert_eq!(opponent.format(), "ABCD#1");
    let mut page = String::new();
    page.push_str("<html><body>");
    page.push_str("<div class=\"MuiTypography-root MuiTypography-body1 css-1i7pcxu\">5</div>");
    page.push_str("<div class=\"MuiTypography-root MuiTypography-body1 css-1i7pcxu\">3</div>");
    page.push_str("</body></html>");
    let record = win_loss_from_response(200, page).unwrap();
    assert_eq!(record, WinLossData::new(5, 3));

    // Second event: a malformed replay fails with a tagged error...
    assert!(watcher.should_decode(true, true));
    let r = get_opponent_connect_code(&b"halfwritten".to_vec(), watcher.local_code());
    assert_eq!(
        r.unwrap_err(),
        PipelineError::Decode(DecodeError::MalformedReplay)
    );

    // ...and the watcher is still watching for the next one.
    assert_eq!(watcher.phase(), WatcherPhase::Watching);
    assert!(watcher.should_decode(true, true));
}
