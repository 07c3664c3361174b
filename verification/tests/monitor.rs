use yee_branch_node::error::Error;
use yee_branch_node::monitor::{monitor_network, LogLine, RootChain, SyncSnapshot, SyncState};

fn snapshot(best: u64, state: SyncState) -> SyncSnapshot {
    SyncSnapshot {
        best_number: best,
        best_hash: "0xaaaa…bbbb".to_string(),
        finalized_number: 90,
        finalized_hash: "0xcccc…dddd".to_string(),
        num_peers: 3,
        sync_state: state,
        bandwidth_download: 2048,
        bandwidth_upload: 0,
    }
}

#[test]
fn monitor_starts_without_history() {
    assert_eq!(RootChain::new(Ok(()), 5), Ok(RootChain { last_number: None, last_update: 5 }));
}

#[test]
fn monitor_reports_a_failed_start() {
    assert_eq!(
        RootChain::new(Err("Other(\"no peers\")".to_string()), 5),
        Err(Error::Msg("Start root chain failed: Other(\"no peers\")".to_string()))
    );
}

#[test]
fn idle_status_line() {
    let mut monitor = RootChain::new(Ok(()), 1000).unwrap();
    let line = monitor_network(&mut monitor, Some(&snapshot(100, SyncState::Idle)), 6000);
    assert_eq!(
        line,
        LogLine::Info(
            "root chain: \u{1b}[1;37mIdle\u{1b}[0m (\u{1b}[1;37m3\u{1b}[0m peers), \
             best: #\u{1b}[37m100\u{1b}[0m (0xaaaa…bbbb), \
             finalized #\u{1b}[37m90\u{1b}[0m (0xcccc…dddd), ⬇ 2.0kiB/s ⬆ 0"
                .to_string()
        )
    );
    assert_eq!(monitor, RootChain { last_number: Some(100), last_update: 6000 });
}

#[test]
fn syncing_status_line_with_speed_and_target() {
    let mut monitor = RootChain { last_number: Some(100), last_update: 1000 };
    let state = SyncState::Downloading { target: Some(5000) };
    let line = monitor_network(&mut monitor, Some(&snapshot(150, state)), 6000);
    assert_eq!(
        line,
        LogLine::Info(
            "root chain: \u{1b}[1;37mSyncing 10.0 bps\u{1b}[0m, target=#5000 \
             (\u{1b}[1;37m3\u{1b}[0m peers), best: #\u{1b}[37m150\u{1b}[0m (0xaaaa…bbbb), \
             finalized #\u{1b}[37m90\u{1b}[0m (0xcccc…dddd), ⬇ 2.0kiB/s ⬆ 0"
                .to_string()
        )
    );
    assert_eq!(monitor, RootChain { last_number: Some(150), last_update: 6000 });
}

#[test]
fn syncing_status_line_without_target_or_history() {
    let mut monitor = RootChain::new(Ok(()), 1000).unwrap();
    let state = SyncState::Downloading { target: None };
    let line = monitor_network(&mut monitor, Some(&snapshot(150, state)), 1000);
    assert_eq!(
        line,
        LogLine::Info(
            "root chain: \u{1b}[1;37mSyncing\u{1b}[0m (\u{1b}[1;37m3\u{1b}[0m peers), \
             best: #\u{1b}[37m150\u{1b}[0m (0xaaaa…bbbb), \
             finalized #\u{1b}[37m90\u{1b}[0m (0xcccc…dddd), ⬇ 2.0kiB/s ⬆ 0"
                .to_string()
        )
    );
}

#[test]
fn missing_chain_info_warns_and_keeps_the_history() {
    let mut monitor = RootChain { last_number: Some(100), last_update: 1000 };
    let line = monitor_network(&mut monitor, None, 9000);
    assert_eq!(line, LogLine::Warn("Error getting best block information".to_string()));
    assert_eq!(monitor, RootChain { last_number: Some(100), last_update: 1000 });
}

#[test]
fn status_lines_follow_each_other() {
    let mut monitor = RootChain::new(Ok(()), 0).unwrap();
    let state = SyncState::Downloading { target: Some(1000) };
    monitor_network(&mut monitor, Some(&snapshot(10, state)), 5000);
    monitor_network(&mut monitor, None, 7000);
    let line = monitor_network(&mut monitor, Some(&snapshot(20, state)), 10_000);
    match line {
        LogLine::Info(text) => assert!(text.contains("Syncing  2.0 bps")),
        LogLine::Warn(text) => panic!("{}", text),
    }
    assert_eq!(monitor, RootChain { last_number: Some(20), last_update: 10_000 });
}

#[test]
fn painted_text_is_wrapped_not_returned_as_it_came() {
    let mut monitor = RootChain::new(Ok(()), 0).unwrap();
    let line = monitor_network(&mut monitor, Some(&snapshot(7, SyncState::Idle)), 1);
    match line {
        LogLine::Info(text) => {
            assert!(text.contains("\u{1b}[1;37mIdle\u{1b}[0m"));
            assert!(text.contains("#\u{1b}[37m7\u{1b}[0m"));
            assert!(!text.contains(": Idle"));
        }
        LogLine::Warn(text) => panic!("{}", text),
    }
}
