use yee_branch_node::cli::{CliSignal, CliTriggerExit, Exit};

#[test]
fn restart_signal_asks_for_restart() {
    assert_eq!(CliSignal::from_signal(10, 10), CliSignal::Restart);
}

#[test]
fn other_signals_ask_for_stop() {
    assert_eq!(CliSignal::from_signal(2, 10), CliSignal::Stop);
    assert_eq!(CliSignal::from_signal(15, 10), CliSignal::Stop);
}

#[test]
fn first_trigger_passes() {
    let mut trigger = Exit.into_exit();
    assert!(!trigger.is_exited());
    assert!(trigger.trigger_exit(CliSignal::Restart));
    assert!(trigger.is_exited());
}

#[test]
fn second_trigger_is_ignored() {
    let mut trigger = Exit.into_exit();
    assert!(trigger.trigger_stop());
    let after_first = trigger;
    assert!(!trigger.trigger_restart());
    assert_eq!(trigger, after_first);
    assert!(!trigger.trigger_stop());
    assert_eq!(trigger, after_first);
}

#[test]
fn exactly_one_of_two_triggers_is_observed() {
    let mut trigger: CliTriggerExit<CliSignal> = CliTriggerExit::new();
    let from_signal = trigger.signal_received(10, 10);
    let from_component = trigger.trigger_stop();
    assert_eq!(from_signal, Some(CliSignal::Restart));
    assert!(!from_component);
}

#[test]
fn signal_after_a_trigger_sends_nothing() {
    let mut trigger = Exit.into_exit();
    assert!(trigger.trigger_restart());
    assert_eq!(trigger.signal_received(2, 10), None);
    assert_eq!(trigger.signal_received(10, 10), None);
}

#[test]
fn first_signal_decides() {
    let mut trigger = Exit.into_exit();
    assert_eq!(trigger.signal_received(15, 10), Some(CliSignal::Stop));
    assert_eq!(trigger.signal_received(10, 10), None);
}

#[test]
fn a_trigger_of_any_signal_type_fires_once() {
    let mut trigger: CliTriggerExit<u8> = CliTriggerExit::new();
    assert!(trigger.trigger_exit(7));
    assert!(!trigger.trigger_exit(9));
}
