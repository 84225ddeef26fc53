use naui_core::channel::{ChannelState, PumpEnd, SendStep};

#[test]
fn many_sends_ask_for_one_pump() {
    let mut state = ChannelState::new();
    assert_eq!(state.send(1, true), SendStep::Post);
    for v in 2..1000 {
        assert_eq!(state.send(v, true), SendStep::Queued);
    }
    let taken = state.begin_pump().unwrap();
    assert_eq!(taken, (1..1000).collect::<Vec<_>>());
    assert_eq!(state.end_pump(), PumpEnd::Idle);
    assert_eq!(state.send(7, true), SendStep::Post);
}

#[test]
fn values_come_out_in_the_order_sent() {
    let mut state = ChannelState::new();
    state.send("a", true);
    state.send("b", true);
    state.send("c", true);
    assert_eq!(state.begin_pump(), Some(vec!["a", "b", "c"]));
    assert!(state.is_empty());
}

#[test]
fn nothing_is_queued_once_the_ui_is_gone() {
    let mut state = ChannelState::new();
    assert_eq!(state.send(1, false), SendStep::Refused);
    assert!(state.is_empty());
    assert_eq!(state.send(2, true), SendStep::Post);
    state.post_refused();
    assert_eq!(state.send(3, true), SendStep::Post);
}

#[test]
fn values_sent_during_a_pump_get_the_next_pump() {
    let mut state = ChannelState::new();
    assert_eq!(state.send(1, true), SendStep::Post);
    assert_eq!(state.begin_pump(), Some(vec![1]));
    // Sent from inside the receiving closure: no pump of its own.
    assert_eq!(state.send(2, true), SendStep::Queued);
    // A pump reached from inside the closure does nothing.
    assert_eq!(state.begin_pump(), None);
    assert_eq!(state.end_pump(), PumpEnd::Repost);
    assert_eq!(state.begin_pump(), Some(vec![2]));
    assert_eq!(state.end_pump(), PumpEnd::Idle);
}

#[test]
fn dropping_every_sender_closes_after_the_queue_is_handed_out() {
    let mut state = ChannelState::new();
    state.add_sender();
    assert_eq!(state.send(1, true), SendStep::Post);
    assert!(!state.drop_sender());
    // The last sender goes while a pump is already requested.
    assert!(!state.drop_sender());
    assert_eq!(state.begin_pump(), Some(vec![1]));
    assert_eq!(state.end_pump(), PumpEnd::Close);
}

#[test]
fn the_last_sender_asks_for_a_pump_to_close() {
    let mut state: ChannelState<u8> = ChannelState::new();
    assert!(state.drop_sender());
    assert_eq!(state.begin_pump(), Some(vec![]));
    assert_eq!(state.end_pump(), PumpEnd::Close);
}

#[test]
fn a_channel_with_senders_stays_open_when_drained() {
    let mut state = ChannelState::new();
    state.send(5, true);
    state.begin_pump();
    assert_eq!(state.end_pump(), PumpEnd::Idle);
    assert!(state.is_empty());
}
