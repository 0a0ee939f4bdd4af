use tc_events::driver::{Action, Driver, Event, FatalError, Phase, FRAME_CAPACITY, WAIT_TIMEOUT_MS};
use tc_events::registry::ChannelError;

fn polling_driver(channels: usize) -> Driver {
    let mut d = Driver::new();
    assert_eq!(d.step(Event::Started), Action::OpenChannels);
    let mut a = d.step(Event::Opened(Ok(channels)));
    for t in 0..channels {
        assert_eq!(a, Action::Register(t));
        a = d.step(Event::Registered(Ok(())));
    }
    assert_eq!(a, Action::Wait(WAIT_TIMEOUT_MS));
    assert_eq!(d.phase(), Phase::Polling);
    d
}

#[test]
fn design_constants() {
    assert_eq!(WAIT_TIMEOUT_MS, 100);
    assert_eq!(FRAME_CAPACITY, 1024);
}

#[test]
fn two_channels_forward_only_the_text_record() {
    let mut d = polling_driver(2);
    let mut sink: Vec<String> = Vec::new();
    let mut a = d.step(Event::Woke(Ok(vec![0, 1])));
    assert_eq!(a, Action::Drain(0));
    a = d.step(Event::Drained(Ok(vec![b"hello\0\0\0".to_vec()])));
    match a {
        Action::Forward(records) => sink.extend(records),
        other => panic!("unexpected {:?}", other),
    }
    a = d.step(Event::Forwarded);
    assert_eq!(a, Action::Drain(1));
    a = d.step(Event::Drained(Ok(vec![vec![0xff, 0xfe]])));
    match a {
        Action::Forward(records) => sink.extend(records),
        other => panic!("unexpected {:?}", other),
    }
    a = d.step(Event::Forwarded);
    assert_eq!(a, Action::Wait(WAIT_TIMEOUT_MS));
    assert_eq!(sink, vec!["hello".to_string()]);
    assert_eq!(d.phase(), Phase::Polling);
}

#[test]
fn records_of_one_channel_keep_their_order() {
    let mut d = polling_driver(1);
    assert_eq!(d.step(Event::Woke(Ok(vec![0]))), Action::Drain(0));
    let frames = vec![b"r1\0".to_vec(), b"r2\0".to_vec(), b"r3\0".to_vec()];
    assert_eq!(
        d.step(Event::Drained(Ok(frames))),
        Action::Forward(vec!["r1".to_string(), "r2".to_string(), "r3".to_string()])
    );
    assert_eq!(d.step(Event::Forwarded), Action::Wait(WAIT_TIMEOUT_MS));
}

#[test]
fn idle_wait_goes_back_to_waiting() {
    let mut d = polling_driver(3);
    for _ in 0..3 {
        assert_eq!(d.step(Event::Woke(Ok(Vec::new()))), Action::Wait(WAIT_TIMEOUT_MS));
        assert_eq!(d.phase(), Phase::Polling);
    }
}

#[test]
fn unknown_tokens_are_skipped() {
    let mut d = polling_driver(2);
    assert_eq!(d.step(Event::Woke(Ok(vec![7, 1, 9]))), Action::Drain(1));
    assert_eq!(d.step(Event::Drained(Ok(Vec::new()))), Action::Forward(Vec::new()));
    assert_eq!(d.step(Event::Forwarded), Action::Wait(WAIT_TIMEOUT_MS));
    assert_eq!(d.step(Event::Woke(Ok(vec![5]))), Action::Wait(WAIT_TIMEOUT_MS));
}

#[test]
fn wait_failure_is_critical_once_then_nothing() {
    let mut d = polling_driver(2);
    assert_eq!(d.step(Event::Woke(Err(FatalError::Poll))), Action::Critical(FatalError::Poll));
    assert_eq!(d.phase(), Phase::Fatal);
    assert_eq!(d.step(Event::Woke(Ok(vec![0]))), Action::Nothing);
    assert_eq!(d.step(Event::Drained(Ok(vec![b"x".to_vec()]))), Action::Nothing);
    assert_eq!(d.step(Event::Woke(Err(FatalError::Poll))), Action::Nothing);
    assert_eq!(d.step(Event::Started), Action::Nothing);
    assert_eq!(d.phase(), Phase::Fatal);
}

#[test]
fn setup_failures_abort() {
    let mut d = Driver::new();
    d.step(Event::Started);
    assert_eq!(
        d.step(Event::Opened(Err(ChannelError::Enumeration))),
        Action::Abort(ChannelError::Enumeration)
    );
    assert_eq!(d.phase(), Phase::Aborted);

    let mut d = Driver::new();
    d.step(Event::Started);
    assert_eq!(d.step(Event::Opened(Ok(2))), Action::Register(0));
    assert_eq!(
        d.step(Event::Registered(Err(ChannelError::Open(0)))),
        Action::Abort(ChannelError::Open(0))
    );
    assert_eq!(d.step(Event::Registered(Ok(()))), Action::Nothing);
}

#[test]
fn drain_failure_aborts() {
    let mut d = polling_driver(1);
    d.step(Event::Woke(Ok(vec![0])));
    assert_eq!(
        d.step(Event::Drained(Err(ChannelError::Read(0)))),
        Action::Abort(ChannelError::Read(0))
    );
    assert_eq!(d.phase(), Phase::Aborted);
}

#[test]
fn events_out_of_phase_change_nothing() {
    let mut d = Driver::new();
    assert_eq!(d.step(Event::Woke(Ok(vec![0]))), Action::Nothing);
    assert_eq!(d.step(Event::Forwarded), Action::Nothing);
    assert_eq!(d.phase(), Phase::Idle);
    let mut d = polling_driver(1);
    assert_eq!(d.step(Event::Drained(Ok(Vec::new()))), Action::Nothing);
    assert_eq!(d.step(Event::Started), Action::Nothing);
    assert_eq!(d.phase(), Phase::Polling);
}

#[test]
fn zero_channels_go_straight_to_waiting() {
    let mut d = Driver::new();
    d.step(Event::Started);
    assert_eq!(d.step(Event::Opened(Ok(0))), Action::Wait(WAIT_TIMEOUT_MS));
    assert_eq!(d.phase(), Phase::Polling);
}
