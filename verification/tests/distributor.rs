//! Work distributor and send-path tests: least-loaded acquisition, the
//! backpressure signal, and the linker's send-path state machine.

use redra::linker::{RDLinker, SendDirective, SendEvent};
use redra::work_share::{AutoChannel, RDWosh};

#[test]
fn acquire_returns_least_loaded() {
    let mut w = RDWosh::new();
    let mut a = AutoChannel::new(10);
    let mut b = AutoChannel::new(11);
    let c = AutoChannel::new(12);
    a.record_send();
    a.record_send();
    a.record_send();
    b.record_send();
    w.add_channel(a);
    w.add_channel(b);
    w.add_channel(c);
    // c has never been sent on, so it comes out first
    let got = w.get_channel().unwrap();
    assert_eq!(got.id, 12);
    assert_eq!(got.send_count, 0);
    // then b with one send, then a with three
    assert_eq!(w.get_channel().unwrap().id, 11);
    assert_eq!(w.get_channel().unwrap().id, 10);
    assert!(w.get_channel().is_none());
}

#[test]
fn acquire_on_empty_registry_yields_nothing() {
    let mut w = RDWosh::new();
    assert!(w.get_channel().is_none());
}

#[test]
fn channel_alarms_quarter_rule() {
    let c = AutoChannel::new(0);
    // a quarter of 32 is 8: alarms strictly below 8 remaining
    assert!(c.channel_alarms(7, 32));
    assert!(!c.channel_alarms(8, 32));
    assert!(c.channel_alarms(0, 32));
    assert!(!c.channel_alarms(32, 32));
    // tiny capacities: a quarter rounds down to zero, never alarming
    assert!(!c.channel_alarms(0, 3));
}

#[test]
fn record_send_counts() {
    let mut c = AutoChannel::new(3);
    assert_eq!(c.get_id(), 3);
    assert_eq!(c.send_count, 0);
    c.record_send();
    c.record_send();
    assert_eq!(c.send_count, 2);
}

#[test]
fn send_path_empty_registry_expands_once_then_drops() {
    let mut w = RDWosh::new();
    let mut l = RDLinker::new(0);
    let mut expansion_requests: u32 = 0;
    let d1 = l.send_step(&mut w, SendEvent::Start);
    if d1 == SendDirective::RequestExpansion {
        expansion_requests += 1;
    }
    assert_eq!(d1, SendDirective::RequestExpansion);
    // the expansion request went out, but nothing answered it
    let d2 = l.send_step(&mut w, SendEvent::Proceed);
    if d2 == SendDirective::RequestExpansion {
        expansion_requests += 1;
    }
    assert_eq!(d2, SendDirective::Dropped);
    assert_eq!(expansion_requests, 1);
}

#[test]
fn send_path_expansion_answered() {
    let mut w = RDWosh::new();
    let mut l = RDLinker::new(0);
    assert_eq!(
        l.send_step(&mut w, SendEvent::Start),
        SendDirective::RequestExpansion
    );
    // the listener created a forwarder and registered its channel
    w.add_channel(AutoChannel::new(7));
    assert_eq!(
        l.send_step(&mut w, SendEvent::Proceed),
        SendDirective::TrySend(7)
    );
    assert_eq!(
        l.send_step(&mut w, SendEvent::SendOk),
        SendDirective::Delivered
    );
    // the channel is held for the next payload, with its send recorded
    assert_eq!(l.held.unwrap().send_count, 1);
}

#[test]
fn send_path_reuses_held_channel() {
    let mut w = RDWosh::new();
    w.add_channel(AutoChannel::new(1));
    let mut l = RDLinker::new(0);
    assert_eq!(
        l.send_step(&mut w, SendEvent::Start),
        SendDirective::TrySend(1)
    );
    assert_eq!(
        l.send_step(&mut w, SendEvent::SendOk),
        SendDirective::Delivered
    );
    // next payload goes straight to the held channel, not the registry
    assert_eq!(
        l.send_step(&mut w, SendEvent::Start),
        SendDirective::TrySend(1)
    );
    assert_eq!(
        l.send_step(&mut w, SendEvent::SendOk),
        SendDirective::Delivered
    );
    assert_eq!(l.held.unwrap().send_count, 2);
}

#[test]
fn send_path_held_failure_acquires_fresh() {
    let mut w = RDWosh::new();
    w.add_channel(AutoChannel::new(2));
    let mut l = RDLinker::new(0);
    l.held = Some(AutoChannel::new(9));
    assert_eq!(
        l.send_step(&mut w, SendEvent::Start),
        SendDirective::TrySend(9)
    );
    // the held channel's receiver is gone: discard it, acquire a new one
    assert_eq!(
        l.send_step(&mut w, SendEvent::SendFail),
        SendDirective::TrySend(2)
    );
    assert_eq!(
        l.send_step(&mut w, SendEvent::SendOk),
        SendDirective::Delivered
    );
    assert_eq!(l.held.unwrap().id, 2);
}

#[test]
fn send_path_fresh_failure_drops() {
    let mut w = RDWosh::new();
    w.add_channel(AutoChannel::new(4));
    let mut l = RDLinker::new(0);
    assert_eq!(
        l.send_step(&mut w, SendEvent::Start),
        SendDirective::TrySend(4)
    );
    assert_eq!(l.send_step(&mut w, SendEvent::SendFail), SendDirective::Dropped);
    assert!(l.held.is_none());
}

#[test]
fn return_channel_re_registers() {
    let mut w = RDWosh::new();
    let mut l = RDLinker::new(0);
    let mut c = AutoChannel::new(5);
    c.record_send();
    l.held = Some(c);
    l.return_channel(&mut w);
    assert!(l.held.is_none());
    let got = w.get_channel().unwrap();
    assert_eq!(got.id, 5);
    assert_eq!(got.send_count, 1);
}
