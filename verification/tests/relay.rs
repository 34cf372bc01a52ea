//! The relay's decisions, one event at a time.

use sidecar_shell::relay::{relay_step, Channel, Notification, OutputEvent, RelayStep};

fn emitted(channel: Channel, payload: &str) -> RelayStep {
    RelayStep::Emit(Notification::new(channel, String::from(payload)))
}

#[test]
fn stdout_line_becomes_stdout_notification() {
    let step = relay_step(Some(OutputEvent::Stdout(b"ready".to_vec())));
    assert_eq!(step, emitted(Channel::Stdout, "ready"));
}

#[test]
fn stderr_line_becomes_stderr_notification() {
    let step = relay_step(Some(OutputEvent::Stderr(b"warning: low disk".to_vec())));
    assert_eq!(step, emitted(Channel::Stderr, "warning: low disk"));
}

#[test]
fn other_events_are_passed_over() {
    assert_eq!(relay_step(Some(OutputEvent::Exit)), RelayStep::Skip);
    assert_eq!(relay_step(Some(OutputEvent::Other)), RelayStep::Skip);
}

#[test]
fn closed_stream_stops_the_relay() {
    assert_eq!(relay_step(None), RelayStep::Stop);
}

#[test]
fn empty_line_is_still_published() {
    let step = relay_step(Some(OutputEvent::Stdout(Vec::new())));
    assert_eq!(step, emitted(Channel::Stdout, ""));
}

#[test]
fn valid_utf8_arrives_byte_for_byte() {
    let line = "héllo wörld ✓ 日本語\n";
    let step = relay_step(Some(OutputEvent::Stdout(line.as_bytes().to_vec())));
    match step {
        RelayStep::Emit(notification) => {
            assert_eq!(notification.channel, Channel::Stdout);
            assert_eq!(notification.payload.as_bytes(), line.as_bytes());
        }
        _ => panic!("a line of output must be published"),
    }
}

#[test]
fn invalid_bytes_are_replaced_and_the_relay_goes_on() {
    let step = relay_step(Some(OutputEvent::Stdout(vec![0x66, 0xff, 0x6f])));
    assert_eq!(step, emitted(Channel::Stdout, "f\u{fffd}o"));
    let step = relay_step(Some(OutputEvent::Stderr(vec![0xc3, 0x28])));
    assert_eq!(step, emitted(Channel::Stderr, "\u{fffd}("));
    let step = relay_step(Some(OutputEvent::Stdout(b"next".to_vec())));
    assert_eq!(step, emitted(Channel::Stdout, "next"));
}

#[test]
fn channel_names() {
    assert_eq!(Channel::Stdout.event_name(), "sidecar-stdout");
    assert_eq!(Channel::Stderr.event_name(), "sidecar-stderr");
}

#[test]
fn every_stdout_line_is_published_once_in_order() {
    let stream = vec![
        Some(OutputEvent::Stdout(b"one".to_vec())),
        Some(OutputEvent::Stderr(b"oops".to_vec())),
        Some(OutputEvent::Other),
        Some(OutputEvent::Stdout(b"two".to_vec())),
        Some(OutputEvent::Stdout(b"two".to_vec())),
        Some(OutputEvent::Exit),
        None,
        Some(OutputEvent::Stdout(b"after close".to_vec())),
    ];
    let mut stdout = Vec::new();
    let mut stderr = Vec::new();
    for received in stream {
        match relay_step(received) {
            RelayStep::Emit(notification) => match notification.channel {
                Channel::Stdout => stdout.push(notification.payload),
                Channel::Stderr => stderr.push(notification.payload),
            },
            RelayStep::Skip => {}
            RelayStep::Stop => break,
        }
    }
    assert_eq!(stdout, vec!["one", "two", "two"]);
    assert_eq!(stderr, vec!["oops"]);
}
