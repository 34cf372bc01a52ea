//! Relaying what the helper process prints to the hosting application.
//!
//! The host waits on the child's event stream; for each thing it receives it
//! asks [`relay_step`] what to do: publish a notification, pass over the
//! event, or stop because the stream has closed. The relay holds no state and
//! never looks at the handle slot, so it keeps draining a helper that a
//! shutdown has already taken out of the slot.

use vstd::prelude::*;
use vstd::utf8::*;

verus! {

/// One event from the output stream of the child.
#[derive(Debug, Clone, PartialEq, Eq)]
pub enum OutputEvent {
    /// A line the helper wrote to its standard output, as raw bytes.
    Stdout(Vec<u8>),
    /// A line the helper wrote to its standard error, as raw bytes.
    Stderr(Vec<u8>),
    /// The helper has exited.
    Exit,
    /// Anything else the stream reports.
    Other,
}

/// The two kinds of notification the host publishes.
#[derive(Debug, Clone, Copy, PartialEq, Eq, Structural)]
pub enum Channel {
    Stdout,
    Stderr,
}

/// A line of the helper's output, decoded and ready to be published.
#[derive(Debug, Clone, PartialEq, Eq)]
pub struct Notification {
    pub channel: Channel,
    pub payload: String,
}

/// A notification as the contracts see it.
pub struct Notice {
    pub channel: Channel,
    pub text: Seq<char>,
}

/// What the host does with what it received from the stream.
#[derive(Debug, Clone, PartialEq, Eq)]
pub enum RelayStep {
    /// Publish the notification and wait for the next event.
    Emit(Notification),
    /// Publish nothing and wait for the next event.
    Skip,
    /// The stream has closed: the relay task ends.
    Stop,
}

/// The text that `String::from_utf8_lossy` makes of `bytes`: their decoding,
/// with each invalid sequence replaced by U+FFFD.
pub uninterp spec fn lossy_text(bytes: Seq<u8>) -> Seq<char>;

/// Decodes a line with std's `String::from_utf8_lossy`.
///
/// Taken on trust from its documentation: the result depends on the bytes
/// alone, and bytes that are valid UTF-8 decode to exactly the text they
/// encode. Nothing is claimed here about where the replacement characters
/// fall for other bytes.
#[verifier::external_body]
fn decode_lossy(bytes: &[u8]) -> (text: String)
    ensures
        text@ == lossy_text(bytes@),
        valid_utf8(bytes@) ==> text@ == decode_utf8(bytes@),
{
    String::from_utf8_lossy(bytes).into_owned()
}

impl Channel {
    /// The name under which the host publishes notifications of this kind.
    pub fn event_name(self) -> (name: &'static str)
        ensures
            name@ == match self {
                Channel::Stdout => "sidecar-stdout"@,
                Channel::Stderr => "sidecar-stderr"@,
            },
    {
        match self {
            Channel::Stdout => "sidecar-stdout",
            Channel::Stderr => "sidecar-stderr",
        }
    }
}

impl View for Notification {
    type V = Notice;

    open spec fn view(&self) -> Notice {
        Notice { channel: self.channel, text: self.payload@ }
    }
}

impl Notification {
    /// A notification that carries `payload` on `channel`.
    pub fn new(channel: Channel, payload: String) -> (notification: Notification)
        ensures
            notification.channel == channel,
            notification.payload == payload,
    {
        Notification { channel, payload }
    }
}

/// The text a raw line is published as: the text it encodes where it is valid
/// UTF-8, and its lossy decoding where it is not.
pub open spec fn line_text(bytes: Seq<u8>) -> Seq<char> {
    if valid_utf8(bytes) {
        decode_utf8(bytes)
    } else {
        lossy_text(bytes)
    }
}

impl OutputEvent {
    /// The channel and the raw line of an event that carries output.
    pub open spec fn line(self) -> Option<(Channel, Seq<u8>)> {
        match self {
            OutputEvent::Stdout(bytes) => Some((Channel::Stdout, bytes@)),
            OutputEvent::Stderr(bytes) => Some((Channel::Stderr, bytes@)),
            _ => None,
        }
    }

    /// The notification that the event leads to, if it leads to one.
    pub open spec fn notice(self) -> Option<Notice> {
        match self.line() {
            Some((channel, bytes)) => Some(Notice { channel, text: line_text(bytes) }),
            None => None,
        }
    }
}

/// Decides what to do with what came from the stream: `None` stands for the
/// closed stream, at which the relay stops. A line of output becomes one
/// notification on the channel it came from, decoded as [`line_text`] says;
/// every other event is passed over.
pub fn relay_step(received: Option<OutputEvent>) -> (step: RelayStep)
    ensures
        match received {
            None => step is Stop,
            Some(event) => match event.notice() {
                Some(notice) => step matches RelayStep::Emit(notification) && notification@
                    == notice,
                None => step is Skip,
            },
        },
{
    match received {
        None => RelayStep::Stop,
        Some(OutputEvent::Stdout(bytes)) => {
            let payload = decode_lossy(bytes.as_slice());
            RelayStep::Emit(Notification::new(Channel::Stdout, payload))
        },
        Some(OutputEvent::Stderr(bytes)) => {
            let payload = decode_lossy(bytes.as_slice());
            RelayStep::Emit(Notification::new(Channel::Stderr, payload))
        },
        Some(_) => RelayStep::Skip,
    }
}

} // verus!
