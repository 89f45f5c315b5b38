//! The command dispatcher: decodes inbound broker messages and decides, per
//! message, whether the unlock action fires. The dispatcher runs on a
//! dedicated worker thread with exclusive ownership of the connection half of
//! the broker session; it processes events strictly one at a time, so a second
//! message is never examined before the current unlock hold has completed,
//! and it exits cleanly when the event source closes.
use vstd::prelude::*;
use vstd::string::StringSliceAdditionalSpecFns;
use vstd::utf8::valid_utf8;
use vstd::utf8::decode_utf8;
use vstd::utf8::encode_utf8_decode_utf8;

verus! {

/// Seconds the unlock signal is held asserted before being released.
pub const UNLOCK_HOLD_SECS: u64 = 5;

/// The topic on which unlock commands arrive.
pub open spec fn spec_unlock_topic() -> Seq<char> {
    "gca/api-gateway/unlock"@
}

/// The exact payload text that triggers the unlock action.
pub open spec fn spec_unlock_payload() -> Seq<char> {
    "true"@
}

/// What the dispatcher decided about one inbound event.
#[derive(Clone, Copy, PartialEq, Eq, Structural, Debug)]
pub enum Outcome {
    /// Assert the unlock signal, hold it for `UNLOCK_HOLD_SECS`, release it.
    Unlock,
    /// A well-formed message whose topic/payload is not the unlock command:
    /// logged and otherwise ignored.
    Unrecognized,
    /// The payload is not valid UTF-8: reported, never fatal.
    Malformed,
    /// A connection-lifecycle notification, not a message: logged and ignored.
    NonMessage,
}

/// One event delivered by the connection half of the broker session.
pub enum ConnEvent {
    /// An inbound message with its topic (absent on fragmented deliveries)
    /// and raw payload bytes.
    Received { topic: Option<String>, data: Vec<u8> },
    /// A connection-lifecycle notification carrying no message.
    Status,
    /// The event source has closed; no further events follow.
    Closed,
}

/// The decision for one received message: unlock exactly when the topic is
/// the unlock topic and the payload decodes to the exact text `true`;
/// a payload that is not UTF-8 is malformed; everything else is ignored.
pub open spec fn spec_outcome(topic: Option<Seq<char>>, data: Seq<u8>) -> Outcome {
    if !valid_utf8(data) {
        Outcome::Malformed
    } else if {
        &&& topic matches Some(t)
        &&& t == spec_unlock_topic()
        &&& decode_utf8(data) == spec_unlock_payload()
    } {
        Outcome::Unlock
    } else {
        Outcome::Unrecognized
    }
}

/// The decision for one connection event.
pub open spec fn spec_event_outcome(e: ConnEvent) -> Outcome {
    match e {
        ConnEvent::Received { topic, data } => spec_outcome(topic.deep_view(), data@),
        ConnEvent::Status => Outcome::NonMessage,
        ConnEvent::Closed => Outcome::NonMessage,
    }
}

/// Law: the unlock action is decided if and only if the payload is valid
/// UTF-8, the topic equals the unlock topic, and the payload decodes to
/// exactly the unlock text — case-sensitive, untrimmed, nothing else.
pub proof fn lemma_unlock_iff(topic: Option<Seq<char>>, data: Seq<u8>)
    ensures
        spec_outcome(topic, data) == Outcome::Unlock <==> {
            &&& valid_utf8(data)
            &&& topic matches Some(t) && t == spec_unlock_topic()
            &&& decode_utf8(data) == spec_unlock_payload()
        },
{
}

/// Relies on core::str::from_utf8: returns a string slice backed by exactly
/// the given bytes when they form valid UTF-8, and nothing otherwise.
#[verifier::external_body]
fn decode_text(data: &[u8]) -> (r: Option<&str>)
    ensures
        r is Some <==> valid_utf8(data@),
        r matches Some(s) ==> s.spec_bytes() == data@,
{
    core::str::from_utf8(data).ok()
}

/// String equality over the character views.
pub fn str_eq(a: &str, b: &str) -> (r: bool)
    ensures
        r == (a@ == b@),
{
    let sa: String = a.to_owned();
    let sb: String = b.to_owned();
    sa == sb
}

/// Decide one received message. Unlock fires if and only if the topic equals
/// the unlock topic and the payload bytes decode to exactly `true`
/// (case-sensitive, no trimming); a non-UTF-8 payload is malformed; any other
/// combination is ignored.
pub fn process_message(topic: Option<&str>, data: &[u8]) -> (r: Outcome)
    ensures
        r == spec_outcome(topic.deep_view(), data@),
{
    match decode_text(data) {
        Option::None => Outcome::Malformed,
        Option::Some(text) => {
            proof {
                encode_utf8_decode_utf8(text@);
            }
            match topic {
                Option::Some(t) => {
                    if str_eq(t, "gca/api-gateway/unlock") && str_eq(text, "true") {
                        Outcome::Unlock
                    } else {
                        Outcome::Unrecognized
                    }
                },
                Option::None => Outcome::Unrecognized,
            }
        },
    }
}

/// Consume connection events in arrival order until the event source closes,
/// deciding each event fully before looking at the next; the returned log
/// holds one outcome per event of the maximal prefix before the first close.
/// The function always returns normally: a closed connection ends the worker
/// without any error propagation.
pub fn run_dispatcher(events: &Vec<ConnEvent>) -> (log: Vec<Outcome>)
    ensures
        log@.len() <= events@.len(),
        forall|i: int|
            0 <= i < log@.len() ==> !(#[trigger] events@[i] is Closed) && log@[i]
                == spec_event_outcome(events@[i]),
        log@.len() < events@.len() ==> events@[log@.len() as int] is Closed,
{
    let mut log: Vec<Outcome> = Vec::new();
    let mut i: usize = 0;
    while i < events.len()
        invariant
            0 <= i <= events@.len(),
            log@.len() == i,
            forall|j: int|
                0 <= j < i ==> !(#[trigger] events@[j] is Closed) && log@[j]
                    == spec_event_outcome(events@[j]),
        decreases events@.len() - i,
    {
        match &events[i] {
            ConnEvent::Closed => {
                return log;
            },
            ConnEvent::Status => {
                log.push(Outcome::NonMessage);
            },
            ConnEvent::Received { topic, data } => {
                let t: Option<&str> = match topic {
                    Option::Some(s) => Option::Some(s.as_str()),
                    Option::None => Option::None,
                };
                let outcome = process_message(t, data.as_slice());
                log.push(outcome);
            },
        }
        i = i + 1;
    }
    log
}

} // verus!
