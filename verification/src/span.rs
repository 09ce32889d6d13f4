//! A span of time measured from a starting instant, and the messages that report it.

use std::time::{Duration, Instant};
use vstd::prelude::*;

use crate::text::unsigned_text;

verus! {

/// A reading of the monotonic clock, `std::time::Instant`, carried through unopened.
#[verifier::external_type_specification]
#[verifier::external_body]
pub struct ExInstant(std::time::Instant);

/// `std::time::Instant::now` reads the clock. Nothing is claimed of the reading.
pub assume_specification[ std::time::Instant::now ]() -> (now: std::time::Instant);

/// `std::time::Instant::elapsed` reads the clock again and measures the time that has passed since
/// `start`. Nothing is claimed of the measurement.
pub assume_specification[ std::time::Instant::elapsed ](start: &std::time::Instant) -> (passed:
    std::time::Duration);

/// The length of a duration in nanoseconds.
pub uninterp spec fn nanoseconds(passed: std::time::Duration) -> u128;

/// `std::time::Duration::as_millis` gives the whole milliseconds that a duration contains: its length
/// in nanoseconds, divided and rounded down.
pub assume_specification[ std::time::Duration::as_millis ](passed: &std::time::Duration) -> (millis:
    u128)
    ensures
        millis == nanoseconds(*passed) / 1_000_000,
;

/// The whole milliseconds from `start` to some later reading of the clock.
pub open spec fn measured_since(start: Instant, millis: u128) -> bool {
    exists|passed: Duration| #[trigger]
        call_ensures(Instant::elapsed, (&start,), passed) && millis == nanoseconds(passed)
            / 1_000_000
}

/// Measures the milliseconds that have passed since `start`.
pub fn milliseconds_since(start: &Instant) -> (millis: u128)
    ensures
        measured_since(*start, millis),
{
    let passed: Duration = start.elapsed();
    assert(call_ensures(Instant::elapsed, (start,), passed));
    passed.as_millis()
}

/// What precedes the elapsed milliseconds in the JSON text of an elapsed message.
pub open spec fn json_head() -> Seq<char> {
    "{\"elapsed\":"@
}

/// What stands between the elapsed milliseconds and the message in that text.
pub open spec fn json_middle() -> Seq<char> {
    ", \"message\":\""@
}

/// What ends that text.
pub open spec fn json_tail() -> Seq<char> {
    "\"}"@
}

/// The JSON text of an elapsed message. The message stands in it as it is, without escapes.
pub open spec fn elapsed_json(elapsed: u128, message: Seq<char>) -> Seq<char> {
    json_head() + crate::text::decimal(elapsed as nat) + json_middle() + message + json_tail()
}

/// The text of an elapsed message for a reader of the log.
pub open spec fn elapsed_text(elapsed: u128, message: Seq<char>) -> Seq<char> {
    message + " - "@ + crate::text::decimal(elapsed as nat)
}

/// A message together with the milliseconds that passed until it was given.
pub struct ElapsedMessage {
    pub elapsed: u128,
    pub message: String,
}

impl ElapsedMessage {
    pub fn new(elapsed: u128, message: String) -> (elapsed_message: Self)
        ensures
            elapsed_message.elapsed == elapsed,
            elapsed_message.message@ == message@,
    {
        ElapsedMessage { elapsed, message }
    }

    /// The message as a JSON object with the members `elapsed` and `message`.
    pub fn to_json_string(&self) -> (json: String)
        ensures
            json@ == elapsed_json(self.elapsed, self.message@),
    {
        "{\"elapsed\":".to_owned().concat(unsigned_text(self.elapsed).as_str()).concat(
            ", \"message\":\"",
        ).concat(self.message.as_str()).concat("\"}")
    }

    /// The message, a dash and the milliseconds.
    pub fn to_string(&self) -> (text: String)
        ensures
            text@ == elapsed_text(self.elapsed, self.message@),
    {
        self.message.clone().concat(" - ").concat(unsigned_text(self.elapsed).as_str())
    }
}

/// Measures time from the moment it was made or last restarted.
pub struct SimpleSpan {
    start: Instant,
}

impl Default for SimpleSpan {
    fn default() -> (span: Self)
        ensures
            call_ensures(Instant::now, (), span.started()),
    {
        Self::new()
    }
}

impl SimpleSpan {
    /// The instant that the span is measured from.
    pub closed spec fn started(&self) -> Instant {
        self.start
    }

    /// A span that starts now.
    pub fn new() -> (span: Self)
        ensures
            call_ensures(Instant::now, (), span.started()),
    {
        SimpleSpan { start: Instant::now() }
    }

    /// Starts the span anew.
    pub fn start_new(&mut self)
        ensures
            call_ensures(Instant::now, (), final(self).started()),
    {
        self.start = Instant::now();
    }

    /// The milliseconds that have passed since the span started.
    pub fn get_elapsed_time_in_millisec(&self) -> (millis: u128)
        ensures
            measured_since(self.started(), millis),
    {
        milliseconds_since(&self.start)
    }

    /// The elapsed milliseconds and `message` as a JSON object.
    pub fn get_elapsed_json_message(&self, message: &str) -> (json: String)
        ensures
            exists|elapsed: u128| #[trigger]
                measured_since(self.started(), elapsed) && json@ == elapsed_json(elapsed, message@),
    {
        let elapsed_message = ElapsedMessage::new(
            self.get_elapsed_time_in_millisec(),
            message.to_owned(),
        );
        elapsed_message.to_json_string()
    }

    /// The text of the event that reports `message` with the elapsed milliseconds. The names of
    /// the method, the module and the logger do not enter it.
    pub fn write_event(
        &self,
        message: &str,
        _method_name: &str,
        _module_name: &str,
        _logger_key: &str,
    ) -> (event: String)
        ensures
            exists|elapsed: u128| #[trigger]
                measured_since(self.started(), elapsed) && event@ == elapsed_text(elapsed, message@),
    {
        let elapsed_message = ElapsedMessage::new(
            self.get_elapsed_time_in_millisec(),
            message.to_owned(),
        );
        elapsed_message.to_string()
    }
}

} // verus!
