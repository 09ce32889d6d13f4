//! What the texts of an elapsed message give back to a reader.

use std::time::{Duration, Instant};
use vstd::prelude::*;

verus! {

use crate::span::{
    elapsed_json,
    elapsed_text,
    json_head,
    json_middle,
    json_tail,
    measured_since,
    nanoseconds,
};
use crate::text::{
    decimal,
    decimal_is_digits,
    decimal_is_injective,
    decimal_reads_back,
    decimal_value,
};

/// The first position of `c` in `s` at or after `from`; the length of `s` where there is none.
pub open spec fn first_at(s: Seq<char>, c: char, from: int) -> int
    decreases s.len() - from,
{
    if from >= s.len() {
        s.len() as int
    } else if s[from] == c {
        from
    } else {
        first_at(s, c, from + 1)
    }
}

/// Whether a text can stand between the quotes of a JSON string as it is: it holds no quote, no
/// backslash and no control character.
pub open spec fn plain_in_json(s: Seq<char>) -> bool {
    forall|i: int| 0 <= i < s.len() ==> #[trigger] s[i] != '"' && s[i] != '\\' && ' ' <= s[i]
}

/// How a JSON reader takes the text of an elapsed message apart: the digits up to the comma, and
/// the string up to its closing quote. `None` where the text is not such an object, or its string
/// holds an escape or a character that JSON does not allow there.
pub open spec fn read_elapsed_json(json: Seq<char>) -> Option<(Seq<char>, Seq<char>)> {
    let number_start = json_head().len() as int;
    let number_end = first_at(json, ',', number_start);
    let message_start = number_end + json_middle().len();
    let message_end = first_at(json, '"', message_start);
    if number_start <= number_end && message_start <= message_end < json.len() && json.subrange(
        0,
        number_start,
    ) == json_head() && json.subrange(number_end, message_start) == json_middle() && json.subrange(
        message_end,
        json.len() as int,
    ) == json_tail() && plain_in_json(json.subrange(message_start, message_end)) {
        Some((json.subrange(number_start, number_end), json.subrange(message_start, message_end)))
    } else {
        None
    }
}

pub(crate) proof fn first_at_is(s: Seq<char>, c: char, from: int, at: int)
    requires
        0 <= from <= at < s.len(),
        s[at] == c,
        forall|i: int| from <= i < at ==> s[i] != c,
    ensures
        first_at(s, c, from) == at,
    decreases at - from,
{
    if from < at {
        first_at_is(s, c, from + 1, at);
    }
}

/// A JSON reader gets back from the text of an elapsed message its milliseconds and its message,
/// if and only if the message needs no escape in JSON.
pub proof fn elapsed_json_reads_back(elapsed: u128, message: Seq<char>)
    ensures
        read_elapsed_json(elapsed_json(elapsed, message)) == (if plain_in_json(message) {
            Some((decimal(elapsed as nat), message))
        } else {
            None
        }),
{
    let json = elapsed_json(elapsed, message);
    let number = decimal(elapsed as nat);
    reveal_strlit("{\"elapsed\":");
    reveal_strlit(", \"message\":\"");
    reveal_strlit("\"}");
    decimal_is_digits(elapsed as nat);
    let number_start = json_head().len() as int;
    let number_end = number_start + number.len();
    let message_start = number_end + json_middle().len();
    assert forall|i: int| number_start <= i < number_end implies json[i] != ',' by {
        assert(json[i] == number[i - number_start]);
    }
    assert(json[number_end] == json_middle()[0]);
    first_at_is(json, ',', number_start, number_end);
    assert(json.subrange(0, number_start) =~= json_head());
    assert(json.subrange(number_start, number_end) =~= number);
    assert(json.subrange(number_end, message_start) =~= json_middle());
    let close = message_start + message.len();
    assert(json.subrange(message_start, close) =~= message);
    assert(json.subrange(close, json.len() as int) =~= json_tail());
    assert(json[close] == '"');
    if forall|i: int| 0 <= i < message.len() ==> message[i] != '"' {
        assert forall|i: int| message_start <= i < close implies json[i] != '"' by {
            assert(json[i] == message[i - message_start]);
        }
        first_at_is(json, '"', message_start, close);
    } else {
        let k = first_quote(message);
        assert forall|i: int| message_start <= i < message_start + k implies json[i] != '"' by {
            assert(json[i] == message[i - message_start]);
        }
        assert(json[message_start + k] == message[k]);
        first_at_is(json, '"', message_start, message_start + k);
        assert(json.subrange(message_start + k, json.len() as int).len() > json_tail().len());
    }
}

/// The position of the first quote of a message that holds one.
proof fn first_quote(message: Seq<char>) -> (k: int)
    requires
        exists|i: int| 0 <= i < message.len() && message[i] == '"',
    ensures
        0 <= k < message.len(),
        message[k] == '"',
        forall|i: int| 0 <= i < k ==> message[i] != '"',
    decreases message.len(),
{
    if message[0] == '"' {
        0
    } else {
        let rest = message.drop_first();
        let i = choose|i: int| 0 <= i < message.len() && message[i] == '"';
        assert(rest[i - 1] == '"');
        let k = first_quote(rest) + 1;
        assert forall|i: int| 0 <= i < k implies message[i] != '"' by {
            if i > 0 {
                assert(rest[i - 1] == message[i]);
            }
        }
        k
    }
}

/// No two elapsed messages have the same JSON text, whatever the messages hold.
pub proof fn elapsed_json_is_injective(e1: u128, m1: Seq<char>, e2: u128, m2: Seq<char>)
    requires
        elapsed_json(e1, m1) == elapsed_json(e2, m2),
    ensures
        e1 == e2,
        m1 == m2,
{
    let json = elapsed_json(e1, m1);
    let n1 = decimal(e1 as nat);
    let n2 = decimal(e2 as nat);
    reveal_strlit("{\"elapsed\":");
    reveal_strlit(", \"message\":\"");
    reveal_strlit("\"}");
    decimal_is_digits(e1 as nat);
    decimal_is_digits(e2 as nat);
    let start = json_head().len() as int;
    assert forall|i: int| start <= i < start + n1.len() implies json[i] != ',' by {
        assert(json[i] == n1[i - start]);
    }
    assert forall|i: int| start <= i < start + n2.len() implies json[i] != ',' by {
        assert(elapsed_json(e2, m2)[i] == n2[i - start]);
    }
    assert(json[start + n1.len()] == ',');
    assert(elapsed_json(e2, m2)[start + n2.len()] == ',');
    assert(n1.len() == n2.len());
    assert(n1 =~= json.subrange(start, start + n1.len()));
    assert(n2 =~= elapsed_json(e2, m2).subrange(start, start + n2.len()));
    decimal_is_injective(e1 as nat, e2 as nat);
    let at = start + n1.len() + json_middle().len();
    assert(m1 =~= json.subrange(at, json.len() - 2));
    assert(m2 =~= elapsed_json(e2, m2).subrange(at, json.len() - 2));
}

/// No two elapsed messages have the same text in the log.
pub proof fn elapsed_text_is_injective(e1: u128, m1: Seq<char>, e2: u128, m2: Seq<char>)
    requires
        elapsed_text(e1, m1) == elapsed_text(e2, m2),
    ensures
        e1 == e2,
        m1 == m2,
{
    let text = elapsed_text(e1, m1);
    let other = elapsed_text(e2, m2);
    let n1 = decimal(e1 as nat);
    let n2 = decimal(e2 as nat);
    reveal_strlit(" - ");
    decimal_is_digits(e1 as nat);
    decimal_is_digits(e2 as nat);
    let len = text.len();
    assert forall|i: int| len - n1.len() <= i < len implies text[i] != ' ' by {
        assert(text[i] == n1[i - (len - n1.len())]);
    }
    assert forall|i: int| len - n2.len() <= i < len implies text[i] != ' ' by {
        assert(other[i] == n2[i - (len - n2.len())]);
    }
    assert(text[len - n1.len() - 1] == ' ');
    assert(other[len - n2.len() - 1] == ' ');
    assert(n1.len() == n2.len());
    assert(n1 =~= text.subrange(len - n1.len(), len as int));
    assert(n2 =~= other.subrange(len - n2.len(), len as int));
    decimal_is_injective(e1 as nat, e2 as nat);
    assert(m1 =~= text.subrange(0, len - n1.len() - 3));
    assert(m2 =~= other.subrange(0, len - n2.len() - 3));
}

/// The JSON text of an elapsed message holds the milliseconds as digits and the message as it is,
/// character for character, between the names of the two members.
pub proof fn elapsed_json_holds_both(elapsed: u128, message: Seq<char>)
    ensures
        ({
            let json = elapsed_json(elapsed, message);
            let digits_end = json.len() - message.len() - 15;
            &&& 11 < digits_end
            &&& json.take(11) == "{\"elapsed\":"@
            &&& decimal_value(json.subrange(11, digits_end)) == elapsed
            &&& forall|i: int| 11 <= i < digits_end ==> '0' <= #[trigger] json[i] <= '9'
            &&& json.subrange(digits_end, digits_end + 13) == ", \"message\":\""@
            &&& json.subrange(digits_end + 13, json.len() - 2) == message
            &&& json.skip(json.len() - 2) == "\"}"@
        }),
{
    let json = elapsed_json(elapsed, message);
    let number = decimal(elapsed as nat);
    reveal_strlit("{\"elapsed\":");
    reveal_strlit(", \"message\":\"");
    reveal_strlit("\"}");
    decimal_is_digits(elapsed as nat);
    decimal_reads_back(elapsed as nat);
    let digits_end: int = 11 + number.len() as int;
    assert(json.len() - message.len() - 15 == digits_end);
    assert(json.take(11) =~= "{\"elapsed\":"@);
    assert(json.subrange(11, digits_end) =~= number);
    assert forall|i: int| 11 <= i < digits_end implies '0' <= #[trigger] json[i] <= '9' by {
        assert(json[i] == number[i - 11]);
    }
    assert(json.subrange(digits_end, digits_end + 13) =~= ", \"message\":\""@);
    assert(json.subrange(digits_end + 13, json.len() - 2) =~= message);
    assert(json.skip(json.len() - 2) =~= "\"}"@);
}

/// The text of an elapsed message for the log is the message as it is, a dash between spaces, and the
/// digits of the milliseconds.
pub proof fn elapsed_text_holds_both(elapsed: u128, message: Seq<char>)
    ensures
        ({
            let text = elapsed_text(elapsed, message);
            let digits_start = message.len() + 3;
            &&& digits_start < text.len()
            &&& text.take(message.len() as int) == message
            &&& text.subrange(message.len() as int, digits_start as int) == seq![' ', '-', ' ']
            &&& decimal_value(text.skip(digits_start as int)) == elapsed
            &&& forall|i: int| digits_start <= i < text.len() ==> '0' <= #[trigger] text[i] <= '9'
        }),
{
    let text = elapsed_text(elapsed, message);
    let number = decimal(elapsed as nat);
    let digits_start = message.len() + 3;
    reveal_strlit(" - ");
    decimal_is_digits(elapsed as nat);
    decimal_reads_back(elapsed as nat);
    assert(text.take(message.len() as int) =~= message);
    assert(text.subrange(message.len() as int, digits_start as int) =~= seq![' ', '-', ' ']);
    assert(text.skip(digits_start as int) =~= number);
    assert forall|i: int| digits_start <= i < text.len() implies '0' <= #[trigger] text[i]
        <= '9' by {
        assert(text[i] == number[i - digits_start]);
    }
}

/// A measured time is that of one measurement from the start of the span: as many milliseconds as
/// have passed in full, no more and no fewer.
pub proof fn measured_time_is_whole_milliseconds(start: Instant, millis: u128)
    requires
        measured_since(start, millis),
    ensures
        exists|passed: Duration| #[trigger]
            call_ensures(Instant::elapsed, (&start,), passed) && millis * 1_000_000 <= nanoseconds(
                passed,
            ) < (millis + 1) * 1_000_000,
{
    let passed = choose|passed: Duration| #[trigger]
        call_ensures(Instant::elapsed, (&start,), passed) && millis == nanoseconds(passed)
            / 1_000_000;
    assert(millis * 1_000_000 <= nanoseconds(passed) < (millis + 1) * 1_000_000);
}

} // verus!
