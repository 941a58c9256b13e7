//! The background engine that greets the front end with a few numbered events.
use vstd::prelude::*;

verus! {

/// The last counter value the engine sends an event for.
pub const ENGINE_LAST_COUNT: u32 = 3;

/// The character of a decimal digit.
pub open spec fn digit_char(d: nat) -> char {
    (48 + d) as char
}

/// The decimal notation of `n`, without leading zeros.
pub open spec fn decimal_chars(n: nat) -> Seq<char>
    decreases n,
{
    if n < 10 {
        seq![digit_char(n)]
    } else {
        decimal_chars(n / 10).push(digit_char(n % 10))
    }
}

/// The number a string of decimal digits stands for.
pub open spec fn digits_value(s: Seq<char>) -> int
    decreases s.len(),
{
    if s.len() == 0 {
        0
    } else {
        digits_value(s.drop_last()) * 10 + (s.last() as int - 48)
    }
}

/// The decimal text of `n` is made of the digits `0`-`9`, has no leading
/// zero (unless `n` is 0) and reads back as `n`.
pub proof fn lemma_decimal_reads_back(n: nat)
    ensures
        decimal_chars(n).len() >= 1,
        forall|i: int| 0 <= i < decimal_chars(n).len() ==> '0' <= #[trigger] decimal_chars(n)[i] <= '9',
        n > 0 ==> decimal_chars(n)[0] != '0',
        digits_value(decimal_chars(n)) == n,
    decreases n,
{
    if n >= 10 {
        lemma_decimal_reads_back(n / 10);
        let s = decimal_chars(n);
        assert(s.drop_last() == decimal_chars(n / 10));
        assert(s[0] == decimal_chars(n / 10)[0]);
        assert((digit_char(n % 10) as int) == 48 + n % 10);
        assert(s.last() == digit_char(n % 10));
        assert(digits_value(s) == digits_value(s.drop_last()) * 10 + (s.last() as int - 48));
        assert((n / 10) * 10 + n % 10 == n) by (nonlinear_arith);
        assert forall|i: int| 0 <= i < s.len() implies '0' <= #[trigger] s[i] <= '9' by {
            if i < s.len() - 1 {
                assert(s[i] == decimal_chars(n / 10)[i]);
            }
        }
    } else {
        let s = decimal_chars(n);
        assert((digit_char(n) as int) == 48 + n);
        assert(s.drop_last() =~= Seq::<char>::empty());
        assert(digits_value(s) == digits_value(s.drop_last()) * 10 + (s.last() as int - 48));
    }
}

/// The text of the event with counter `n`.
pub open spec fn engine_event_text(n: nat) -> Seq<char> {
    "{\"name\": \"EVENT_NAME\", \"value\": "@ + decimal_chars(n) + "}"@
}

/// One tick of the engine at `counter`: the event text, the next counter, and
/// whether the engine stops after it.
pub open spec fn engine_step(counter: nat) -> (Seq<char>, nat, bool) {
    (engine_event_text(counter), counter + 1, counter + 1 > ENGINE_LAST_COUNT)
}

/// The single digit `d` as text.
fn digit_text(d: u32) -> (s: &'static str)
    requires
        d < 10,
    ensures
        s@ == seq![digit_char(d as nat)],
{
    proof {
        reveal_strlit("0");
        reveal_strlit("1");
        reveal_strlit("2");
        reveal_strlit("3");
        reveal_strlit("4");
        reveal_strlit("5");
        reveal_strlit("6");
        reveal_strlit("7");
        reveal_strlit("8");
        reveal_strlit("9");
    }
    if d == 0 {
        "0"
    } else if d == 1 {
        "1"
    } else if d == 2 {
        "2"
    } else if d == 3 {
        "3"
    } else if d == 4 {
        "4"
    } else if d == 5 {
        "5"
    } else if d == 6 {
        "6"
    } else if d == 7 {
        "7"
    } else if d == 8 {
        "8"
    } else {
        "9"
    }
}

/// The decimal notation of `n`.
pub fn decimal_text(n: u32) -> (s: String)
    ensures
        s@ == decimal_chars(n as nat),
    decreases n,
{
    if n < 10 {
        digit_text(n).to_owned()
    } else {
        let mut s = decimal_text(n / 10);
        s.append(digit_text(n % 10));
        s
    }
}

/// One tick of the engine at `counter`: the event to send, the next counter,
/// and whether the engine stops after sending it.
pub fn engine_tick(counter: u32) -> (r: (String, u32, bool))
    requires
        counter < u32::MAX,
    ensures
        (r.0@, r.1 as nat, r.2) == engine_step(counter as nat),
{
    let mut text = "{\"name\": \"EVENT_NAME\", \"value\": ".to_owned();
    let digits = decimal_text(counter);
    text.append(digits.as_str());
    text.append("}");
    let next = counter + 1;
    (text, next, next > ENGINE_LAST_COUNT)
}

/// Started at 0, the engine sends the events for 0, 1, 2 and 3, in this
/// order, and stops after the last of them.
pub proof fn lemma_engine_sends_four_events()
    ensures
        !engine_step(0).2 && engine_step(0).1 == 1,
        !engine_step(1).2 && engine_step(1).1 == 2,
        !engine_step(2).2 && engine_step(2).1 == 3,
        engine_step(3).2,
{
}

} // verus!
