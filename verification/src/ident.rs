//! Session identifiers, made from the clock.

use vstd::prelude::*;

verus! {

/// The hexadecimal digits, each at the position that it stands for.
pub open spec fn digits() -> Seq<char> {
    "0123456789abcdef"@
}

/// `n` in lower-case hexadecimal, without leading zeros.
pub open spec fn hex_digits(n: nat) -> Seq<char>
    decreases n,
{
    if n < 16 {
        seq![digits()[n as int]]
    } else {
        hex_digits(n / 16).push(digits()[(n % 16) as int])
    }
}

/// The nanoseconds since the Unix epoch that the clock says, or zero where it stands before the
/// epoch.
pub open spec fn clock_nanos(clock: Option<u128>) -> u128 {
    match clock {
        Some(nanos) => nanos,
        None => 0,
    }
}

/// The unique part of an identifier, from what the clock says.
pub open spec fn unique_part(clock: Option<u128>) -> Seq<char> {
    hex_digits(clock_nanos(clock) as nat)
}

/// The identifier of a session with the unique part `unique`.
pub open spec fn session_id(unique: Seq<char>) -> Seq<char> {
    "input_capture_"@ + unique
}

/// The text of one hexadecimal digit.
fn digit_text(digit: usize) -> (text: &'static str)
    requires
        digit < 16,
    ensures
        text@ == seq![digits()[digit as int]],
{
    let all: &'static str = "0123456789abcdef";
    proof {
        reveal_strlit("0123456789abcdef");
    }
    let text = all.substring_ascii(digit, digit + 1);
    assert(text@ =~= seq![digits()[digit as int]]);
    text
}

/// Writes `n` in lower-case hexadecimal, without leading zeros.
pub fn hex_text(n: u128) -> (text: String)
    ensures
        text@ == hex_digits(n as nat),
    decreases n,
{
    let last = digit_text((n % 16) as usize);
    if n < 16 {
        last.to_owned()
    } else {
        let mut text = hex_text(n / 16);
        text.append(last);
        assert(text@ =~= hex_digits(n as nat));
        text
    }
}

/// Writes the identifier of a session with the unique part `unique`.
pub fn session_id_text(unique: &str) -> (text: String)
    ensures
        text@ == session_id(unique@),
{
    let mut text = "input_capture_".to_owned();
    text.append(unique);
    text
}

/// Reads the clock through `std::time::SystemTime::elapsed`, taken of the Unix epoch: the whole
/// nanoseconds since the epoch, or `None` where the clock stands before it. What the clock says is
/// not known beforehand, so nothing is claimed of the result.
#[verifier::external_body]
fn nanos_since_epoch() -> (clock: Option<u128>) {
    match std::time::UNIX_EPOCH.elapsed() {
        Ok(elapsed) => Some(elapsed.as_nanos()),
        Err(_) => None,
    }
}

/// `reading` is something that the clock says when it is read. What the clock may say is not known;
/// only reading it shows that something is a reading.
pub closed spec fn clock_reading(reading: Option<u128>) -> bool {
    call_ensures(nanos_since_epoch, (), reading)
}

/// Writes the unique part of an identifier, from what the clock says.
pub fn unique_part_text(clock: Option<u128>) -> (text: String)
    ensures
        text@ == unique_part(clock),
{
    hex_text(clock.unwrap_or(0))
}

/// Asks a clock once, and hands on what it says.
fn reading_of<C: Fn() -> Option<u128>>(clock: C) -> (reading: Option<u128>)
    requires
        call_requires(clock, ()),
    ensures
        call_ensures(clock, (), reading),
{
    clock()
}

/// Generate a simple unique ID
///
/// It is the unique part for a reading of the clock that was made for it.
pub fn uuid_simple() -> (id: String)
    ensures
        exists|reading: Option<u128>|
            {
                &&& #[trigger] clock_reading(reading)
                &&& id@ == unique_part(reading)
            },
{
    let reading = reading_of(nanos_since_epoch);
    proof {
        lemma_clock_reading(reading);
    }
    unique_part_text(reading)
}

/// A reading of the clock is what the clock itself says when it is read, and nothing else.
proof fn lemma_clock_reading(reading: Option<u128>)
    ensures
        clock_reading(reading) <==> call_ensures(nanos_since_epoch, (), reading),
{
}

/// Different numbers are written differently.
pub proof fn lemma_hex_digits_injective(a: nat, b: nat)
    ensures
        hex_digits(a) == hex_digits(b) ==> a == b,
    decreases a,
{
    if hex_digits(a) == hex_digits(b) {
        reveal_strlit("0123456789abcdef");
        lemma_hex_digits_len(a);
        lemma_hex_digits_len(b);
        assert(hex_digits(a).last() == digits()[(a % 16) as int]);
        assert(hex_digits(b).last() == digits()[(b % 16) as int]);
        if a >= 16 && b >= 16 {
            assert(hex_digits(a).drop_last() =~= hex_digits(a / 16));
            assert(hex_digits(b).drop_last() =~= hex_digits(b / 16));
            lemma_hex_digits_injective(a / 16, b / 16);
        }
    }
}

/// A number has more than one digit where it is sixteen or more.
proof fn lemma_hex_digits_len(n: nat)
    ensures
        hex_digits(n).len() >= 1,
        hex_digits(n).len() == 1 <==> n < 16,
    decreases n,
{
    if n >= 16 {
        lemma_hex_digits_len(n / 16);
    }
}

/// The value of a hexadecimal digit, by its place in the character set: `0` to `9`, then `a` to `f`.
pub open spec fn digit_value(digit: char) -> int {
    if '0' <= digit && digit <= '9' {
        digit as int - '0' as int
    } else {
        digit as int - 'a' as int + 10
    }
}

/// The number that a text stands for, read as hexadecimal from the most significant digit on.
pub open spec fn hex_value(text: Seq<char>) -> int
    decreases text.len(),
{
    if text.len() == 0 {
        0
    } else {
        hex_value(text.drop_last()) * 16 + digit_value(text.last())
    }
}

/// What is written for a number reads as that number. It has only the digits `0` to `9` and `a` to
/// `f`, at least one of them, and it begins with `0` for zero alone.
pub proof fn lemma_hex_digits_read_back(n: nat)
    ensures
        hex_value(hex_digits(n)) == n,
        hex_digits(n).len() >= 1,
        forall|i: int|
            0 <= i < hex_digits(n).len() ==> ('0' <= #[trigger] hex_digits(n)[i] && hex_digits(
                n,
            )[i] <= '9') || ('a' <= hex_digits(n)[i] && hex_digits(n)[i] <= 'f'),
        hex_digits(n)[0] == '0' ==> n == 0,
    decreases n,
{
    reveal_strlit("0123456789abcdef");
    reveal_with_fuel(hex_value, 2);
    let text = hex_digits(n);
    if n < 16 {
        assert(text.drop_last() =~= Seq::<char>::empty());
    } else {
        lemma_hex_digits_read_back(n / 16);
        assert(text.drop_last() =~= hex_digits(n / 16));
    }
}

/// The unique part for a reading of the clock reads as the reading, down to the nanosecond. A clock
/// that stands before the epoch counts as one that stands at it.
pub proof fn lemma_unique_part_is_the_reading(nanos: u128)
    ensures
        hex_value(unique_part(Some(nanos))) == nanos,
        unique_part(Some(nanos))[0] == '0' ==> nanos == 0,
        unique_part(None) == unique_part(Some(0)),
{
    lemma_hex_digits_read_back(nanos as nat);
}

/// An identifier begins with the words that mark it, and the unique part is all that follows.
pub proof fn lemma_session_id_marked(unique: Seq<char>)
    ensures
        session_id(unique).len() == "input_capture_"@.len() + unique.len(),
        session_id(unique).take("input_capture_"@.len() as int) == "input_capture_"@,
        session_id(unique).skip("input_capture_"@.len() as int) == unique,
{
    let n = "input_capture_"@.len() as int;
    assert(session_id(unique).take(n) =~= "input_capture_"@);
    assert(session_id(unique).skip(n) =~= unique);
}

/// Sessions for which the clock said different times have different identifiers. A clock that stands
/// before the epoch counts as one that stands at it.
pub proof fn lemma_session_ids_differ(first: Option<u128>, second: Option<u128>)
    requires
        (match first {
            Some(nanos) => nanos,
            None => 0,
        }) != (match second {
            Some(nanos) => nanos,
            None => 0,
        }),
    ensures
        session_id(unique_part(first)) != session_id(unique_part(second)),
{
    lemma_hex_digits_injective(clock_nanos(first) as nat, clock_nanos(second) as nat);
    lemma_session_id_marked(unique_part(first));
    lemma_session_id_marked(unique_part(second));
}

} // verus!
