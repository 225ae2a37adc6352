//! Decimal text for the numbers that go into header values.

use vstd::prelude::*;

verus! {

/// Nanoseconds in one second.
pub const NANOS_PER_SEC: u64 = 1_000_000_000;

/// The character for a single decimal digit.
pub open spec fn digit(d: nat) -> char {
    if d == 0 {
        '0'
    } else if d == 1 {
        '1'
    } else if d == 2 {
        '2'
    } else if d == 3 {
        '3'
    } else if d == 4 {
        '4'
    } else if d == 5 {
        '5'
    } else if d == 6 {
        '6'
    } else if d == 7 {
        '7'
    } else if d == 8 {
        '8'
    } else {
        '9'
    }
}

/// Whether `c` is one of `'0'` to `'9'`.
pub open spec fn is_digit(c: char) -> bool {
    '0' <= c <= '9'
}

/// `n` in decimal, without sign or leading zeros; `"0"` for zero.
pub open spec fn decimal_text(n: nat) -> Seq<char>
    decreases n,
{
    if n < 10 {
        seq![digit(n)]
    } else {
        decimal_text(n / 10).push(digit(n % 10))
    }
}

/// The decimal places of `part` billionths, at most `places` of them, up to
/// the last one that is not zero. Empty where `part` is zero.
pub open spec fn fraction_text(part: nat, places: nat) -> Seq<char>
    decreases places,
{
    if part == 0 || places == 0 {
        Seq::empty()
    } else {
        seq![digit(part * 10 / (NANOS_PER_SEC as nat))] + fraction_text(
            part * 10 % (NANOS_PER_SEC as nat),
            (places - 1) as nat,
        )
    }
}

/// A duration of `nanos` nanoseconds, written in seconds: the whole seconds
/// in decimal, then, unless the duration is a whole number of seconds, a
/// point and the decimal places up to the last one that is not zero.
pub open spec fn seconds_text(nanos: nat) -> Seq<char> {
    let whole = decimal_text(nanos / (NANOS_PER_SEC as nat));
    let part = nanos % (NANOS_PER_SEC as nat);
    if part == 0 {
        whole
    } else {
        whole.push('.') + fraction_text(part, 9)
    }
}

/// Whether every character of `text` is a digit or a decimal point.
pub open spec fn is_number_text(text: Seq<char>) -> bool {
    forall|i: int| 0 <= i < text.len() ==> is_digit(#[trigger] text[i]) || text[i] == '.'
}

/// Decimal text holds digits only, and at least one.
pub proof fn lemma_decimal_text_is_digits(n: nat)
    ensures
        decimal_text(n).len() >= 1,
        forall|i: int| 0 <= i < decimal_text(n).len() ==> is_digit(#[trigger] decimal_text(n)[i]),
    decreases n,
{
    if n >= 10 {
        lemma_decimal_text_is_digits(n / 10);
    }
}

/// Decimal places are digits only.
pub proof fn lemma_fraction_text_is_digits(part: nat, places: nat)
    requires
        part < NANOS_PER_SEC,
    ensures
        forall|i: int|
            0 <= i < fraction_text(part, places).len() ==> is_digit(
                #[trigger] fraction_text(part, places)[i],
            ),
    decreases places,
{
    if part != 0 && places != 0 {
        let head = seq![digit(part * 10 / (NANOS_PER_SEC as nat))];
        let tail = fraction_text(part * 10 % (NANOS_PER_SEC as nat), (places - 1) as nat);
        lemma_fraction_text_is_digits(part * 10 % (NANOS_PER_SEC as nat), (places - 1) as nat);
        assert(is_digit(head[0]));
        assert forall|i: int| 0 <= i < (head + tail).len() implies is_digit(
            #[trigger] (head + tail)[i],
        ) by {
            if i >= 1 {
                assert((head + tail)[i] == tail[i - 1]);
            }
        }
    }
}

/// A duration written in seconds holds digits and at most one point, so it
/// never reads as a negative number.
pub proof fn lemma_seconds_text_is_number(nanos: nat)
    ensures
        is_number_text(seconds_text(nanos)),
        seconds_text(nanos).len() >= 1,
{
    lemma_decimal_text_is_digits(nanos / (NANOS_PER_SEC as nat));
    lemma_fraction_text_is_digits(nanos % (NANOS_PER_SEC as nat), 9);
}

fn digit_str(d: u64) -> (s: &'static str)
    requires
        d < 10,
    ensures
        s@ == seq![digit(d as nat)],
{
    proof {
        reveal_strlit("0");
        reveal_strlit("1");
        reveal_strlit("2");
        reveal_strlit("3");
        reveal_strlit("4");
        reveal_strlit("5");
        reveal_strlit("6");
        reveal_strlit("7");
        reveal_strlit("8");
        reveal_strlit("9");
    }
    let s = if d == 0 {
        "0"
    } else if d == 1 {
        "1"
    } else if d == 2 {
        "2"
    } else if d == 3 {
        "3"
    } else if d == 4 {
        "4"
    } else if d == 5 {
        "5"
    } else if d == 6 {
        "6"
    } else if d == 7 {
        "7"
    } else if d == 8 {
        "8"
    } else {
        "9"
    };
    assert(s@ =~= seq![digit(d as nat)]);
    s
}

/// Writes `n` in decimal.
pub fn decimal(n: u64) -> (s: String)
    ensures
        s@ == decimal_text(n as nat),
{
    let mut s = String::from_str(digit_str(n % 10));
    let mut rest: u64 = n / 10;
    while rest > 0
        invariant
            rest > 0 ==> decimal_text(n as nat) == decimal_text(rest as nat) + s@,
            rest == 0 ==> decimal_text(n as nat) == s@,
        decreases rest,
    {
        let head = String::from_str(digit_str(rest % 10));
        proof {
            if rest >= 10 {
                assert(decimal_text(rest as nat) + s@ =~= decimal_text((rest / 10) as nat) + (head@
                    + s@));
            } else {
                assert(decimal_text(rest as nat) + s@ =~= head@ + s@);
            }
        }
        s = head.concat(s.as_str());
        rest = rest / 10;
    }
    s
}

/// Writes a duration of `nanos` nanoseconds in seconds, with as many decimal
/// places as it needs and no more.
pub fn seconds(nanos: u64) -> (s: String)
    ensures
        s@ == seconds_text(nanos as nat),
{
    let mut s = decimal(nanos / NANOS_PER_SEC);
    let mut part: u64 = nanos % NANOS_PER_SEC;
    if part > 0 {
        proof {
            reveal_strlit(".");
        }
        s.append(".");
        assert(s@ =~= decimal_text((nanos / NANOS_PER_SEC) as nat).push('.'));
        let mut places: u64 = 9;
        while part > 0 && places > 0
            invariant
                part < NANOS_PER_SEC,
                places <= 9,
                s@ + fraction_text(part as nat, places as nat) == seconds_text(nanos as nat),
            decreases places,
        {
            let tenfold: u64 = part * 10;
            let d: u64 = tenfold / NANOS_PER_SEC;
            let ghost before = s@;
            s.append(digit_str(d));
            part = tenfold % NANOS_PER_SEC;
            places = places - 1;
            assert(s@ + fraction_text(part as nat, places as nat) =~= before + (seq![
                digit(d as nat),
            ] + fraction_text(part as nat, places as nat)));
        }
    }
    s
}

} // verus!
