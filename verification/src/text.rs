//! Text the recorder shows or names files with: decimal rendering of
//! counters, elapsed-time labels for history listings, and preview
//! truncation of long transcriptions.

use vstd::prelude::*;
use vstd::string::StrSliceExecFns;
use vstd::string::StringExecFns;

verus! {

/// The decimal digit character of a value below ten.
pub open spec fn digit_char(d: int) -> char
    recommends
        0 <= d < 10,
{
    if d == 0 {
        '0'
    } else if d == 1 {
        '1'
    } else if d == 2 {
        '2'
    } else if d == 3 {
        '3'
    } else if d == 4 {
        '4'
    } else if d == 5 {
        '5'
    } else if d == 6 {
        '6'
    } else if d == 7 {
        '7'
    } else if d == 8 {
        '8'
    } else {
        '9'
    }
}

/// The decimal digits of a non-negative value, most significant first,
/// without leading zeroes (a lone zero for zero itself).
pub open spec fn dec_digits(n: int) -> Seq<char>
    recommends
        n >= 0,
    decreases n,
{
    if n < 10 {
        seq![digit_char(n)]
    } else {
        dec_digits(n / 10).push(digit_char(n % 10))
    }
}

/// Append the digit character of a value below ten.
fn push_digit(s: &mut String, d: u64)
    requires
        d < 10,
    ensures
        final(s)@ == old(s)@.push(digit_char(d as int)),
{
    if d == 0 {
        s.append("0");
        proof {
            reveal_strlit("0");
            assert(s@ =~= old(s)@.push('0'));
        }
    } else if d == 1 {
        s.append("1");
        proof {
            reveal_strlit("1");
            assert(s@ =~= old(s)@.push('1'));
        }
    } else if d == 2 {
        s.append("2");
        proof {
            reveal_strlit("2");
            assert(s@ =~= old(s)@.push('2'));
        }
    } else if d == 3 {
        s.append("3");
        proof {
            reveal_strlit("3");
            assert(s@ =~= old(s)@.push('3'));
        }
    } else if d == 4 {
        s.append("4");
        proof {
            reveal_strlit("4");
            assert(s@ =~= old(s)@.push('4'));
        }
    } else if d == 5 {
        s.append("5");
        proof {
            reveal_strlit("5");
            assert(s@ =~= old(s)@.push('5'));
        }
    } else if d == 6 {
        s.append("6");
        proof {
            reveal_strlit("6");
            assert(s@ =~= old(s)@.push('6'));
        }
    } else if d == 7 {
        s.append("7");
        proof {
            reveal_strlit("7");
            assert(s@ =~= old(s)@.push('7'));
        }
    } else if d == 8 {
        s.append("8");
        proof {
            reveal_strlit("8");
            assert(s@ =~= old(s)@.push('8'));
        }
    } else {
        s.append("9");
        proof {
            reveal_strlit("9");
            assert(s@ =~= old(s)@.push('9'));
        }
    }
}

/// Append the decimal digits of a value, most significant first.
fn push_dec(s: &mut String, n: u64)
    ensures
        final(s)@ == old(s)@ + dec_digits(n as int),
    decreases n,
{
    if n < 10 {
        push_digit(s, n);
        proof {
            assert(s@ =~= old(s)@ + dec_digits(n as int));
        }
    } else {
        push_dec(s, n / 10);
        push_digit(s, n % 10);
        proof {
            assert(s@ =~= old(s)@ + dec_digits(n as int));
        }
    }
}

/// Render a value in decimal.
pub fn u64_to_dec(n: u64) -> (s: String)
    ensures
        s@ == dec_digits(n as int),
{
    let mut s = String::new();
    push_dec(&mut s, n);
    proof {
        assert(Seq::<char>::empty() + dec_digits(n as int) =~= dec_digits(n as int));
    }
    s
}

/// The age label of a history entry: how long before `now` the moment
/// `then` lies, in the coarsest whole unit, or "unknown" for a moment
/// that has not happened yet.
pub open spec fn timestamp_label(now: int, then: int) -> Seq<char> {
    if now < then {
        "unknown"@
    } else {
        let secs = now - then;
        if secs < 60 {
            dec_digits(secs) + "s ago"@
        } else if secs < 3600 {
            dec_digits(secs / 60) + "m ago"@
        } else if secs < 86400 {
            dec_digits(secs / 3600) + "h ago"@
        } else {
            dec_digits(secs / 86400) + "d ago"@
        }
    }
}

/// Render how long before `now` the moment `timestamp` lies.
pub fn format_timestamp(now: u64, timestamp: u64) -> (s: String)
    ensures
        s@ == timestamp_label(now as int, timestamp as int),
{
    if now < timestamp {
        let s = String::from_str("unknown");
        s
    } else {
        let secs = now - timestamp;
        if secs < 60 {
            let s = u64_to_dec(secs);
            s.concat("s ago")
        } else if secs < 3600 {
            let s = u64_to_dec(secs / 60);
            s.concat("m ago")
        } else if secs < 86400 {
            let s = u64_to_dec(secs / 3600);
            s.concat("h ago")
        } else {
            let s = u64_to_dec(secs / 86400);
            s.concat("d ago")
        }
    }
}

/// A preview of a text: the text itself when it is short enough, else
/// its first `max` characters with a trailing ellipsis.
pub open spec fn truncated_text(t: Seq<char>, max: int) -> Seq<char> {
    if t.len() <= max {
        t
    } else {
        t.take(max) + "..."@
    }
}

/// Shorten a text to at most `max_len` characters plus an ellipsis.
pub fn truncate_text(text: &str, max_len: usize) -> (r: String)
    ensures
        r@ == truncated_text(text@, max_len as int),
{
    let n = text.unicode_len();
    if n <= max_len {
        String::from_str(text)
    } else {
        let head = text.substring_char(0, max_len);
        proof {
            assert(head@ =~= text@.take(max_len as int));
        }
        let s = String::from_str(head);
        s.concat("...")
    }
}

} // verus!
