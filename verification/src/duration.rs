//! Formatting of elapsed time, given in whole milliseconds, as
//! `[h:][m:]s.mmm`: hours unpadded and present only when nonzero, minutes
//! unpadded unless hours are shown, seconds unpadded unless minutes are
//! shown, milliseconds always three digits.

use vstd::prelude::*;
use vstd::string::StringExecFns;

verus! {

/// The decimal digit `d` (which must be below ten) as a character.
pub open spec fn digit_char(d: nat) -> char {
    if d == 0 {
        '0'
    } else if d == 1 {
        '1'
    } else if d == 2 {
        '2'
    } else if d == 3 {
        '3'
    } else if d == 4 {
        '4'
    } else if d == 5 {
        '5'
    } else if d == 6 {
        '6'
    } else if d == 7 {
        '7'
    } else if d == 8 {
        '8'
    } else {
        '9'
    }
}

/// The unpadded decimal representation of `n`.
pub open spec fn dec(n: nat) -> Seq<char>
    decreases n,
{
    if n < 10 {
        seq![digit_char(n)]
    } else {
        dec(n / 10) + seq![digit_char(n % 10)]
    }
}

/// The decimal representation of `n`, zero-padded to at least two digits.
pub open spec fn pad2(n: nat) -> Seq<char> {
    if n < 10 {
        seq!['0'] + dec(n)
    } else {
        dec(n)
    }
}

/// The decimal representation of `n`, zero-padded to at least three digits.
pub open spec fn pad3(n: nat) -> Seq<char> {
    if n < 100 {
        seq!['0'] + pad2(n)
    } else {
        dec(n)
    }
}

/// The rendering of a duration of `ms` milliseconds. With `s`, `m` and `h`
/// the whole seconds, minutes and hours, the text is the concatenation of:
/// - `"{h}:"` if `h > 0`, else nothing;
/// - nothing if `m == 0`, else `"{m % 60}:"` unpadded if `h == 0`,
///   zero-padded to two digits otherwise;
/// - `"{s % 60}."`, unpadded if `m == 0`, zero-padded otherwise;
/// - `"{ms % 1000}"`, always zero-padded to three digits.
pub open spec fn duration_format(ms: nat) -> Seq<char> {
    let s = ms / 1000;
    let m = s / 60;
    let h = m / 60;
    (if h == 0 {
        Seq::<char>::empty()
    } else {
        dec(h) + seq![':']
    }) + (if m == 0 {
        Seq::<char>::empty()
    } else if h == 0 {
        dec(m % 60) + seq![':']
    } else {
        pad2(m % 60) + seq![':']
    }) + (if m == 0 {
        dec(s % 60)
    } else {
        pad2(s % 60)
    }) + seq!['.'] + pad3(ms % 1000)
}

/// Append the single decimal digit `d` to `out`.
fn push_digit(out: &mut String, d: u64)
    requires
        d < 10,
    ensures
        final(out)@ == old(out)@ + seq![digit_char(d as nat)],
{
    let s: &str = if d == 0 {
        "0"
    } else if d == 1 {
        "1"
    } else if d == 2 {
        "2"
    } else if d == 3 {
        "3"
    } else if d == 4 {
        "4"
    } else if d == 5 {
        "5"
    } else if d == 6 {
        "6"
    } else if d == 7 {
        "7"
    } else if d == 8 {
        "8"
    } else {
        "9"
    };
    proof {
        reveal_strlit("0");
        reveal_strlit("1");
        reveal_strlit("2");
        reveal_strlit("3");
        reveal_strlit("4");
        reveal_strlit("5");
        reveal_strlit("6");
        reveal_strlit("7");
        reveal_strlit("8");
        reveal_strlit("9");
        assert(s@ =~= seq![digit_char(d as nat)]);
    }
    out.append(s);
}

/// Append the unpadded decimal representation of `n` to `out`.
fn push_dec(out: &mut String, n: u64)
    ensures
        final(out)@ == old(out)@ + dec(n as nat),
    decreases n,
{
    if n >= 10 {
        push_dec(out, n / 10);
    }
    push_digit(out, n % 10);
    proof {
        if n >= 10 {
            assert(old(out)@ + dec((n / 10) as nat) + seq![digit_char((n % 10) as nat)] =~= old(
                out,
            )@ + dec(n as nat));
        }
    }
}

/// Append the decimal representation of `n`, zero-padded to at least two
/// digits, to `out`.
fn push_pad2(out: &mut String, n: u64)
    ensures
        final(out)@ == old(out)@ + pad2(n as nat),
{
    if n < 10 {
        push_digit(out, 0);
    }
    push_dec(out, n);
    proof {
        if n < 10 {
            assert(old(out)@ + seq![digit_char(0)] + dec(n as nat) =~= old(out)@ + pad2(n as nat));
        }
    }
}

/// Append the decimal representation of `n`, zero-padded to at least three
/// digits, to `out`.
fn push_pad3(out: &mut String, n: u64)
    ensures
        final(out)@ == old(out)@ + pad3(n as nat),
{
    if n < 100 {
        push_digit(out, 0);
        push_pad2(out, n);
        proof {
            assert(old(out)@ + seq![digit_char(0)] + pad2(n as nat) =~= old(out)@ + pad3(n as nat));
        }
    } else {
        push_dec(out, n);
    }
}

/// Render a duration of `ms` whole milliseconds as text.
pub fn duration_to_string(ms: u64) -> (r: String)
    ensures
        r@ == duration_format(ms as nat),
{
    let s = ms / 1000;
    let m = s / 60;
    let h = m / 60;
    let mut out = String::new();
    if h != 0 {
        push_dec(&mut out, h);
        push_colon(&mut out);
    }
    if m != 0 {
        if h == 0 {
            push_dec(&mut out, m % 60);
        } else {
            push_pad2(&mut out, m % 60);
        }
        push_colon(&mut out);
    }
    if m == 0 {
        push_dec(&mut out, s % 60);
    } else {
        push_pad2(&mut out, s % 60);
    }
    proof {
        reveal_strlit(".");
        assert("."@ =~= seq!['.']);
    }
    out.append(".");
    push_pad3(&mut out, ms % 1000);
    proof {
        assert(out@ =~= duration_format(ms as nat));
    }
    out
}

/// Append `":"` to `out`.
fn push_colon(out: &mut String)
    ensures
        final(out)@ == old(out)@ + seq![':'],
{
    proof {
        reveal_strlit(":");
        assert(":"@ =~= seq![':']);
    }
    out.append(":");
}

} // verus!
