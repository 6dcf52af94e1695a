//! Text helpers: decimal numbers, `mm:ss` times and title badges, shared by
//! the tracklist, the cache layout and displays.

use vstd::prelude::*;
use vstd::string::StringExecFns;

verus! {

/// The character of one decimal digit.
pub open spec fn digit_char(d: nat) -> char {
    seq!['0', '1', '2', '3', '4', '5', '6', '7', '8', '9'][d as int]
}

/// The decimal notation of a natural number, without sign or leading zeros.
pub open spec fn decimal(n: nat) -> Seq<char>
    decreases n,
{
    if n < 10 {
        seq![digit_char(n)]
    } else {
        decimal(n / 10).push(digit_char(n % 10))
    }
}

/// The contents of an optional string.
pub open spec fn opt_view(s: Option<String>) -> Option<Seq<char>> {
    match s {
        Some(v) => Some(v@),
        None => None,
    }
}

fn digit(d: u128) -> (r: char)
    requires
        d < 10,
    ensures
        r == digit_char(d as nat),
{
    if d == 0 {
        '0'
    } else if d == 1 {
        '1'
    } else if d == 2 {
        '2'
    } else if d == 3 {
        '3'
    } else if d == 4 {
        '4'
    } else if d == 5 {
        '5'
    } else if d == 6 {
        '6'
    } else if d == 7 {
        '7'
    } else if d == 8 {
        '8'
    } else {
        '9'
    }
}

fn push_decimal(n: u128, out: &mut Vec<char>)
    ensures
        final(out)@ == old(out)@ + decimal(n as nat),
    decreases n,
{
    if n >= 10 {
        push_decimal(n / 10, out);
    }
    out.push(digit(n % 10));
    proof {
        if n >= 10 {
            assert(old(out)@ + decimal(n as nat) =~= old(out)@ + decimal((n / 10) as nat) + seq![
                digit_char((n % 10) as nat),
            ]);
        } else {
            assert(out@ =~= old(out)@ + decimal(n as nat));
        }
    }
}

/// Relies on `String`'s `FromIterator<char>`: the characters in order.
#[verifier::external_body]
pub(crate) fn string_of(chars: Vec<char>) -> (r: String)
    ensures
        r@ == chars@,
{
    String::from_iter(chars)
}

/// The decimal notation of `n`.
pub fn decimal_text(n: u128) -> (r: String)
    ensures
        r@ == decimal(n as nat),
{
    let mut out: Vec<char> = Vec::new();
    push_decimal(n, &mut out);
    assert(out@ =~= decimal(n as nat));
    string_of(out)
}

/// At least two digits: a leading zero below ten.
pub open spec fn two_digits(n: nat) -> Seq<char> {
    if n < 10 {
        seq!['0'] + decimal(n)
    } else {
        decimal(n)
    }
}

/// Milliseconds as whole minutes and seconds, `mm:ss`.
pub open spec fn mm_ss(ms: nat) -> Seq<char> {
    two_digits(ms / 1000 / 60) + seq![':'] + two_digits(ms / 1000 % 60)
}

fn two_digit_text(n: u128) -> (r: String)
    ensures
        r@ == two_digits(n as nat),
{
    let d = decimal_text(n);
    if n < 10 {
        proof {
            reveal_strlit("0");
            assert("0"@ =~= seq!['0']);
        }
        joined("0", d.as_str())
    } else {
        d
    }
}

/// Milliseconds as whole minutes and seconds, each with at least two digits.
pub fn mseconds_to_mm_ss(mseconds: u128) -> (r: String)
    ensures
        r@ == mm_ss(mseconds as nat),
{
    let seconds = mseconds / 1000;
    let minutes = seconds / 60;
    let seconds = seconds % 60;
    let m = two_digit_text(minutes);
    let s = two_digit_text(seconds);
    let r = m.concat(":");
    let r = r.concat(s.as_str());
    proof {
        reveal_strlit(":");
        reveal_strlit("0");
    }
    r
}

/// `prefix` followed by `rest`.
pub(crate) fn joined(prefix: &str, rest: &str) -> (r: String)
    ensures
        r@ == prefix@ + rest@,
{
    let s = String::from_str(prefix);
    s.concat(rest)
}

pub(crate) fn clone_opt_string(s: &Option<String>) -> (r: Option<String>)
    ensures
        r == *s,
{
    match s {
        Some(v) => Some(v.clone()),
        None => None,
    }
}

/// The badge appended to an explicit track's title.
pub open spec fn explicit_mark() -> Seq<char> {
    " \u{1F174}"@
}

/// The badge appended to the title of a track available in high resolution.
pub open spec fn hifi_mark() -> Seq<char> {
    " \u{301C}"@
}

/// A title with a badge for explicit content and one for high resolution,
/// in that order, each where it applies.
pub fn mark_explicit_and_hifi(title: String, explicit: bool, hires_available: bool) -> (r: String)
    ensures
        r@ == title@ + (if explicit {
            explicit_mark()
        } else {
            Seq::<char>::empty()
        }) + (if hires_available {
            hifi_mark()
        } else {
            Seq::<char>::empty()
        }),
{
    if !hires_available && !explicit {
        assert(title@ + Seq::<char>::empty() + Seq::<char>::empty() =~= title@);
        return title;
    }
    let mut title = title;
    let ghost t0 = title@;
    if explicit {
        title = title.concat(" \u{1F174}");
    } else {
        assert(t0 + Seq::<char>::empty() =~= t0);
    }
    let ghost t1 = title@;
    if hires_available {
        title = title.concat(" \u{301C}");
    } else {
        assert(t1 + Seq::<char>::empty() =~= t1);
    }
    title
}

} // verus!
