//! Character and string helpers shared by the formatters and scanners.
use vstd::prelude::*;

verus! {

/// The decimal digit character for a value below ten.
pub open spec fn digit_char(d: nat) -> char
    recommends
        d < 10,
{
    if d == 0 {
        '0'
    } else if d == 1 {
        '1'
    } else if d == 2 {
        '2'
    } else if d == 3 {
        '3'
    } else if d == 4 {
        '4'
    } else if d == 5 {
        '5'
    } else if d == 6 {
        '6'
    } else if d == 7 {
        '7'
    } else if d == 8 {
        '8'
    } else {
        '9'
    }
}

/// A two-digit, zero-padded decimal rendering, as used in timestamps.
pub open spec fn dec2(n: nat) -> Seq<char>
    recommends
        n < 100,
{
    seq![digit_char(n / 10), digit_char(n % 10)]
}

/// One-character string for a single decimal digit.
fn digit_str(d: u32) -> (r: &'static str)
    requires
        d < 10,
    ensures
        r@ =~= seq![digit_char(d as nat)],
{
    proof {
        reveal_strlit("0");
        reveal_strlit("1");
        reveal_strlit("2");
        reveal_strlit("3");
        reveal_strlit("4");
        reveal_strlit("5");
        reveal_strlit("6");
        reveal_strlit("7");
        reveal_strlit("8");
        reveal_strlit("9");
    }
    if d == 0 {
        "0"
    } else if d == 1 {
        "1"
    } else if d == 2 {
        "2"
    } else if d == 3 {
        "3"
    } else if d == 4 {
        "4"
    } else if d == 5 {
        "5"
    } else if d == 6 {
        "6"
    } else if d == 7 {
        "7"
    } else if d == 8 {
        "8"
    } else {
        "9"
    }
}

/// A three-digit, zero-padded decimal rendering, as used for milliseconds.
pub open spec fn dec3(n: nat) -> Seq<char>
    recommends
        n < 1000,
{
    seq![digit_char(n / 100), digit_char((n / 10) % 10), digit_char(n % 10)]
}

/// A four-digit, zero-padded decimal rendering, as used for years.
pub open spec fn dec4(n: nat) -> Seq<char>
    recommends
        n < 10000,
{
    seq![digit_char(n / 1000), digit_char((n / 100) % 10), digit_char((n / 10) % 10), digit_char(n % 10)]
}

/// An unpadded decimal rendering of a value below 1000, as used for the
/// syslog PRI.
pub open spec fn dec_small(n: nat) -> Seq<char>
    recommends
        n < 1000,
{
    if n < 10 {
        seq![digit_char(n)]
    } else if n < 100 {
        dec2(n)
    } else {
        dec3(n)
    }
}

/// Appends the single digit `n` to `out`.
pub fn push_digit(out: &mut String, n: u32)
    requires
        n < 10,
    ensures
        final(out)@ == old(out)@ + seq![digit_char(n as nat)],
{
    out.append(digit_str(n));
}

/// Appends the two-digit zero-padded rendering of `n` to `out`.
pub fn push_dec2(out: &mut String, n: u32)
    requires
        n < 100,
    ensures
        final(out)@ == old(out)@ + dec2(n as nat),
{
    let tens: u32 = n / 10;
    let ones: u32 = n % 10;
    out.append(digit_str(tens));
    out.append(digit_str(ones));
    proof {
        assert(final(out)@ =~= old(out)@ + dec2(n as nat));
    }
}

/// Appends the three-digit zero-padded rendering of `n` to `out`.
pub fn push_dec3(out: &mut String, n: u32)
    requires
        n < 1000,
    ensures
        final(out)@ == old(out)@ + dec3(n as nat),
{
    out.append(digit_str(n / 100));
    out.append(digit_str((n / 10) % 10));
    out.append(digit_str(n % 10));
    proof {
        assert(final(out)@ =~= old(out)@ + dec3(n as nat));
    }
}

/// Appends the four-digit zero-padded rendering of `n` to `out`.
pub fn push_dec4(out: &mut String, n: u32)
    requires
        n < 10000,
    ensures
        final(out)@ == old(out)@ + dec4(n as nat),
{
    out.append(digit_str(n / 1000));
    out.append(digit_str((n / 100) % 10));
    out.append(digit_str((n / 10) % 10));
    out.append(digit_str(n % 10));
    proof {
        assert(final(out)@ =~= old(out)@ + dec4(n as nat));
    }
}

/// Appends the unpadded decimal rendering of `n < 1000` to `out`.
pub fn push_dec_small(out: &mut String, n: u32)
    requires
        n < 1000,
    ensures
        final(out)@ == old(out)@ + dec_small(n as nat),
{
    if n < 10 {
        out.append(digit_str(n));
        proof {
            assert(final(out)@ =~= old(out)@ + dec_small(n as nat));
        }
    } else if n < 100 {
        push_dec2(out, n);
    } else {
        push_dec3(out, n);
    }
}

/// Relies on `String::push`: appends exactly the one character.
#[verifier::external_body]
pub fn push_char(out: &mut String, c: char)
    ensures
        final(out)@ == old(out)@ + seq![c],
{
    out.push(c);
}

/// The characters of a string, one by one, for index-based scanning.
pub fn chars_vec(s: &str) -> (r: Vec<char>)
    ensures
        r@ == s@,
{
    let n = s.unicode_len();
    let mut v: Vec<char> = Vec::new();
    let mut i: usize = 0;
    while i < n
        invariant
            i <= n,
            n == s@.len(),
            v@ =~= s@.subrange(0, i as int),
        decreases n - i,
    {
        let c = s.get_char(i);
        v.push(c);
        i = i + 1;
    }
    proof {
        assert(v@ =~= s@);
    }
    v
}

pub open spec fn is_crlf_char(c: char) -> bool {
    c == '\n' || c == '\r'
}

/// A line with every trailing carriage return and line feed removed.
pub open spec fn strip_crlf(s: Seq<char>) -> Seq<char>
    decreases s.len(),
{
    if s.len() > 0 && is_crlf_char(s.last()) {
        strip_crlf(s.drop_last())
    } else {
        s
    }
}

/// The index where the trailing CR/LF run of `v` begins.
pub fn crlf_start(v: &Vec<char>) -> (k: usize)
    ensures
        k <= v@.len(),
        strip_crlf(v@) == v@.subrange(0, k as int),
{
    let mut k = v.len();
    proof {
        assert(v@.subrange(0, k as int) =~= v@);
    }
    while k > 0 && (v[k - 1] == '\n' || v[k - 1] == '\r')
        invariant
            k <= v@.len(),
            strip_crlf(v@) == strip_crlf(v@.subrange(0, k as int)),
        decreases k,
    {
        proof {
            assert(v@.subrange(0, k as int).drop_last() =~= v@.subrange(0, k - 1 as int));
        }
        k = k - 1;
    }
    proof {
        assert(strip_crlf(v@.subrange(0, k as int)) == v@.subrange(0, k as int));
    }
    k
}

/// The white-space characters `str::trim` removes (the Unicode
/// `White_Space` set).
pub open spec fn is_space_char(c: char) -> bool {
    ||| c == ' '
    ||| c == '\t'
    ||| c == '\n'
    ||| c == '\u{0B}'
    ||| c == '\u{0C}'
    ||| c == '\r'
    ||| c == '\u{85}'
    ||| c == '\u{A0}'
    ||| c == '\u{1680}'
    ||| ('\u{2000}' <= c && c <= '\u{200A}')
    ||| c == '\u{2028}'
    ||| c == '\u{2029}'
    ||| c == '\u{202F}'
    ||| c == '\u{205F}'
    ||| c == '\u{3000}'
}

pub fn is_space(c: char) -> (r: bool)
    ensures
        r == is_space_char(c),
{
    c == ' ' || c == '\t' || c == '\n' || c == '\u{0B}' || c == '\u{0C}' || c == '\r'
        || c == '\u{85}' || c == '\u{A0}' || c == '\u{1680}'
        || ('\u{2000}' <= c && c <= '\u{200A}') || c == '\u{2028}' || c == '\u{2029}'
        || c == '\u{202F}' || c == '\u{205F}' || c == '\u{3000}'
}

/// A string with trailing white space removed.
pub open spec fn trim_end_spaces(s: Seq<char>) -> Seq<char>
    decreases s.len(),
{
    if s.len() > 0 && is_space_char(s.last()) {
        trim_end_spaces(s.drop_last())
    } else {
        s
    }
}

/// A string with leading white space removed.
pub open spec fn trim_start_spaces(s: Seq<char>) -> Seq<char>
    decreases s.len(),
{
    if s.len() > 0 && is_space_char(s.first()) {
        trim_start_spaces(s.drop_first())
    } else {
        s
    }
}

/// A string with surrounding white space removed, as `str::trim` leaves it.
pub open spec fn trim_spaces(s: Seq<char>) -> Seq<char> {
    trim_start_spaces(trim_end_spaces(s))
}

/// The bounds of the trimmed middle of `v`: the result of `str::trim` is
/// `v[j..k]`.
pub fn trim_bounds(v: &Vec<char>) -> (r: (usize, usize))
    ensures
        r.0 <= r.1 <= v@.len(),
        trim_spaces(v@) == v@.subrange(r.0 as int, r.1 as int),
{
    let mut k = v.len();
    proof {
        assert(v@.subrange(0, k as int) =~= v@);
    }
    while k > 0 && is_space(v[k - 1])
        invariant
            k <= v@.len(),
            trim_end_spaces(v@) == trim_end_spaces(v@.subrange(0, k as int)),
        decreases k,
    {
        proof {
            assert(v@.subrange(0, k as int).drop_last() =~= v@.subrange(0, k - 1 as int));
        }
        k = k - 1;
    }
    proof {
        assert(trim_end_spaces(v@.subrange(0, k as int)) == v@.subrange(0, k as int));
        assert(trim_end_spaces(v@) == v@.subrange(0, k as int));
    }
    let mut j: usize = 0;
    while j < k && is_space(v[j])
        invariant
            j <= k <= v@.len(),
            trim_end_spaces(v@) == v@.subrange(0, k as int),
            trim_start_spaces(v@.subrange(0, k as int)) == trim_start_spaces(
                v@.subrange(j as int, k as int),
            ),
        decreases k - j,
    {
        proof {
            assert(v@.subrange(j as int, k as int).drop_first() =~= v@.subrange(
                j + 1 as int,
                k as int,
            ));
        }
        j = j + 1;
    }
    proof {
        assert(trim_start_spaces(v@.subrange(j as int, k as int)) == v@.subrange(
            j as int,
            k as int,
        ));
    }
    (j, k)
}

} // verus!
