//! Text: building messages from characters and hexadecimal bytes, and
//! searching for a word in a text.

use vstd::prelude::*;
use vstd::string::StrSliceExecFns;

verus! {

/// `String::push`: appends one character to the string.
#[verifier::external_body]
pub(crate) fn push_char(s: &mut String, c: char)
    ensures
        final(s)@ == old(s)@.push(c),
{
    s.push(c);
}

/// The upper-case hexadecimal digit for a value below 16.
pub open spec fn hex_digit(n: u8) -> char {
    if n < 10 {
        (48 + n) as char
    } else {
        (55 + n) as char
    }
}

/// The two upper-case hexadecimal digits of a byte, high digit first.
pub open spec fn hex2(v: u8) -> Seq<char> {
    seq![hex_digit(v / 16), hex_digit(v % 16)]
}

fn hex_digit_exec(n: u8) -> (c: char)
    requires
        n < 16,
    ensures
        c == hex_digit(n),
{
    if n < 10 {
        (48u8 + n) as char
    } else {
        (55u8 + n) as char
    }
}

/// Append the two hexadecimal digits of `v`.
pub fn push_hex2(s: &mut String, v: u8)
    ensures
        final(s)@ == old(s)@ + hex2(v),
{
    let h = hex_digit_exec(v / 16);
    push_char(s, h);
    let l = hex_digit_exec(v % 16);
    push_char(s, l);
    assert(s@ =~= old(s)@ + hex2(v));
}

/// The message `prefix` followed by "0x" and the byte in hexadecimal.
pub fn hex_message(prefix: &str, v: u8) -> (r: String)
    ensures
        r@ == prefix@ + seq!['0', 'x'] + hex2(v),
{
    let mut s = String::from_str(prefix);
    push_char(&mut s, '0');
    push_char(&mut s, 'x');
    push_hex2(&mut s, v);
    assert(s@ =~= prefix@ + seq!['0', 'x'] + hex2(v));
    s
}

/// The decimal digits of `n`, most significant first.
pub open spec fn decimal(n: nat) -> Seq<char>
    decreases n,
{
    if n < 10 {
        seq![hex_digit(n as u8)]
    } else {
        decimal(n / 10) + seq![hex_digit((n % 10) as u8)]
    }
}

/// Append `n` in decimal.
pub fn push_decimal(s: &mut String, n: usize)
    ensures
        final(s)@ == old(s)@ + decimal(n as nat),
    decreases n,
{
    if n >= 10 {
        push_decimal(s, n / 10);
    }
    let d = hex_digit_exec((n % 10) as u8);
    push_char(s, d);
    assert(s@ =~= old(s)@ + decimal(n as nat));
}

/// `needle` occurs in `hay` at position `i`.
pub open spec fn occurs_at<A>(hay: Seq<A>, needle: Seq<A>, i: int) -> bool {
    0 <= i && i + needle.len() <= hay.len() && hay.subrange(i, i + needle.len()) == needle
}

/// `needle` occurs somewhere in `hay`.
pub open spec fn occurs<A>(hay: Seq<A>, needle: Seq<A>) -> bool {
    exists|i: int| occurs_at(hay, needle, i)
}

/// Whether the characters of `needle` occur, in order and together, in `hay`.
pub fn contains_str(hay: &str, needle: &str) -> (r: bool)
    ensures
        r == occurs(hay@, needle@),
{
    let hl = hay.unicode_len();
    let nl = needle.unicode_len();
    if nl > hl {
        proof {
            assert forall|i: int| !occurs_at(hay@, needle@, i) by {}
        }
        return false;
    }
    let last = hl - nl;
    let mut i: usize = 0;
    loop
        invariant
            hl == hay@.len(),
            nl == needle@.len(),
            hl >= nl,
            last == hl - nl,
            i <= last,
            forall|k: int| 0 <= k < i ==> !occurs_at(hay@, needle@, k),
        ensures
            forall|k: int| 0 <= k <= last ==> !occurs_at(hay@, needle@, k),
        decreases last - i,
    {
        let mut j: usize = 0;
        let mut same = true;
        while j < nl
            invariant
                hl == hay@.len(),
                nl == needle@.len(),
                hl >= nl,
                i <= last,
                last == hl - nl,
                j <= nl,
                same == (forall|t: int| 0 <= t < j ==> hay@[i + t] == needle@[t]),
            decreases nl - j,
        {
            if hay.get_char(i + j) != needle.get_char(j) {
                same = false;
            }
            j = j + 1;
        }
        if same {
            proof {
                assert(hay@.subrange(i as int, i + needle@.len()) =~= needle@);
                assert(occurs_at(hay@, needle@, i as int));
            }
            return true;
        }
        proof {
            if occurs_at(hay@, needle@, i as int) {
                assert forall|t: int| 0 <= t < needle@.len() implies hay@[i + t] == needle@[t] by {
                    assert(hay@.subrange(i as int, i + needle@.len())[t] == needle@[t]);
                }
            }
        }
        if i == last {
            break;
        }
        i = i + 1;
    }
    proof {
        assert forall|k: int| !occurs_at(hay@, needle@, k) by {
            if occurs_at(hay@, needle@, k) {
                assert(0 <= k <= last);
            }
        }
    }
    false
}

/// The text `String::from_utf8_lossy` makes of a byte sequence.
pub uninterp spec fn lossy_text(bytes: Seq<u8>) -> Seq<char>;

/// `String::from_utf8_lossy(bytes).into_owned()`: the bytes decoded as
/// UTF-8 with each invalid sequence replaced by U+FFFD. The contract names
/// the result as a function of the bytes and states the case the
/// documentation spells out: ASCII bytes decode to the same characters.
#[verifier::external_body]
pub(crate) fn utf8_lossy(bytes: &[u8]) -> (r: String)
    ensures
        r@ == lossy_text(bytes@),
        (forall|i: int| 0 <= i < bytes@.len() ==> #[trigger] bytes@[i] < 128) ==> r@ == bytes@.map_values(
            |b: u8| b as char,
        ),
{
    String::from_utf8_lossy(bytes).into_owned()
}

/// Every character of `s` is ASCII.
pub open spec fn all_ascii(s: Seq<char>) -> bool {
    forall|i: int| 0 <= i < s.len() ==> (#[trigger] s[i] as u32) < 128
}

/// An ASCII letter's upper-case form; any other character as it is.
pub open spec fn ascii_upper(c: char) -> char {
    if 'a' <= c <= 'z' {
        ((c as u32) - 32) as char
    } else {
        c
    }
}

/// An ASCII letter's lower-case form; any other character as it is.
pub open spec fn ascii_lower(c: char) -> char {
    if 'A' <= c <= 'Z' {
        ((c as u32) + 32) as char
    } else {
        c
    }
}

/// The text `str::to_uppercase` makes of a string.
pub uninterp spec fn uppercase_text(s: Seq<char>) -> Seq<char>;

/// `str::to_uppercase`: each character mapped to its uppercase equivalent
/// (the Unicode Uppercase property), possibly to several characters. The
/// contract names the result as a function of the string alone, and states
/// the ASCII case: an ASCII string upper-cases letter by letter (a-z to A-Z,
/// every other character kept). Beyond ASCII it says nothing more.
#[verifier::external_body]
pub(crate) fn to_upper(s: &str) -> (r: String)
    ensures
        r@ == uppercase_text(s@),
        all_ascii(s@) ==> r@ == s@.map_values(|c: char| ascii_upper(c)),
{
    s.to_uppercase()
}

/// The text `str::to_lowercase` makes of a string.
pub uninterp spec fn lowercase_text(s: Seq<char>) -> Seq<char>;

/// `str::to_lowercase`: each character mapped to its lowercase equivalent
/// (the Unicode Lowercase property), possibly to several characters. The
/// contract names the result as a function of the string alone, and states
/// the ASCII case: an ASCII string lower-cases letter by letter (A-Z to a-z,
/// every other character kept). Beyond ASCII it says nothing more.
#[verifier::external_body]
pub(crate) fn to_lower(s: &str) -> (r: String)
    ensures
        r@ == lowercase_text(s@),
        all_ascii(s@) ==> r@ == s@.map_values(|c: char| ascii_lower(c)),
{
    s.to_lowercase()
}

/// Whether two strings hold the same characters.
pub fn str_equal(a: &str, b: &str) -> (r: bool)
    ensures
        r == (a@ == b@),
{
    let n = a.unicode_len();
    if n != b.unicode_len() {
        return false;
    }
    let mut i: usize = 0;
    while i < n
        invariant
            n == a@.len(),
            n == b@.len(),
            i <= n,
            forall|k: int| 0 <= k < i ==> a@[k] == b@[k],
        decreases n - i,
    {
        if a.get_char(i) != b.get_char(i) {
            return false;
        }
        i = i + 1;
    }
    assert(a@ =~= b@);
    true
}

} // verus!
