//! Small string utilities with exact specifications: decimal rendering,
//! equality, character filtering, and the std text transformations the
//! library relies on.

use vstd::prelude::*;
use vstd::string::*;

verus! {

broadcast use vstd::string::group_string_axioms;

/// The character of a decimal digit.
pub open spec fn spec_digit(d: nat) -> char {
    ((('0' as int) + d) as char)
}

/// Decimal rendering of a natural number, without leading zeros.
pub open spec fn spec_decimal(n: nat) -> Seq<char>
    decreases n,
{
    if n < 10 {
        seq![spec_digit(n)]
    } else {
        spec_decimal(n / 10).push(spec_digit(n % 10))
    }
}

/// Decimal rendering padded with zeros to at least two characters (`{:02}`).
pub open spec fn spec_pad2(n: nat) -> Seq<char> {
    if n < 10 {
        seq!['0'] + spec_decimal(n)
    } else {
        spec_decimal(n)
    }
}

fn digit_char(d: u64) -> (c: char)
    requires
        d < 10,
    ensures
        c == spec_digit(d as nat),
{
    let b: u8 = 48u8 + (d as u8);
    b as char
}

/// `String::push`: appends one character.
#[verifier::external_body]
pub fn push_char(s: &mut String, c: char)
    ensures
        final(s)@ == old(s)@.push(c),
{
    s.push(c)
}

/// Renders `n` in decimal (as `format!("{}", n)` does).
pub fn decimal_string(n: u64) -> (r: String)
    ensures
        r@ == spec_decimal(n as nat),
    decreases n,
{
    if n < 10 {
        let mut s = String::new();
        push_char(&mut s, digit_char(n));
        assert(s@ =~= spec_decimal(n as nat));
        s
    } else {
        let mut s = decimal_string(n / 10);
        push_char(&mut s, digit_char(n % 10));
        s
    }
}

/// Renders `n` in decimal padded with zeros to two characters (`{:02}`).
pub fn pad2_string(n: u64) -> (r: String)
    ensures
        r@ == spec_pad2(n as nat),
{
    if n < 10 {
        let mut s = String::new();
        push_char(&mut s, '0');
        push_char(&mut s, digit_char(n));
        assert(s@ =~= spec_pad2(n as nat));
        s
    } else {
        decimal_string(n)
    }
}

/// Character-wise equality of two string slices.
pub fn str_eq(a: &str, b: &str) -> (r: bool)
    ensures
        r == (a@ == b@),
{
    let n = a.unicode_len();
    if n != b.unicode_len() {
        return false;
    }
    let mut i: usize = 0;
    while i < n
        invariant
            n == a@.len(),
            n == b@.len(),
            i <= n,
            forall|k: int| 0 <= k < i ==> a@[k] == b@[k],
        decreases n - i,
    {
        if a.get_char(i) != b.get_char(i) {
            return false;
        }
        i = i + 1;
    }
    assert(a@ =~= b@);
    true
}

/// An owned copy of a string slice.
pub fn owned(s: &str) -> (r: String)
    ensures
        r@ == s@,
{
    s.to_string()
}

/// Concatenation of two string slices.
pub fn concat2(a: &str, b: &str) -> (r: String)
    ensures
        r@ == a@ + b@,
{
    let mut s = a.to_string();
    s.append(b);
    s
}

/// Concatenation of three string slices.
pub fn concat3(a: &str, b: &str, c: &str) -> (r: String)
    ensures
        r@ == a@ + b@ + c@,
{
    let mut s = a.to_string();
    s.append(b);
    s.append(c);
    s
}

/// The characters of `s` other than `c`, in order.
pub open spec fn spec_without(s: Seq<char>, c: char) -> Seq<char>
    decreases s.len(),
{
    if s.len() == 0 {
        seq![]
    } else if s.last() == c {
        spec_without(s.drop_last(), c)
    } else {
        spec_without(s.drop_last(), c).push(s.last())
    }
}

/// Removing a character distributes over concatenation.
pub proof fn lemma_without_concat(a: Seq<char>, b: Seq<char>, c: char)
    ensures
        spec_without(a + b, c) == spec_without(a, c) + spec_without(b, c),
    decreases b.len(),
{
    if b.len() == 0 {
        assert(a + b =~= a);
        assert(spec_without(a, c) + spec_without(b, c) =~= spec_without(a, c));
    } else {
        lemma_without_concat(a, b.drop_last(), c);
        assert((a + b).drop_last() =~= a + b.drop_last());
        assert((a + b).last() == b.last());
        if b.last() != c {
            assert(spec_without(a, c) + spec_without(b.drop_last(), c).push(b.last())
                =~= (spec_without(a, c) + spec_without(b.drop_last(), c)).push(b.last()));
        }
    }
}

/// A string without `c` is unchanged by removing `c`.
pub proof fn lemma_without_absent(s: Seq<char>, c: char)
    requires
        forall|i: int| 0 <= i < s.len() ==> s[i] != c,
    ensures
        spec_without(s, c) == s,
    decreases s.len(),
{
    if s.len() > 0 {
        lemma_without_absent(s.drop_last(), c);
        assert(s.drop_last().push(s.last()) =~= s);
    }
}

/// Removes every occurrence of `c` from `s` (as `s.replace(c, "")`).
pub fn remove_char(s: &str, c: char) -> (r: String)
    ensures
        r@ == spec_without(s@, c),
{
    let n = s.unicode_len();
    let mut out = String::new();
    let mut i: usize = 0;
    while i < n
        invariant
            n == s@.len(),
            i <= n,
            out@ == spec_without(s@.take(i as int), c),
        decreases n - i,
    {
        let x = s.get_char(i);
        proof {
            assert(s@.take(i + 1).drop_last() =~= s@.take(i as int));
            assert(s@.take(i + 1).last() == x);
        }
        if x != c {
            push_char(&mut out, x);
        }
        i = i + 1;
    }
    assert(s@.take(n as int) =~= s@);
    out
}

/// An ASCII character that is neither a control character nor a space.
pub open spec fn spec_ascii_graphic(c: char) -> bool {
    '!' <= c && c <= '~'
}

/// Every character of `s` is an ASCII uppercase letter or an ASCII digit.
pub open spec fn spec_upper_alnum(s: Seq<char>) -> bool {
    forall|i: int| 0 <= i < s.len() ==> (('A' <= #[trigger] s[i] && s[i] <= 'Z') || ('0' <= s[i] && s[i] <= '9'))
}

/// A character with the Unicode `White_Space` property (PropList.txt):
/// U+0009–U+000D, U+0020, U+0085, U+00A0, U+1680, U+2000–U+200A, U+2028,
/// U+2029, U+202F, U+205F and U+3000. This is what `char::is_whitespace`
/// and `str::trim` take as white space.
pub open spec fn spec_is_whitespace(c: char) -> bool {
    ||| ('\u{9}' <= c && c <= '\u{d}')
    ||| c == ' '
    ||| c == '\u{85}'
    ||| c == '\u{a0}'
    ||| c == '\u{1680}'
    ||| ('\u{2000}' <= c && c <= '\u{200a}')
    ||| c == '\u{2028}'
    ||| c == '\u{2029}'
    ||| c == '\u{202f}'
    ||| c == '\u{205f}'
    ||| c == '\u{3000}'
}

/// `s` without its leading white space.
pub open spec fn spec_trim_start(s: Seq<char>) -> Seq<char>
    decreases s.len(),
{
    if s.len() > 0 && spec_is_whitespace(s[0]) {
        spec_trim_start(s.drop_first())
    } else {
        s
    }
}

/// `s` without its trailing white space.
pub open spec fn spec_trim_end(s: Seq<char>) -> Seq<char>
    decreases s.len(),
{
    if s.len() > 0 && spec_is_whitespace(s.last()) {
        spec_trim_end(s.drop_last())
    } else {
        s
    }
}

/// `str::trim`: `s` without leading and trailing white space.
pub open spec fn spec_trim(s: Seq<char>) -> Seq<char> {
    spec_trim_end(spec_trim_start(s))
}

/// White space before a string is trimmed away.
pub proof fn lemma_trim_start_skips(ws: Seq<char>, t: Seq<char>)
    requires
        forall|i: int| 0 <= i < ws.len() ==> spec_is_whitespace(#[trigger] ws[i]),
    ensures
        spec_trim_start(ws + t) == spec_trim_start(t),
    decreases ws.len(),
{
    if ws.len() > 0 {
        assert((ws + t).drop_first() =~= ws.drop_first() + t);
        assert((ws + t)[0] == ws[0]);
        lemma_trim_start_skips(ws.drop_first(), t);
    } else {
        assert(ws + t =~= t);
    }
}

/// White space after a string is trimmed away.
pub proof fn lemma_trim_end_skips(t: Seq<char>, ws: Seq<char>)
    requires
        forall|i: int| 0 <= i < ws.len() ==> spec_is_whitespace(#[trigger] ws[i]),
    ensures
        spec_trim_end(t + ws) == spec_trim_end(t),
    decreases ws.len(),
{
    if ws.len() > 0 {
        assert((t + ws).drop_last() =~= t + ws.drop_last());
        assert((t + ws).last() == ws.last());
        lemma_trim_end_skips(t, ws.drop_last());
    } else {
        assert(t + ws =~= t);
    }
}

/// Trimming white space around a string that begins and ends with other
/// characters gives that string.
pub proof fn lemma_trim_padded(ws1: Seq<char>, t: Seq<char>, ws2: Seq<char>)
    requires
        forall|i: int| 0 <= i < ws1.len() ==> spec_is_whitespace(#[trigger] ws1[i]),
        forall|i: int| 0 <= i < ws2.len() ==> spec_is_whitespace(#[trigger] ws2[i]),
        t.len() > 0,
        !spec_is_whitespace(t[0]),
        !spec_is_whitespace(t.last()),
    ensures
        spec_trim(ws1 + t + ws2) == t,
{
    lemma_trim_start_skips(ws1, t + ws2);
    assert(ws1 + t + ws2 =~= ws1 + (t + ws2));
    assert((t + ws2)[0] == t[0]);
    lemma_trim_end_skips(t, ws2);
}

/// What `str::to_uppercase` returns for a given string.
pub uninterp spec fn spec_to_uppercase(s: Seq<char>) -> Seq<char>;

/// What `str::to_lowercase` returns for a given string.
pub uninterp spec fn spec_to_lowercase(s: Seq<char>) -> Seq<char>;

/// ASCII uppercase of one character.
pub open spec fn spec_ascii_upper(c: char) -> char {
    if 'a' <= c && c <= 'z' { ((c as int) - 32) as char } else { c }
}

/// ASCII lowercase of one character.
pub open spec fn spec_ascii_lower(c: char) -> char {
    if 'A' <= c && c <= 'Z' { ((c as int) + 32) as char } else { c }
}

/// Every character of `s` is ASCII.
pub open spec fn spec_all_ascii(s: Seq<char>) -> bool {
    forall|i: int| 0 <= i < s.len() ==> (#[trigger] s[i] as int) < 128
}

/// `str::trim`: the slice without leading and trailing white space, where
/// the documentation defines white space by the Unicode `White_Space`
/// property (`spec_is_whitespace`).
#[verifier::external_body]
pub fn trim(s: &str) -> (r: &str)
    ensures
        r@ == spec_trim(s@),
{
    s.trim()
}

/// `str::to_uppercase`: Unicode uppercase. Named; on an all-ASCII input the
/// documentation gives the character-wise ASCII uppercase.
#[verifier::external_body]
pub fn to_uppercase(s: &str) -> (r: String)
    ensures
        r@ == spec_to_uppercase(s@),
        spec_all_ascii(s@) ==> r@ == s@.map_values(|c: char| spec_ascii_upper(c)),
{
    s.to_uppercase()
}

/// `str::to_lowercase`: Unicode lowercase. Named; on an all-ASCII input the
/// documentation gives the character-wise ASCII lowercase.
#[verifier::external_body]
pub fn to_lowercase(s: &str) -> (r: String)
    ensures
        r@ == spec_to_lowercase(s@),
        spec_all_ascii(s@) ==> r@ == s@.map_values(|c: char| spec_ascii_lower(c)),
{
    s.to_lowercase()
}

} // verus!
