//! Text primitives used throughout the crate.
//!
//! Strings are modelled by their sequence of characters (`Seq<char>`). The
//! helpers here compare, copy and build strings with contracts over that
//! model, and render integers in decimal.

use vstd::prelude::*;
use vstd::std_specs::iter::IteratorSpec;
use vstd::string::*;
use vstd::utf8::*;

verus! {

/// `String::push` of the standard library: the string afterwards is the
/// string before with `c` appended as its last character.
pub assume_specification[ String::push ](s: &mut String, c: char)
    ensures
        final(s)@ == old(s)@.push(c),
;

/// The number of bytes the UTF-8 encoding of `s` occupies.
pub open spec fn utf8_len(s: Seq<char>) -> nat {
    encode_utf8(s).len()
}

/// A text has at least one byte and at most four bytes for each of its
/// characters.
pub proof fn lemma_utf8_len_bounds(s: Seq<char>)
    ensures
        s.len() <= utf8_len(s) <= 4 * s.len(),
    decreases s.len(),
{
    if s.len() > 0 {
        lemma_utf8_len_bounds(s.drop_first());
        char_is_scalar(s[0]);
    }
}

/// The model of an optional string.
pub open spec fn opt_text(o: Option<String>) -> Option<Seq<char>> {
    match o {
        Some(s) => Some(s@),
        None => None,
    }
}

/// The model of an optional string slice.
pub open spec fn opt_str(o: Option<&str>) -> Option<Seq<char>> {
    match o {
        Some(s) => Some(s@),
        None => None,
    }
}

/// The model of a list of strings.
pub open spec fn texts(v: Seq<String>) -> Seq<Seq<char>> {
    Seq::new(v.len(), |i: int| v[i]@)
}

/// Length of `s` in bytes.
pub fn byte_len(s: &str) -> (n: usize)
    ensures
        n == utf8_len(s@),
{
    s.as_bytes().len()
}

/// Whether two strings hold the same characters.
pub fn str_eq(a: &str, b: &str) -> (r: bool)
    ensures
        r == (a@ == b@),
{
    let x = a.as_bytes();
    let y = b.as_bytes();
    proof {
        encode_utf8_decode_utf8(a@);
        encode_utf8_decode_utf8(b@);
    }
    if x.len() != y.len() {
        return false;
    }
    let mut i: usize = 0;
    while i < x.len()
        invariant
            i <= x.len(),
            x.len() == y.len(),
            x@ == encode_utf8(a@),
            y@ == encode_utf8(b@),
            forall|j: int| 0 <= j < i ==> x@[j] == y@[j],
        decreases x.len() - i,
    {
        if x[i] != y[i] {
            return false;
        }
        i += 1;
    }
    assert(x@ =~= y@);
    true
}

/// A copy of an optional string.
pub fn clone_opt_text(o: &Option<String>) -> (r: Option<String>)
    ensures
        opt_text(r) == opt_text(*o),
{
    match o {
        Some(s) => Some(s.clone()),
        None => None,
    }
}

/// `a` followed by `b`.
pub fn concat(a: &str, b: &str) -> (r: String)
    ensures
        r@ == a@ + b@,
{
    let mut out = a.to_string();
    out.append(b);
    out
}

/// `a`, then `b`, then `c`.
pub fn concat3(a: &str, b: &str, c: &str) -> (r: String)
    ensures
        r@ == a@ + b@ + c@,
{
    let mut out = a.to_string();
    out.append(b);
    out.append(c);
    out
}

/// The character of the decimal digit `d`.
pub open spec fn digit_char(d: int) -> char
    recommends
        0 <= d < 10,
{
    if d == 0 {
        '0'
    } else if d == 1 {
        '1'
    } else if d == 2 {
        '2'
    } else if d == 3 {
        '3'
    } else if d == 4 {
        '4'
    } else if d == 5 {
        '5'
    } else if d == 6 {
        '6'
    } else if d == 7 {
        '7'
    } else if d == 8 {
        '8'
    } else {
        '9'
    }
}

/// The decimal numeral of `n`, without leading zeros.
pub open spec fn decimal(n: nat) -> Seq<char>
    decreases n,
{
    if n < 10 {
        seq![digit_char(n as int)]
    } else {
        decimal(n / 10).push(digit_char((n % 10) as int))
    }
}

/// The decimal numeral of `i`, with a leading minus sign when negative.
pub open spec fn signed_decimal(i: int) -> Seq<char> {
    if i < 0 {
        seq!['-'] + decimal((-i) as nat)
    } else {
        decimal(i as nat)
    }
}

/// The character of one decimal digit.
pub fn digit_to_char(d: u8) -> (c: char)
    requires
        d < 10,
    ensures
        c == digit_char(d as int),
{
    if d == 0 {
        '0'
    } else if d == 1 {
        '1'
    } else if d == 2 {
        '2'
    } else if d == 3 {
        '3'
    } else if d == 4 {
        '4'
    } else if d == 5 {
        '5'
    } else if d == 6 {
        '6'
    } else if d == 7 {
        '7'
    } else if d == 8 {
        '8'
    } else {
        '9'
    }
}

/// Appends the decimal numeral of `n` to `out`.
pub fn push_decimal(out: &mut String, n: u64)
    ensures
        final(out)@ == old(out)@ + decimal(n as nat),
    decreases n,
{
    if n >= 10 {
        push_decimal(out, n / 10);
    }
    out.push(digit_to_char((n % 10) as u8));
    assert(final(out)@ =~= old(out)@ + decimal(n as nat));
}

/// Appends the decimal numeral of `i` to `out`, with its sign.
pub fn push_signed_decimal(out: &mut String, i: i64)
    ensures
        final(out)@ == old(out)@ + signed_decimal(i as int),
{
    if i < 0 {
        out.push('-');
        let magnitude: u64 = (-(i + 1)) as u64 + 1;
        push_decimal(out, magnitude);
        assert(final(out)@ =~= old(out)@ + signed_decimal(i as int));
    } else {
        push_decimal(out, i as u64);
    }
}

/// `s` without the run of `c` at its end.
pub open spec fn trimmed_end(s: Seq<char>, c: char) -> Seq<char>
    decreases s.len(),
{
    if s.len() > 0 && s.last() == c {
        trimmed_end(s.drop_last(), c)
    } else {
        s
    }
}

/// Trimming keeps exactly the prefix that ends with the last character other
/// than `c`.
pub proof fn lemma_trimmed_end_is_prefix(s: Seq<char>, c: char, keep: int)
    requires
        0 <= keep <= s.len(),
        keep == 0 || s[keep - 1] != c,
        forall|j: int| keep <= j < s.len() ==> s[j] == c,
    ensures
        trimmed_end(s, c) == s.take(keep),
    decreases s.len(),
{
    if keep == s.len() {
        assert(s.take(keep) =~= s);
    } else {
        let shorter = s.drop_last();
        assert(s.last() == c);
        lemma_trimmed_end_is_prefix(shorter, c, keep);
        assert(shorter.take(keep) =~= s.take(keep));
    }
}

/// `s` without the run of `c` at its end.
pub fn trim_end_char(s: &str, c: char) -> (r: &str)
    ensures
        r@ == trimmed_end(s@, c),
{
    let total = s.unicode_len();
    let mut keep: usize = 0;
    let mut seen: usize = 0;
    for ch in it: s.chars()
        invariant
            it.seq() == s@,
            total == s@.len(),
            seen == it.index(),
            keep <= seen <= total,
            keep == 0 || s@[keep - 1] != c,
            forall|j: int| keep <= j < seen ==> s@[j] == c,
    {
        seen += 1;
        if ch != c {
            keep = seen;
        }
    }
    proof {
        lemma_trimmed_end_is_prefix(s@, c, keep as int);
    }
    s.substring_char(0, keep)
}

/// Whether `s` begins with `prefix`.
pub open spec fn is_prefix(prefix: Seq<char>, s: Seq<char>) -> bool {
    prefix.len() <= s.len() && s.take(prefix.len() as int) == prefix
}

/// Whether `s` begins with `prefix`.
pub fn starts_with(s: &str, prefix: &str) -> (r: bool)
    ensures
        r == is_prefix(prefix@, s@),
{
    let mut rest = s.chars();
    assert(s@.skip(0) =~= s@);
    for p in it: prefix.chars()
        invariant
            it.seq() == prefix@,
            it.index() <= s@.len(),
            rest.remaining() == s@.skip(it.index() as int),
            s@.take(it.index() as int) == prefix@.take(it.index() as int),
    {
        let ghost at = it.index() as int;
        match rest.next() {
            Some(c) => {
                assert(c == s@[at]);
                assert(s@.skip(at).drop_first() =~= s@.skip(at + 1));
                if c != p {
                    proof {
                        if prefix@.len() <= s@.len() {
                            assert(s@.take(prefix@.len() as int)[at] == c);
                        }
                    }
                    return false;
                }
                assert(s@.take(at + 1) =~= s@.take(at).push(c));
                assert(prefix@.take(at + 1) =~= prefix@.take(at).push(p));
            },
            None => {
                assert(s@.len() == at);
                return false;
            },
        }
    }
    assert(prefix@.take(prefix@.len() as int) =~= prefix@);
    true
}

/// `s` without its first `count` characters.
pub fn skip_chars(s: &str, count: usize) -> (r: &str)
    requires
        count <= s@.len(),
    ensures
        r@ == s@.skip(count as int),
{
    let total = s.unicode_len();
    let r = s.substring_char(count, total);
    assert(s@.subrange(count as int, total as int) =~= s@.skip(count as int));
    r
}

/// Whether a character is white space: whether it has the Unicode property
/// White_Space. These are the space, the controls from tab to carriage
/// return, next line, the no-break space, the ogham space mark, the spaces
/// from en quad to hair space, the line and the paragraph separator, the
/// narrow no-break space, the medium mathematical space and the ideographic
/// space.
pub open spec fn is_whitespace_char(c: char) -> bool {
    ||| c == ' '
    ||| '\u{9}' <= c <= '\u{d}'
    ||| c == '\u{85}'
    ||| c == '\u{a0}'
    ||| c == '\u{1680}'
    ||| '\u{2000}' <= c <= '\u{200a}'
    ||| c == '\u{2028}'
    ||| c == '\u{2029}'
    ||| c == '\u{202f}'
    ||| c == '\u{205f}'
    ||| c == '\u{3000}'
}

/// `char::is_whitespace` of the standard library: whether the character has
/// the Unicode property White_Space, which [`is_whitespace_char`] spells
/// out.
pub assume_specification[ char::is_whitespace ](c: char) -> (r: bool)
    ensures
        r == is_whitespace_char(c),
;

/// How many characters of white space `s` begins with.
pub open spec fn leading_whitespace(s: Seq<char>) -> nat
    decreases s.len(),
{
    if s.len() > 0 && is_whitespace_char(s[0]) {
        1 + leading_whitespace(s.drop_first())
    } else {
        0
    }
}

/// `s` without the white space at its end.
pub open spec fn without_trailing_whitespace(s: Seq<char>) -> Seq<char>
    decreases s.len(),
{
    if s.len() > 0 && is_whitespace_char(s.last()) {
        without_trailing_whitespace(s.drop_last())
    } else {
        s
    }
}

/// `s` without the white space at its beginning and at its end.
pub open spec fn trimmed(s: Seq<char>) -> Seq<char> {
    without_trailing_whitespace(s.skip(leading_whitespace(s) as int))
}

/// The white space a text begins with ends at its first other character.
pub proof fn lemma_leading_whitespace(s: Seq<char>, first: int)
    requires
        0 <= first <= s.len(),
        forall|j: int| 0 <= j < first ==> is_whitespace_char(s[j]),
        first < s.len() ==> !is_whitespace_char(s[first]),
    ensures
        leading_whitespace(s) == first,
    decreases s.len(),
{
    if first > 0 {
        let rest = s.drop_first();
        assert forall|j: int| 0 <= j < first - 1 implies is_whitespace_char(rest[j]) by {
            assert(rest[j] == s[j + 1]);
        }
        lemma_leading_whitespace(rest, first - 1);
    }
}

/// Dropping trailing white space keeps exactly the prefix that ends with
/// the last other character.
pub proof fn lemma_without_trailing_whitespace(s: Seq<char>, keep: int)
    requires
        0 <= keep <= s.len(),
        keep == 0 || !is_whitespace_char(s[keep - 1]),
        forall|j: int| keep <= j < s.len() ==> is_whitespace_char(s[j]),
    ensures
        without_trailing_whitespace(s) == s.take(keep),
    decreases s.len(),
{
    if keep == s.len() {
        assert(s.take(keep) =~= s);
    } else {
        let shorter = s.drop_last();
        lemma_without_trailing_whitespace(shorter, keep);
        assert(shorter.take(keep) =~= s.take(keep));
    }
}

/// `s` without the white space at its beginning and at its end.
pub fn trim(s: &str) -> (r: &str)
    ensures
        r@ == trimmed(s@),
{
    let total = s.unicode_len();
    let mut first: usize = 0;
    let mut found = false;
    let mut keep: usize = 0;
    let mut seen: usize = 0;
    for c in it: s.chars()
        invariant
            it.seq() == s@,
            total == s@.len(),
            seen == it.index(),
            first <= keep <= seen <= total,
            !found ==> first == seen && keep == seen,
            found ==> first < keep && !is_whitespace_char(s@[first as int]),
            forall|j: int| 0 <= j < first ==> is_whitespace_char(s@[j]),
            found ==> !is_whitespace_char(s@[keep - 1]),
            forall|j: int| keep <= j < seen ==> is_whitespace_char(s@[j]),
    {
        seen += 1;
        if c.is_whitespace() {
            if !found {
                first = seen;
                keep = seen;
            }
        } else {
            if !found {
                found = true;
            }
            keep = seen;
        }
    }
    proof {
        lemma_leading_whitespace(s@, first as int);
        let tail = s@.skip(first as int);
        assert forall|j: int| keep - first <= j < tail.len() implies is_whitespace_char(
            tail[j],
        ) by {
            assert(tail[j] == s@[j + first]);
        }
        if keep > first {
            assert(tail[keep - first - 1] == s@[keep - 1]);
        }
        lemma_without_trailing_whitespace(tail, keep - first);
        assert(tail.take(keep - first) =~= s@.subrange(first as int, keep as int));
    }
    s.substring_char(first, keep)
}

/// The position of the first `c` in `s`, or the length of `s` when there
/// is none.
pub open spec fn position_of(s: Seq<char>, c: char) -> nat
    decreases s.len(),
{
    if s.len() > 0 && s[0] != c {
        1 + position_of(s.drop_first(), c)
    } else {
        0
    }
}

/// The part of `s` before its first `c`; all of `s` when there is none.
pub open spec fn before_first(s: Seq<char>, c: char) -> Seq<char> {
    s.take(position_of(s, c) as int)
}

/// The first `c` of a text follows only other characters.
pub proof fn lemma_position_of(s: Seq<char>, c: char, at: int)
    requires
        0 <= at <= s.len(),
        forall|j: int| 0 <= j < at ==> s[j] != c,
        at < s.len() ==> s[at] == c,
    ensures
        position_of(s, c) == at,
    decreases s.len(),
{
    if at > 0 {
        let rest = s.drop_first();
        assert forall|j: int| 0 <= j < at - 1 implies rest[j] != c by {
            assert(rest[j] == s[j + 1]);
        }
        lemma_position_of(rest, c, at - 1);
    }
}

/// The part of `s` before its first `c`; all of `s` when there is none.
pub fn take_before(s: &str, c: char) -> (r: &str)
    ensures
        r@ == before_first(s@, c),
{
    let total = s.unicode_len();
    let mut at: usize = 0;
    let mut found = false;
    for ch in it: s.chars()
        invariant
            it.seq() == s@,
            total == s@.len(),
            at <= it.index(),
            !found ==> at == it.index(),
            found ==> at < s@.len() && s@[at as int] == c,
            forall|j: int| 0 <= j < at ==> s@[j] != c,
    {
        if !found {
            if ch == c {
                found = true;
            } else {
                at += 1;
            }
        }
    }
    proof {
        lemma_position_of(s@, c, at as int);
    }
    let r = s.substring_char(0, at);
    assert(s@.subrange(0, at as int) =~= s@.take(at as int));
    r
}

/// Whether `c` is a decimal digit.
pub open spec fn is_digit(c: char) -> bool {
    '0' <= c <= '9'
}

/// The value of the decimal digit `c`.
pub open spec fn digit_value(c: char) -> nat
    recommends
        is_digit(c),
{
    (c as u32 - '0' as u32) as nat
}

/// The number that a run of decimal digits denotes; `None` when a
/// character is not a digit.
pub open spec fn digits_value(s: Seq<char>) -> Option<nat>
    decreases s.len(),
{
    if s.len() == 0 {
        Some(0)
    } else {
        match digits_value(s.drop_last()) {
            Some(v) => if is_digit(s.last()) {
                Some(v * 10 + digit_value(s.last()))
            } else {
                None
            },
            None => None,
        }
    }
}

/// `s` without a plus sign in front.
pub open spec fn unsigned_part(s: Seq<char>) -> Seq<char> {
    if s.len() > 0 && s[0] == '+' {
        s.drop_first()
    } else {
        s
    }
}

/// The 32-bit number that a text denotes: an optional plus sign followed
/// by at least one decimal digit and nothing else, with a value that fits.
pub open spec fn parsed_u32(s: Seq<char>) -> Option<u32> {
    let body = unsigned_part(s);
    if body.len() == 0 {
        None
    } else {
        match digits_value(body) {
            Some(v) => if v <= u32::MAX {
                Some(v as u32)
            } else {
                None
            },
            None => None,
        }
    }
}

/// A run of digits denotes at least what any of its beginnings denotes, and
/// a run with a beginning that denotes nothing denotes nothing.
pub proof fn lemma_digits_value_grows(s: Seq<char>, k: int)
    requires
        0 <= k <= s.len(),
    ensures
        digits_value(s.take(k)) is None ==> digits_value(s) is None,
        digits_value(s) is Some ==> digits_value(s.take(k)) is Some && digits_value(
            s.take(k),
        )->0 <= digits_value(s)->0,
    decreases s.len(),
{
    if k == s.len() {
        assert(s.take(k) =~= s);
    } else {
        let init = s.drop_last();
        lemma_digits_value_grows(init, k);
        assert(init.take(k) =~= s.take(k));
    }
}

/// Reads a 32-bit number; see [`parsed_u32`].
pub fn parse_u32(s: &str) -> (r: Option<u32>)
    ensures
        r == parsed_u32(s@),
{
    let mut value: u64 = 0;
    let mut digits: usize = 0;
    let total = s.unicode_len();
    let mut signed = false;
    let mut first = true;
    let ghost body = unsigned_part(s@);
    assert(body.take(0) =~= Seq::<char>::empty());
    for c in it: s.chars()
        invariant
            it.seq() == s@,
            body == unsigned_part(s@),
            first <==> it.index() == 0,
            total == s@.len(),
            signed <==> s@.len() > 0 && s@[0] == '+' && it.index() > 0,
            it.index() > 0 && !signed ==> !(s@.len() > 0 && s@[0] == '+'),
            digits == it.index() - (if signed {
                1int
            } else {
                0int
            }),
            digits <= body.len(),
            digits_value(body.take(digits as int)) == Some(value as nat),
            value <= u32::MAX,
    {
        let leading = first;
        first = false;
        if leading && c == '+' {
            signed = true;
        } else {
            let ghost before = body.take(digits as int);
            let ghost after = body.take(digits + 1);
            assert(body[digits as int] == c);
            assert(after.drop_last() =~= before);
            assert(after.last() == c);
            if !(c >= '0' && c <= '9') {
                proof {
                    lemma_digits_value_grows(body, digits + 1);
                }
                return None;
            }
            let d = (c as u32 - '0' as u32) as u64;
            value = value * 10 + d;
            digits += 1;
            if value > 0xffff_ffff {
                proof {
                    lemma_digits_value_grows(body, digits as int);
                }
                return None;
            }
        }
    }
    assert(body.take(body.len() as int) =~= body);
    if digits == 0 {
        None
    } else {
        Some(value as u32)
    }
}

} // verus!
