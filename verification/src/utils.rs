//! Short codes, URL checks and small text utilities.

use crate::text::{
    byte_len, decimal, is_whitespace_char, opt_text, push_decimal, push_signed_decimal,
    signed_decimal, str_eq, trim_end_char, trimmed_end, utf8_len,
};
use crate::time::Timestamp;
use rand::Rng;
use rand::RngCore;
use vstd::prelude::*;
use vstd::string::*;
use vstd::utf8::*;

verus! {

/// Length of an automatically generated short code.
pub const DEFAULT_SHORT_CODE_LENGTH: usize = 7;

/// Longest target URL that is accepted, in bytes.
pub const MAX_URL_LENGTH: usize = 2048;

/// Shortest custom short code that is accepted.
pub const MIN_CUSTOM_CODE_LENGTH: usize = 3;

/// Longest custom short code that is accepted.
pub const MAX_CUSTOM_CODE_LENGTH: usize = 20;

/// Number of characters generated codes are drawn from.
pub const SHORT_CODE_ALPHABET_SIZE: usize = 62;

// ---------------------------------------------------------------------
// Short code generation
// ---------------------------------------------------------------------

/// The alphabet of generated codes: lower case, upper case, digits.
pub open spec fn short_code_alphabet() -> Seq<char> {
    "abcdefghijklmnopqrstuvwxyzABCDEFGHIJKLMNOPQRSTUVWXYZ0123456789"@
}

/// Whether `c` is an ASCII letter or digit.
pub open spec fn is_alphanumeric(c: char) -> bool {
    ('a' <= c <= 'z') || ('A' <= c <= 'Z') || ('0' <= c <= '9')
}

/// Whether `code` could have been generated with the given length: exactly
/// that many characters, all of them ASCII letters or digits.
pub open spec fn generated_code(code: Seq<char>, length: nat) -> bool {
    &&& code.len() == length
    &&& forall|i: int| 0 <= i < code.len() ==> is_alphanumeric(#[trigger] code[i])
}

/// The alphabet has 62 members, all of them ASCII letters or digits.
pub proof fn lemma_short_code_alphabet()
    ensures
        short_code_alphabet().len() == SHORT_CODE_ALPHABET_SIZE,
        forall|i: int|
            0 <= i < short_code_alphabet().len() ==> is_alphanumeric(
                #[trigger] short_code_alphabet()[i],
            ),
{
    reveal_strlit("abcdefghijklmnopqrstuvwxyzABCDEFGHIJKLMNOPQRSTUVWXYZ0123456789");
}

/// The member of the alphabet at `index`.
pub fn short_code_char(index: usize) -> (c: char)
    requires
        index < SHORT_CODE_ALPHABET_SIZE,
    ensures
        c == short_code_alphabet()[index as int],
        is_alphanumeric(c),
{
    proof {
        lemma_short_code_alphabet();
    }
    let alphabet = "abcdefghijklmnopqrstuvwxyzABCDEFGHIJKLMNOPQRSTUVWXYZ0123456789";
    alphabet.get_char(index)
}

/// Draws an index below `bound` from the thread-local generator of the
/// `rand` crate (`Rng::gen_range` over `0..bound`). Trusted: the value lies in
/// the range asked for. `gen_range` panics on an empty range, which the
/// precondition excludes.
#[verifier::external_body]
fn random_below(bound: usize) -> (r: usize)
    requires
        bound > 0,
    ensures
        r < bound,
{
    rand::thread_rng().gen_range(0..bound)
}

/// A random code of `length` characters from the 62-character alphabet.
pub fn generate_short_code_with_length(length: usize) -> (code: String)
    ensures
        generated_code(code@, length as nat),
{
    let mut code = String::new();
    let mut i: usize = 0;
    while i < length
        invariant
            i <= length,
            generated_code(code@, i as nat),
        decreases length - i,
    {
        let index = random_below(SHORT_CODE_ALPHABET_SIZE);
        let c = short_code_char(index);
        code.push(c);
        i += 1;
    }
    code
}

/// A random code of the default length.
pub fn generate_short_code() -> (code: String)
    ensures
        generated_code(code@, DEFAULT_SHORT_CODE_LENGTH as nat),
        valid_short_code(code@),
{
    generate_short_code_with_length(DEFAULT_SHORT_CODE_LENGTH)
}

// ---------------------------------------------------------------------
// Short code validation
// ---------------------------------------------------------------------

/// Whether `c` may occur in a short code: an ASCII letter or digit, `_` or
/// `-`.
pub open spec fn is_code_char(c: char) -> bool {
    is_alphanumeric(c) || c == '_' || c == '-'
}

/// Whether `code` is an acceptable short code: between 3 and 20 characters,
/// each an ASCII letter or digit, `_` or `-`.
pub open spec fn valid_short_code(code: Seq<char>) -> bool {
    &&& MIN_CUSTOM_CODE_LENGTH <= code.len() <= MAX_CUSTOM_CODE_LENGTH
    &&& forall|i: int| 0 <= i < code.len() ==> is_code_char(#[trigger] code[i])
}

/// Decides [`is_code_char`].
pub fn code_char_allowed(c: char) -> (r: bool)
    ensures
        r == is_code_char(c),
{
    (c >= 'a' && c <= 'z') || (c >= 'A' && c <= 'Z') || (c >= '0' && c <= '9') || c == '_' || c
        == '-'
}

/// Checks the format of a short code.
pub fn is_valid_short_code(code: &str) -> (r: bool)
    ensures
        r == valid_short_code(code@),
{
    let mut count: usize = 0;
    for c in it: code.chars()
        invariant
            it.seq() == code@,
            count == it.index(),
            count <= MAX_CUSTOM_CODE_LENGTH,
            forall|i: int| 0 <= i < it.index() ==> is_code_char(#[trigger] code@[i]),
    {
        if !code_char_allowed(c) || count >= MAX_CUSTOM_CODE_LENGTH {
            return false;
        }
        count += 1;
    }
    count >= MIN_CUSTOM_CODE_LENGTH
}

// ---------------------------------------------------------------------
// URLs
// ---------------------------------------------------------------------

/// What the `url` crate makes of a text: `None` where `Url::parse` rejects
/// it, otherwise the scheme of the parsed URL and its serialization.
pub uninterp spec fn url_parse(input: Seq<char>) -> Option<(Seq<char>, Seq<char>)>;

/// The parts of a parsed URL that this crate reads.
pub struct ParsedUrl {
    pub scheme: String,
    pub serialization: String,
}

impl View for ParsedUrl {
    type V = (Seq<char>, Seq<char>);

    open spec fn view(&self) -> (Seq<char>, Seq<char>) {
        (self.scheme@, self.serialization@)
    }
}

/// The model of an optional parsed URL.
pub open spec fn opt_parsed(p: Option<ParsedUrl>) -> Option<(Seq<char>, Seq<char>)> {
    match p {
        Some(u) => Some(u@),
        None => None,
    }
}

/// Parses `input` with `url::Url::parse` and, where that succeeds, reads the
/// scheme (`Url::scheme`) and the serialization (`Display` of the URL).
/// Trusted: the outcome is a function of the text alone, named
/// [`url_parse`]; nothing more is claimed of it.
#[verifier::external_body]
fn parse_url(input: &str) -> (r: Option<ParsedUrl>)
    ensures
        opt_parsed(r) == url_parse(input@),
{
    match url::Url::parse(input) {
        Ok(u) => Some(ParsedUrl { scheme: u.scheme().to_string(), serialization: u.to_string() }),
        Err(_) => None,
    }
}

/// Whether a scheme is one of those a target URL may have.
pub open spec fn web_scheme(scheme: Seq<char>) -> bool {
    scheme == "http"@ || scheme == "https"@
}

/// Whether a parse outcome describes an acceptable target: it parsed, and
/// its scheme is `http` or `https`.
pub open spec fn web_url(parsed: Option<(Seq<char>, Seq<char>)>) -> bool {
    match parsed {
        Some(p) => web_scheme(p.0),
        None => false,
    }
}

/// Whether `url` is an acceptable target URL: at most [`MAX_URL_LENGTH`]
/// bytes long, parseable, with scheme `http` or `https`.
pub open spec fn valid_url(url: Seq<char>) -> bool {
    utf8_len(url) <= MAX_URL_LENGTH && web_url(url_parse(url))
}

/// Decides [`web_scheme`].
pub fn scheme_allowed(scheme: &str) -> (r: bool)
    ensures
        r == web_scheme(scheme@),
{
    str_eq(scheme, "http") || str_eq(scheme, "https")
}

/// Decides [`web_url`] for a parse outcome.
pub fn parsed_url_allowed(parsed: &Option<ParsedUrl>) -> (r: bool)
    ensures
        r == web_url(opt_parsed(*parsed)),
{
    match parsed {
        Some(p) => scheme_allowed(p.scheme.as_str()),
        None => false,
    }
}

/// Checks a target URL.
pub fn is_valid_url(url_str: &str) -> (r: bool)
    ensures
        r == valid_url(url_str@),
{
    if byte_len(url_str) > MAX_URL_LENGTH {
        return false;
    }
    let parsed = parse_url(url_str);
    parsed_url_allowed(&parsed)
}

/// The canonical form of a URL: its serialization without trailing
/// slashes; `None` for a text that is not a URL.
pub open spec fn normalized(url: Seq<char>) -> Option<Seq<char>> {
    match url_parse(url) {
        Some(p) => Some(trimmed_end(p.1, '/')),
        None => None,
    }
}

/// The canonical form of a parsed URL.
pub fn normal_form(parsed: &ParsedUrl) -> (r: String)
    ensures
        r@ == trimmed_end(parsed.serialization@, '/'),
{
    trim_end_char(parsed.serialization.as_str(), '/').to_string()
}

/// Brings a URL into its canonical form.
pub fn normalize_url(url_str: &str) -> (r: Option<String>)
    ensures
        opt_text(r) == normalized(url_str@),
{
    match parse_url(url_str) {
        Some(parsed) => Some(normal_form(&parsed)),
        None => None,
    }
}

// ---------------------------------------------------------------------
// Base 62
// ---------------------------------------------------------------------

/// Why a text is not the base-62 numeral of a 64-bit number.
#[derive(Debug, Clone, Copy, PartialEq, Eq, Structural)]
pub enum Base62Error {
    /// The number is too large.
    ArithmeticOverflow,
    /// The text is empty.
    EmptyInput,
    /// The byte at the given position is not a base-62 digit.
    InvalidBase62Byte(u8, usize),
}

/// The digits of base 62 in their order: `0` to `9`, then `A` to `Z`, then
/// `a` to `z`.
pub open spec fn base62_digits() -> Seq<char> {
    "0123456789ABCDEFGHIJKLMNOPQRSTUVWXYZabcdefghijklmnopqrstuvwxyz"@
}

/// The base-62 numeral of a number: its digits from the most significant
/// to the least, without leading zeros, and `0` for zero.
pub open spec fn base62_text(n: nat) -> Seq<char>
    decreases n,
{
    if n < 62 {
        seq![base62_digits()[n as int]]
    } else {
        base62_text(n / 62).push(base62_digits()[(n % 62) as int])
    }
}

/// What the `base62` crate reads a text as.
pub uninterp spec fn base62_value(text: Seq<char>) -> std::result::Result<u128, Base62Error>;

/// There are 62 digits, all different.
pub proof fn lemma_base62_digits()
    ensures
        base62_digits().len() == 62,
        forall|i: int, j: int|
            0 <= i < 62 && 0 <= j < 62 && i != j ==> base62_digits()[i] != base62_digits()[j],
{
    reveal_strlit("0123456789ABCDEFGHIJKLMNOPQRSTUVWXYZabcdefghijklmnopqrstuvwxyz");
    let d = base62_digits();
    assert forall|i: int, j: int| 0 <= i < 62 && 0 <= j < 62 && i != j implies d[i] != d[j] by {
        if i < 10 {
            assert('0' <= d[i] <= '9');
        } else if i < 36 {
            assert('A' <= d[i] <= 'Z');
            assert(d[i] as int == 'A' as int + (i - 10));
        } else {
            assert('a' <= d[i] <= 'z');
            assert(d[i] as int == 'a' as int + (i - 36));
        }
        if j < 10 {
            assert('0' <= d[j] <= '9');
        } else if j < 36 {
            assert('A' <= d[j] <= 'Z');
            assert(d[j] as int == 'A' as int + (j - 10));
        } else {
            assert('a' <= d[j] <= 'z');
            assert(d[j] as int == 'a' as int + (j - 36));
        }
        if i < 10 {
            assert(d[i] as int == '0' as int + i);
        }
        if j < 10 {
            assert(d[j] as int == '0' as int + j);
        }
    }
}

/// Different numbers have different numerals.
pub proof fn lemma_base62_text_is_unique(a: nat, b: nat)
    requires
        base62_text(a) == base62_text(b),
    ensures
        a == b,
    decreases a,
{
    lemma_base62_digits();
    lemma_base62_text_len(a / 62);
    lemma_base62_text_len(b / 62);
    let digits = base62_digits();
    let x = base62_text(a);
    let y = base62_text(b);
    if a < 62 && b < 62 {
        assert(x[0] == digits[a as int]);
        assert(y[0] == digits[b as int]);
        if a != b {
            assert(digits[a as int] != digits[b as int]);
        }
    } else if a < 62 {
        assert(x.len() == 1);
        assert(y.len() == base62_text(b / 62).len() + 1);
    } else if b < 62 {
        assert(y.len() == 1);
        assert(x.len() == base62_text(a / 62).len() + 1);
    } else {
        let p = base62_text(a / 62);
        let q = base62_text(b / 62);
        assert(x.drop_last() =~= p);
        assert(y.drop_last() =~= q);
        assert(x.last() == digits[(a % 62) as int]);
        assert(y.last() == digits[(b % 62) as int]);
        lemma_base62_text_is_unique(a / 62, b / 62);
        if a % 62 != b % 62 {
            assert(digits[(a % 62) as int] != digits[(b % 62) as int]);
        }
    }
}

/// A numeral has at least one digit.
pub proof fn lemma_base62_text_len(n: nat)
    ensures
        base62_text(n).len() >= 1,
    decreases n,
{
    if n >= 62 {
        lemma_base62_text_len(n / 62);
    }
}

/// Encodes with `base62::encode`. Trusted: the result is the numeral of the
/// number in base 62 with the digits `0` to `9`, `A` to `Z`, `a` to `z`, as
/// the crate documents and [`base62_text`] spells out.
#[verifier::external_body]
fn base62_encode(n: u64) -> (r: String)
    ensures
        r@ == base62_text(n as nat),
{
    base62::encode(n)
}

/// Decodes with `base62::decode`, telling its three kinds of failure apart.
/// Trusted: the outcome is a function of the text alone, named
/// [`base62_value`], and the numeral of a 64-bit number is read as that
/// number.
#[verifier::external_body]
fn base62_decode(code: &str) -> (r: std::result::Result<u128, Base62Error>)
    ensures
        r == base62_value(code@),
        match r {
            Ok(v) => forall|n: u64| code@ == #[trigger] base62_text(n as nat) ==> v == n,
            Err(_) => forall|n: u64| code@ != #[trigger] base62_text(n as nat),
        },
{
    match base62::decode(code) {
        Ok(v) => Ok(v),
        Err(base62::DecodeError::ArithmeticOverflow) => Err(Base62Error::ArithmeticOverflow),
        Err(base62::DecodeError::EmptyInput) => Err(Base62Error::EmptyInput),
        Err(base62::DecodeError::InvalidBase62Byte(b, i)) => Err(
            Base62Error::InvalidBase62Byte(b, i),
        ),
    }
}

/// A decoded value as a 64-bit number: a value that does not fit is an
/// overflow, and failures stay what they are.
pub open spec fn narrowed(decoded: std::result::Result<u128, Base62Error>) -> std::result::Result<
    u64,
    Base62Error,
> {
    match decoded {
        Ok(v) => if v <= u64::MAX {
            Ok(v as u64)
        } else {
            Err(Base62Error::ArithmeticOverflow)
        },
        Err(e) => Err(e),
    }
}

/// Narrows a decoded value to 64 bits.
pub fn narrow_decoded(decoded: std::result::Result<u128, Base62Error>) -> (r: std::result::Result<
    u64,
    Base62Error,
>)
    ensures
        r == narrowed(decoded),
{
    match decoded {
        Ok(v) => {
            if v <= 0xffff_ffff_ffff_ffff {
                Ok(v as u64)
            } else {
                Err(Base62Error::ArithmeticOverflow)
            }
        },
        Err(e) => Err(e),
    }
}

/// The short code that stands for a numeric identifier: its base-62
/// numeral.
pub fn encode_id_to_short_code(id: u64) -> (code: String)
    ensures
        code@ == base62_text(id as nat),
{
    base62_encode(id)
}

/// The numeric identifier that a base-62 short code stands for. The short
/// code of an identifier is read as that identifier.
pub fn decode_short_code_to_id(code: &str) -> (r: std::result::Result<u64, Base62Error>)
    ensures
        r == narrowed(base62_value(code@)),
        forall|id: u64|
            code@ == #[trigger] base62_text(id as nat) ==> r == Ok::<u64, Base62Error>(id),
{
    narrow_decoded(base62_decode(code))
}

// ---------------------------------------------------------------------
// Text utilities
// ---------------------------------------------------------------------

/// Length a text is shortened to when none is given.
pub const DEFAULT_TRUNCATE_LENGTH: usize = 100;

/// The number of bytes the UTF-8 encoding of `c` occupies.
pub open spec fn char_width(c: char) -> nat {
    encode_scalar(c as u32).len()
}

/// The number of bytes the UTF-8 encoding of `c` occupies.
pub fn char_utf8_width(c: char) -> (w: usize)
    ensures
        w == char_width(c),
        1 <= w <= 4,
{
    proof {
        char_is_scalar(c);
    }
    let v = c as u32;
    if v < 0x80 {
        1
    } else if v < 0x800 {
        2
    } else if v < 0x10000 {
        3
    } else {
        4
    }
}

/// How many leading characters of `text` start before byte `limit`.
pub open spec fn chars_before(text: Seq<char>, limit: int) -> nat
    decreases text.len(),
{
    if text.len() == 0 || limit <= 0 {
        0
    } else {
        1 + chars_before(text.drop_first(), limit - char_width(text[0]))
    }
}

/// `text`, shortened to about `max` bytes: unchanged when it has at most
/// `max` bytes, otherwise its characters that start before byte `max - 3`,
/// followed by three dots.
pub open spec fn truncated(text: Seq<char>, max: nat) -> Seq<char> {
    if utf8_len(text) <= max {
        text
    } else {
        text.take(chars_before(text, max - 3) as int) + "..."@
    }
}

/// The length a text is shortened to.
pub open spec fn truncate_length(max_len: Option<usize>) -> nat {
    match max_len {
        Some(m) => m as nat,
        None => DEFAULT_TRUNCATE_LENGTH as nat,
    }
}

/// Shortens a text to about `max_len` bytes (100 when none is given),
/// marking the cut with three dots. A text longer than a limit below 3
/// cannot be shortened, which the precondition excludes.
pub fn truncate(text: &str, max_len: Option<usize>) -> (r: String)
    requires
        truncate_length(max_len) >= 3 || utf8_len(text@) <= truncate_length(max_len),
    ensures
        r@ == truncated(text@, truncate_length(max_len)),
{
    let max = match max_len {
        Some(m) => m,
        None => DEFAULT_TRUNCATE_LENGTH,
    };
    if byte_len(text) <= max {
        return text.to_string();
    }
    let limit: usize = max - 3;
    let mut out = String::new();
    let mut offset: usize = 0;
    assert(text@.skip(0) =~= text@);
    for c in it: text.chars()
        invariant
            it.seq() == text@,
            limit + 3 <= usize::MAX,
            limit == truncate_length(max_len) - 3,
            utf8_len(text@) > truncate_length(max_len),
            offset <= limit + 3,
            out@ == text@.take(it.index() as int),
            chars_before(text@, limit as int) == it.index() + chars_before(
                text@.skip(it.index() as int),
                limit - offset,
            ),
    {
        let ghost rest = text@.skip(it.index() as int);
        assert(rest[0] == c);
        assert(rest.drop_first() =~= text@.skip(it.index() + 1));
        if offset >= limit {
            out.append("...");
            return out;
        }
        out.push(c);
        offset = offset + char_utf8_width(c);
        assert(text@.take(it.index() + 1) =~= text@.take(it.index() as int).push(c));
    }
    assert(text@.skip(text@.len() as int).len() == 0);
    out.append("...");
    out
}

/// The words of a text: its maximal runs of characters that are not white
/// space, in their order.
pub open spec fn words(s: Seq<char>) -> Seq<Seq<char>>
    decreases s.len(),
{
    if s.len() == 0 {
        Seq::empty()
    } else if is_whitespace_char(s.last()) {
        words(s.drop_last())
    } else if s.len() > 1 && !is_whitespace_char(s[s.len() - 2]) {
        let earlier = words(s.drop_last());
        earlier.drop_last().push(earlier.last().push(s.last()))
    } else {
        words(s.drop_last()).push(seq![s.last()])
    }
}

/// The texts joined by single spaces.
pub open spec fn joined(parts: Seq<Seq<char>>) -> Seq<char>
    decreases parts.len(),
{
    if parts.len() == 0 {
        Seq::empty()
    } else if parts.len() == 1 {
        parts[0]
    } else {
        joined(parts.drop_last()) + seq![' '] + parts.last()
    }
}

/// The words of a text, in their order.
pub fn split_words(text: &str) -> (r: Vec<String>)
    ensures
        crate::text::texts(r@) == words(text@),
{
    let mut done: Vec<String> = Vec::new();
    let mut current = String::new();
    let mut in_word = false;
    assert(text@.take(0) =~= Seq::<char>::empty());
    assert(crate::text::texts(done@) =~= Seq::<Seq<char>>::empty());
    for c in it: text.chars()
        invariant
            it.seq() == text@,
            in_word <==> it.index() > 0 && !is_whitespace_char(text@[it.index() - 1]),
            in_word ==> words(text@.take(it.index() as int)) == crate::text::texts(done@).push(
                current@,
            ),
            !in_word ==> words(text@.take(it.index() as int)) == crate::text::texts(done@),
            !in_word ==> current@.len() == 0,
    {
        let ghost before = text@.take(it.index() as int);
        let ghost after = text@.take(it.index() + 1);
        assert(after.drop_last() =~= before);
        assert(after.last() == c);
        if c.is_whitespace() {
            if in_word {
                let ghost listed = crate::text::texts(done@);
                done.push(current);
                current = String::new();
                assert(crate::text::texts(done@) =~= listed.push(done@[done@.len() - 1]@));
            }
            in_word = false;
        } else {
            proof {
                if in_word {
                    assert(after[after.len() - 2] == text@[it.index() - 1]);
                    let earlier = crate::text::texts(done@).push(current@);
                    assert(earlier.drop_last() =~= crate::text::texts(done@));
                } else if it.index() > 0 {
                    assert(after[after.len() - 2] == text@[it.index() - 1]);
                }
            }
            let ghost word = current@;
            current.push(c);
            proof {
                if in_word {
                    let earlier = crate::text::texts(done@).push(word);
                    assert(words(before) == earlier);
                    assert(earlier.last() == word);
                    assert(words(after) == earlier.drop_last().push(earlier.last().push(c)));
                } else {
                    assert(current@ =~= seq![c]);
                    assert(words(after) == words(before).push(seq![c]));
                }
            }
            in_word = true;
        }
    }
    assert(text@.take(text@.len() as int) =~= text@);
    if in_word {
        let ghost listed = crate::text::texts(done@);
        done.push(current);
        assert(crate::text::texts(done@) =~= listed.push(done@[done@.len() - 1]@));
    }
    done
}

/// The texts joined by single spaces.
pub fn join_with_spaces(parts: &Vec<String>) -> (r: String)
    ensures
        r@ == joined(crate::text::texts(parts@)),
{
    let mut out = String::new();
    let mut i: usize = 0;
    let ghost all = crate::text::texts(parts@);
    assert(all.take(0) =~= Seq::<Seq<char>>::empty());
    while i < parts.len()
        invariant
            i <= parts@.len(),
            all == crate::text::texts(parts@),
            out@ == joined(all.take(i as int)),
        decreases parts.len() - i,
    {
        let ghost next = all.take(i + 1);
        assert(next.drop_last() =~= all.take(i as int));
        assert(next.last() == parts@[i as int]@);
        if i > 0 {
            out.push(' ');
        }
        out.append(parts[i].as_str());
        assert(out@ =~= joined(next)) by {
            if i == 0 {
                assert(next[0] == next.last());
                assert(joined(all.take(0)) =~= Seq::<char>::empty());
            }
        }
        i += 1;
    }
    assert(all.take(i as int) =~= all);
    out
}

/// Whether a text is a word: not empty and free of white space.
pub open spec fn is_word(w: Seq<char>) -> bool {
    w.len() > 0 && forall|i: int| 0 <= i < w.len() ==> !is_whitespace_char(#[trigger] w[i])
}

/// Whether a text is tidy: its only white space is the space, no two spaces
/// stand side by side, and it neither begins nor ends with one.
pub open spec fn tidy(t: Seq<char>) -> bool {
    &&& forall|i: int| 0 <= i < t.len() && is_whitespace_char(#[trigger] t[i]) ==> t[i] == ' '
    &&& forall|i: int| 0 <= i < t.len() - 1 ==> !(#[trigger] t[i] == ' ' && t[i + 1] == ' ')
    &&& t.len() > 0 ==> !is_whitespace_char(t[0]) && !is_whitespace_char(t.last())
}

/// The words of a text are words, and a text that ends in a character other
/// than white space has at least one.
pub proof fn lemma_words_are_words(s: Seq<char>)
    ensures
        forall|k: int| 0 <= k < words(s).len() ==> is_word(#[trigger] words(s)[k]),
        s.len() > 0 && !is_whitespace_char(s.last()) ==> words(s).len() > 0,
    decreases s.len(),
{
    if s.len() > 0 {
        let init = s.drop_last();
        let c = s.last();
        lemma_words_are_words(init);
        let earlier = words(init);
        if is_whitespace_char(c) {
        } else if s.len() > 1 && !is_whitespace_char(s[s.len() - 2]) {
            assert(init.last() == s[s.len() - 2]);
            let grown = earlier.last().push(c);
            let now = earlier.drop_last().push(grown);
            assert(words(s) == now);
            assert(is_word(earlier[earlier.len() - 1]));
            assert forall|i: int| 0 <= i < grown.len() implies !is_whitespace_char(
                #[trigger] grown[i],
            ) by {
                if i < grown.len() - 1 {
                    assert(grown[i] == earlier.last()[i]);
                }
            }
            assert forall|k: int| 0 <= k < now.len() implies is_word(#[trigger] now[k]) by {
                if k < now.len() - 1 {
                    assert(now[k] == earlier[k]);
                }
            }
        } else {
            let now = earlier.push(seq![c]);
            assert(words(s) == now);
            assert forall|k: int| 0 <= k < now.len() implies is_word(#[trigger] now[k]) by {
                if k < now.len() - 1 {
                    assert(now[k] == earlier[k]);
                } else {
                    assert(now[k] =~= seq![c]);
                }
            }
        }
    }
}

/// Words joined by single spaces make a tidy text, which is empty only
/// where there is no word.
pub proof fn lemma_joined_words_are_tidy(parts: Seq<Seq<char>>)
    requires
        forall|k: int| 0 <= k < parts.len() ==> is_word(#[trigger] parts[k]),
    ensures
        tidy(joined(parts)),
        parts.len() > 0 ==> joined(parts).len() > 0,
    decreases parts.len(),
{
    if parts.len() == 1 {
        assert(is_word(parts[0]));
        let t = parts[0];
        assert forall|i: int| 0 <= i < t.len() - 1 implies !(#[trigger] t[i] == ' ' && t[i + 1]
            == ' ') by {
            assert(!is_whitespace_char(t[i]));
        }
    } else if parts.len() > 1 {
        let init = parts.drop_last();
        let last = parts.last();
        assert forall|k: int| 0 <= k < init.len() implies is_word(#[trigger] init[k]) by {
            assert(init[k] == parts[k]);
        }
        lemma_joined_words_are_tidy(init);
        assert(is_word(parts[parts.len() - 1]));
        let head = joined(init);
        let t = joined(parts);
        assert(t == head + seq![' '] + last);
        let n = head.len() as int;
        assert forall|i: int| 0 <= i < t.len() implies (i < n ==> #[trigger] t[i] == head[i]) && (i
            == n ==> t[i] == ' ') && (i > n ==> t[i] == last[i - n - 1]) by {}
        assert(t[0] == head[0]);
        assert(t.last() == last.last());
        assert forall|i: int| 0 <= i < t.len() && is_whitespace_char(#[trigger] t[i]) implies t[i]
            == ' ' by {
            if i < n {
                assert(t[i] == head[i]);
            } else if i > n {
                assert(t[i] == last[i - n - 1]);
            }
        }
        assert forall|i: int| 0 <= i < t.len() - 1 implies !(#[trigger] t[i] == ' ' && t[i + 1]
            == ' ') by {
            if i + 1 < n {
                assert(t[i] == head[i] && t[i + 1] == head[i + 1]);
            } else if i + 1 == n {
                assert(t[i] == head[i]);
                assert(head[i] == head.last());
            } else if i == n {
                assert(t[i + 1] == last[0]);
                assert(!is_whitespace_char(last[0]));
            } else {
                assert(t[i] == last[i - n - 1]);
                assert(!is_whitespace_char(last[i - n - 1]));
            }
        }
    }
}

/// Replaces every run of white space by a single space and drops white
/// space at both ends: the words of the text joined by single spaces. The
/// result is tidy: it holds no white space but single spaces between words.
pub fn clean_whitespace(text: &str) -> (r: String)
    ensures
        r@ == joined(words(text@)),
        tidy(r@),
{
    let parts = split_words(text);
    proof {
        lemma_words_are_words(text@);
        lemma_joined_words_are_tidy(words(text@));
    }
    join_with_spaces(&parts)
}

// ---------------------------------------------------------------------
// Time utilities
// ---------------------------------------------------------------------

/// The instant `hours` hours after the current reading of the system
/// clock.
pub fn expires_at_from_hours(hours: u32) -> (t: Timestamp)
    ensures
        exists|now: Timestamp| now.clock_range() && t == now.after_hours(hours as int),
{
    let now = Timestamp::now();
    let t = now.plus_hours(hours);
    assert(now.clock_range() && t == now.after_hours(hours as int));
    t
}

/// The quotient of a division that rounds towards zero.
pub open spec fn quotient_towards_zero(a: int, b: int) -> int
    recommends
        b > 0,
{
    if a >= 0 {
        a / b
    } else {
        -((-a) / b)
    }
}

/// The remainder of a division that rounds towards zero; it has the sign of
/// the dividend.
pub open spec fn remainder_towards_zero(a: int, b: int) -> int
    recommends
        b > 0,
{
    if a >= 0 {
        a % b
    } else {
        -((-a) % b)
    }
}

/// A duration in readable form: hours, minutes and seconds when it lasts an
/// hour or more, minutes and seconds when it lasts a minute or more, and
/// seconds alone otherwise, which includes every negative duration.
pub open spec fn duration_text(seconds: int) -> Seq<char> {
    let hours = quotient_towards_zero(seconds, 3600);
    let minutes = quotient_towards_zero(remainder_towards_zero(seconds, 3600), 60);
    let secs = remainder_towards_zero(seconds, 60);
    if hours > 0 {
        decimal(hours as nat) + "h "@ + decimal(minutes as nat) + "m "@ + decimal(secs as nat)
            + "s"@
    } else if minutes > 0 {
        decimal(minutes as nat) + "m "@ + decimal(secs as nat) + "s"@
    } else {
        signed_decimal(secs) + "s"@
    }
}

/// Renders a duration given in seconds.
pub fn format_duration(seconds: i64) -> (r: String)
    ensures
        r@ == duration_text(seconds as int),
{
    let hours = seconds / 3600;
    let minutes = (seconds % 3600) / 60;
    let secs = seconds % 60;
    let mut out = String::new();
    if hours > 0 {
        push_decimal(&mut out, hours as u64);
        out.append("h ");
        push_decimal(&mut out, minutes as u64);
        out.append("m ");
        push_decimal(&mut out, secs as u64);
        out.append("s");
        assert(out@ =~= duration_text(seconds as int));
    } else if minutes > 0 {
        push_decimal(&mut out, minutes as u64);
        out.append("m ");
        push_decimal(&mut out, secs as u64);
        out.append("s");
        assert(out@ =~= duration_text(seconds as int));
    } else {
        push_signed_decimal(&mut out, secs);
        out.append("s");
        assert(out@ =~= duration_text(seconds as int));
    }
    out
}

// ---------------------------------------------------------------------
// Security utilities
// ---------------------------------------------------------------------

/// The lower-case hexadecimal digit of a value below 16.
pub open spec fn hex_digit(v: int) -> char
    recommends
        0 <= v < 16,
{
    if v < 10 {
        crate::text::digit_char(v)
    } else if v == 10 {
        'a'
    } else if v == 11 {
        'b'
    } else if v == 12 {
        'c'
    } else if v == 13 {
        'd'
    } else if v == 14 {
        'e'
    } else {
        'f'
    }
}

/// The bytes written as two lower-case hexadecimal digits each.
pub open spec fn hex_text(bytes: Seq<u8>) -> Seq<char>
    decreases bytes.len(),
{
    if bytes.len() == 0 {
        Seq::empty()
    } else {
        hex_text(bytes.drop_last()).push(hex_digit(bytes.last() as int / 16)).push(
            hex_digit(bytes.last() as int % 16),
        )
    }
}

/// Hexadecimal text is twice as long as the bytes it shows.
pub proof fn lemma_hex_text_len(bytes: Seq<u8>)
    ensures
        hex_text(bytes).len() == 2 * bytes.len(),
    decreases bytes.len(),
{
    if bytes.len() > 0 {
        lemma_hex_text_len(bytes.drop_last());
    }
}

/// The lower-case hexadecimal digit of a value below 16.
pub fn hex_digit_char(v: u8) -> (c: char)
    requires
        v < 16,
    ensures
        c == hex_digit(v as int),
{
    if v < 10 {
        crate::text::digit_to_char(v)
    } else if v == 10 {
        'a'
    } else if v == 11 {
        'b'
    } else if v == 12 {
        'c'
    } else if v == 13 {
        'd'
    } else if v == 14 {
        'e'
    } else {
        'f'
    }
}

/// Writes bytes as two lower-case hexadecimal digits each.
pub fn hex_encode(bytes: &Vec<u8>) -> (r: String)
    ensures
        r@ == hex_text(bytes@),
{
    let mut out = String::new();
    let mut i: usize = 0;
    assert(bytes@.take(0) =~= Seq::<u8>::empty());
    while i < bytes.len()
        invariant
            i <= bytes@.len(),
            out@ == hex_text(bytes@.take(i as int)),
        decreases bytes.len() - i,
    {
        let ghost next = bytes@.take(i + 1);
        assert(next.drop_last() =~= bytes@.take(i as int));
        assert(next.last() == bytes@[i as int]);
        let b = bytes[i];
        out.push(hex_digit_char(b / 16));
        out.push(hex_digit_char(b % 16));
        i += 1;
    }
    assert(bytes@.take(i as int) =~= bytes@);
    out
}

/// Fills a fresh buffer of `count` bytes from the thread-local generator of
/// the `rand` crate (`RngCore::fill_bytes`). Trusted: the buffer has the
/// length asked for; nothing is known of its contents.
#[verifier::external_body]
fn random_bytes(count: usize) -> (bytes: Vec<u8>)
    ensures
        bytes@.len() == count,
{
    let mut bytes = vec![0u8; count];
    rand::thread_rng().fill_bytes(&mut bytes);
    bytes
}

/// A random token of hexadecimal digits: `length / 2` random bytes, two
/// digits each.
pub fn generate_secure_token(length: usize) -> (token: String)
    ensures
        token@.len() == 2 * (length / 2),
        exists|bytes: Seq<u8>| bytes.len() == length / 2 && token@ == #[trigger] hex_text(bytes),
{
    let bytes = random_bytes(length / 2);
    proof {
        lemma_hex_text_len(bytes@);
    }
    hex_encode(&bytes)
}

/// `count` asterisks.
pub open spec fn stars(count: nat) -> Seq<char> {
    Seq::new(count, |i: int| '*')
}

/// A text with all but its beginning hidden: a text of at most `visible`
/// bytes becomes one asterisk per byte, a longer one keeps its first
/// `visible` characters (all of them, if it has fewer) and ends in three
/// asterisks.
pub open spec fn masked(text: Seq<char>, visible: nat) -> Seq<char> {
    if utf8_len(text) <= visible {
        stars(utf8_len(text))
    } else if visible <= text.len() {
        text.take(visible as int) + "***"@
    } else {
        text + "***"@
    }
}

/// Hides all but the beginning of a text, for logs.
pub fn mask_string(text: &str, visible_chars: usize) -> (r: String)
    ensures
        r@ == masked(text@, visible_chars as nat),
{
    let bytes = byte_len(text);
    let mut out = String::new();
    if bytes <= visible_chars {
        let mut i: usize = 0;
        while i < bytes
            invariant
                i <= bytes,
                out@ == stars(i as nat),
            decreases bytes - i,
        {
            out.push('*');
            assert(out@ =~= stars((i + 1) as nat));
            i += 1;
        }
        return out;
    }
    let mut taken: usize = 0;
    for c in it: text.chars()
        invariant
            it.seq() == text@,
            taken <= visible_chars,
            taken <= it.index(),
            taken == it.index() || taken == visible_chars,
            out@ == text@.take(taken as int),
    {
        if taken < visible_chars {
            out.push(c);
            assert(text@.take(taken + 1) =~= text@.take(taken as int).push(c));
            taken += 1;
        }
    }
    assert(text@.take(text@.len() as int) =~= text@);
    out.append("***");
    out
}

} // verus!
