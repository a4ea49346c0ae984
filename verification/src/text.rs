//! Text primitives of the record assembler: the search for a line feed among
//! bytes, the permissive decoding of bytes, white space, trimming and
//! prefixes.
//!
//! Bytes are modelled as `Seq<u8>` and text as `Seq<char>`. A position in a
//! text is a position in characters, never in bytes.

use vstd::prelude::*;
use vstd::std_specs::iter::IteratorSpec;
use vstd::string::{StrSliceExecFns, StringExecFns};
use vstd::utf8::{decode_utf8, encode_scalar, encode_utf8, valid_utf8};

verus! {

/// The characters with the Unicode property `White_Space`.
pub open spec fn is_whitespace(c: char) -> bool {
    let u = c as u32;
    ||| 0x09 <= u <= 0x0D
    ||| u == 0x20
    ||| u == 0x85
    ||| u == 0xA0
    ||| u == 0x1680
    ||| 0x2000 <= u <= 0x200A
    ||| u == 0x2028
    ||| u == 0x2029
    ||| u == 0x202F
    ||| u == 0x205F
    ||| u == 0x3000
}

/// `s` without its leading white space.
pub open spec fn trim_start(s: Seq<char>) -> Seq<char>
    decreases s.len(),
{
    if s.len() > 0 && is_whitespace(s[0]) {
        trim_start(s.drop_first())
    } else {
        s
    }
}

/// `s` without its trailing white space.
pub open spec fn trim_end(s: Seq<char>) -> Seq<char>
    decreases s.len(),
{
    if s.len() > 0 && is_whitespace(s.last()) {
        trim_end(s.drop_last())
    } else {
        s
    }
}

/// `s` without the white space that surrounds it.
pub open spec fn trimmed(s: Seq<char>) -> Seq<char> {
    trim_end(trim_start(s))
}

/// The byte of a line feed.
pub const LINE_FEED: u8 = 0x0A;

/// Index of the first line feed in `bytes`, or `bytes.len()` when they hold
/// none.
pub open spec fn line_feed_index(bytes: Seq<u8>) -> int
    decreases bytes.len(),
{
    if bytes.len() == 0 || bytes[0] == LINE_FEED {
        0
    } else {
        1 + line_feed_index(bytes.drop_first())
    }
}

/// Whether `s` begins with `prefix`.
pub open spec fn has_prefix(s: Seq<char>, prefix: Seq<char>) -> bool {
    prefix.len() <= s.len() && s.subrange(0, prefix.len() as int) == prefix
}

/// What `String::from_utf8_lossy` makes of a byte sequence that is not
/// valid UTF-8: the text in which each invalid sequence is replaced by
/// U+FFFD.
pub uninterp spec fn utf8_lossy(bytes: Seq<u8>) -> Seq<char>;

/// The text that a chunk of bytes stands for. Valid UTF-8 decodes to its
/// characters; anything else is decoded permissively.
pub open spec fn decoded_text(bytes: Seq<u8>) -> Seq<char> {
    if valid_utf8(bytes) {
        decode_utf8(bytes)
    } else {
        utf8_lossy(bytes)
    }
}

/// Leading white space ends at the first character that is none.
pub proof fn lemma_trim_start(s: Seq<char>, k: int)
    requires
        0 <= k <= s.len(),
        forall|j: int| 0 <= j < k ==> is_whitespace(#[trigger] s[j]),
        k < s.len() ==> !is_whitespace(s[k]),
    ensures
        trim_start(s) == s.skip(k),
    decreases k,
{
    if k == 0 {
        assert(s.skip(0) =~= s);
    } else {
        let t = s.drop_first();
        assert forall|j: int| 0 <= j < k - 1 implies is_whitespace(#[trigger] t[j]) by {
            assert(t[j] == s[j + 1]);
        }
        lemma_trim_start(t, k - 1);
        assert(t.skip(k - 1) =~= s.skip(k));
    }
}

/// Trailing white space begins after the last character that is none.
pub proof fn lemma_trim_end(s: Seq<char>, e: int)
    requires
        0 <= e <= s.len(),
        forall|j: int| e <= j < s.len() ==> is_whitespace(#[trigger] s[j]),
        0 < e ==> !is_whitespace(s[e - 1]),
    ensures
        trim_end(s) == s.take(e),
    decreases s.len() - e,
{
    if e == s.len() {
        assert(s.take(e) =~= s);
    } else {
        let t = s.drop_last();
        lemma_trim_end(t, e);
        assert(t.take(e) =~= s.take(e));
    }
}

/// Trimming keeps the stretch between the first and the last character that
/// is no white space.
pub proof fn lemma_trimmed_range(s: Seq<char>, start: int, end: int)
    requires
        0 <= start < end <= s.len(),
        forall|j: int| 0 <= j < start ==> is_whitespace(#[trigger] s[j]),
        !is_whitespace(s[start]),
        !is_whitespace(s[end - 1]),
        forall|j: int| end <= j < s.len() ==> is_whitespace(#[trigger] s[j]),
    ensures
        trimmed(s) == s.subrange(start, end),
{
    lemma_trim_start(s, start);
    let t = s.skip(start);
    assert forall|j: int| end - start <= j < t.len() implies is_whitespace(#[trigger] t[j]) by {
        assert(t[j] == s[j + start]);
    }
    assert(t[end - start - 1] == s[end - 1]);
    lemma_trim_end(t, end - start);
    assert(t.take(end - start) =~= s.subrange(start, end));
}

/// Text that is white space throughout trims to nothing.
pub proof fn lemma_trimmed_blank(s: Seq<char>)
    requires
        forall|j: int| 0 <= j < s.len() ==> is_whitespace(#[trigger] s[j]),
    ensures
        trimmed(s) == Seq::<char>::empty(),
{
    lemma_trim_start(s, s.len() as int);
    assert(s.skip(s.len() as int) =~= Seq::<char>::empty());
}

/// Index of the first line feed in a text, or its length when it holds
/// none.
pub open spec fn newline_index(text: Seq<char>) -> int
    decreases text.len(),
{
    if text.len() == 0 || text[0] == '\n' {
        0
    } else {
        1 + newline_index(text.drop_first())
    }
}

/// The first line feed of a text lies within it or at its end, no line feed
/// stands before it, and where it lies within the text a line feed stands
/// there.
pub proof fn lemma_newline_index(text: Seq<char>)
    ensures
        0 <= newline_index(text) <= text.len(),
        forall|j: int| 0 <= j < newline_index(text) ==> text[j] != '\n',
        newline_index(text) < text.len() ==> text[newline_index(text)] == '\n',
    decreases text.len(),
{
    if text.len() == 0 || text[0] == '\n' {
    } else {
        let t = text.drop_first();
        lemma_newline_index(t);
        assert forall|j: int| 0 <= j < newline_index(text) implies text[j] != '\n' by {
            if j > 0 {
                assert(text[j] == t[j - 1]);
            }
        }
        if newline_index(text) < text.len() {
            assert(text[newline_index(text)] == t[newline_index(t)]);
        }
    }
}

/// The UTF-8 form of a text that is made of two parts is the form of the
/// first followed by the form of the second.
pub proof fn lemma_encode_concat(a: Seq<char>, b: Seq<char>)
    ensures
        encode_utf8(a + b) == encode_utf8(a) + encode_utf8(b),
    decreases a.len(),
{
    if a.len() == 0 {
        assert(a + b =~= b);
        assert(encode_utf8(a) + encode_utf8(b) =~= encode_utf8(b));
    } else {
        lemma_encode_concat(a.drop_first(), b);
        assert((a + b).drop_first() =~= a.drop_first() + b);
        assert((a + b)[0] == a[0]);
        assert(encode_utf8(a + b) =~= encode_scalar(a[0] as u32) + (encode_utf8(a.drop_first())
            + encode_utf8(b)));
        assert(encode_utf8(a + b) =~= encode_utf8(a) + encode_utf8(b));
    }
}

/// The byte of a line feed stands for the line feed and for nothing else:
/// the UTF-8 form of a line feed is that byte, and the form of no other
/// character holds it.
pub proof fn lemma_encode_line_feed(c: char)
    ensures
        c == '\n' ==> encode_scalar(c as u32) == seq![LINE_FEED],
        c != '\n' ==> forall|j: int|
            0 <= j < encode_scalar(c as u32).len() ==> #[trigger] encode_scalar(c as u32)[j]
                != LINE_FEED,
{
    let v = c as u32;
    assert(v <= 0x7F ==> ((v & 0x7F) as u8 == 0x0Au8 <==> v == 0x0A)) by (bit_vector);
    assert((0xC0u8 | ((v >> 6) & 0x1F) as u8) != 0x0Au8) by (bit_vector);
    assert((0xE0u8 | ((v >> 12) & 0x0F) as u8) != 0x0Au8) by (bit_vector);
    assert((0xF0u8 | ((v >> 18) & 0x7) as u8) != 0x0Au8) by (bit_vector);
    assert((0x80u8 | (v & 0x3F) as u8) != 0x0Au8) by (bit_vector);
    assert((0x80u8 | ((v >> 6) & 0x3F) as u8) != 0x0Au8) by (bit_vector);
    assert((0x80u8 | ((v >> 12) & 0x3F) as u8) != 0x0Au8) by (bit_vector);
    if c == '\n' {
        assert(v == 0x0A);
        assert(encode_scalar(v) =~= seq![LINE_FEED]);
    }
}

/// The UTF-8 form of a text without a line feed holds no byte of a line
/// feed.
pub proof fn lemma_encode_without_line_feed(text: Seq<char>)
    requires
        forall|j: int| 0 <= j < text.len() ==> text[j] != '\n',
    ensures
        forall|k: int| 0 <= k < encode_utf8(text).len() ==> encode_utf8(text)[k] != LINE_FEED,
    decreases text.len(),
{
    if text.len() > 0 {
        let rest = text.drop_first();
        assert forall|j: int| 0 <= j < rest.len() implies rest[j] != '\n' by {
            assert(rest[j] == text[j + 1]);
        }
        lemma_encode_without_line_feed(rest);
        lemma_encode_line_feed(text[0]);
        let head = encode_scalar(text[0] as u32);
        assert forall|k: int| 0 <= k < encode_utf8(text).len() implies encode_utf8(text)[k]
            != LINE_FEED by {
            if k < head.len() {
                assert(encode_utf8(text)[k] == head[k]);
            } else {
                assert(encode_utf8(text)[k] == encode_utf8(rest)[k - head.len()]);
            }
        }
    }
}

/// The first line feed lies within the bytes or at their end, no line feed
/// stands before it, and where it lies within the bytes a line feed stands
/// there.
pub proof fn lemma_line_feed_index(bytes: Seq<u8>)
    ensures
        0 <= line_feed_index(bytes) <= bytes.len(),
        forall|j: int| 0 <= j < line_feed_index(bytes) ==> bytes[j] != LINE_FEED,
        line_feed_index(bytes) < bytes.len() ==> bytes[line_feed_index(bytes)] == LINE_FEED,
    decreases bytes.len(),
{
    if bytes.len() == 0 || bytes[0] == LINE_FEED {
    } else {
        let t = bytes.drop_first();
        lemma_line_feed_index(t);
        assert forall|j: int| 0 <= j < line_feed_index(bytes) implies bytes[j] != LINE_FEED by {
            if j > 0 {
                assert(bytes[j] == t[j - 1]);
            }
        }
        if line_feed_index(bytes) < bytes.len() {
            assert(bytes[line_feed_index(bytes)] == t[line_feed_index(t)]);
        }
    }
}

/// The first line feed is where a line feed stands with none before it.
pub proof fn lemma_line_feed_index_is(bytes: Seq<u8>, i: int)
    requires
        0 <= i <= bytes.len(),
        forall|j: int| 0 <= j < i ==> bytes[j] != LINE_FEED,
        i < bytes.len() ==> bytes[i] == LINE_FEED,
    ensures
        line_feed_index(bytes) == i,
{
    lemma_line_feed_index(bytes);
}

/// Whether `c` is white space.
pub fn is_whitespace_char(c: char) -> (out: bool)
    ensures
        out == is_whitespace(c),
{
    let u: u32 = c as u32;
    (0x09 <= u && u <= 0x0D) || u == 0x20 || u == 0x85 || u == 0xA0 || u == 0x1680 || (0x2000 <= u
        && u <= 0x200A) || u == 0x2028 || u == 0x2029 || u == 0x202F || u == 0x205F || u == 0x3000
}

/// The position of the first line feed among `bytes`, if they hold one.
pub fn find_line_feed(bytes: &[u8]) -> (out: Option<usize>)
    ensures
        match out {
            Some(i) => i == line_feed_index(bytes@) && i < bytes@.len(),
            None => line_feed_index(bytes@) == bytes@.len(),
        },
{
    let mut i: usize = 0;
    while i < bytes.len()
        invariant
            i <= bytes@.len(),
            forall|j: int| 0 <= j < i ==> bytes@[j] != LINE_FEED,
        decreases bytes@.len() - i,
    {
        if bytes[i] == LINE_FEED {
            proof {
                lemma_line_feed_index_is(bytes@, i as int);
            }
            return Some(i);
        }
        i = i + 1;
    }
    proof {
        lemma_line_feed_index_is(bytes@, i as int);
    }
    None
}

/// `s` without the white space that surrounds it.
pub fn trim(s: &str) -> (out: &str)
    ensures
        out@ == trimmed(s@),
{
    let n = s.unicode_len();
    let mut it = s.chars();
    let mut i: usize = 0;
    let mut start: usize = 0;
    let mut end: usize = 0;
    while i < n
        invariant
            n == s@.len(),
            i <= n,
            it.remaining() == s@.skip(i as int),
            end == 0 ==> start == 0,
            end == 0 ==> forall|j: int| 0 <= j < i ==> is_whitespace(#[trigger] s@[j]),
            end > 0 ==> {
                &&& start < end <= i
                &&& forall|j: int| 0 <= j < start ==> is_whitespace(#[trigger] s@[j])
                &&& !is_whitespace(s@[start as int])
                &&& !is_whitespace(s@[end - 1])
                &&& forall|j: int| end <= j < i ==> is_whitespace(#[trigger] s@[j])
            },
        decreases n - i,
    {
        let c = it.next();
        match c {
            Some(ch) => {
                if !is_whitespace_char(ch) {
                    if end == 0 {
                        start = i;
                    }
                    end = i + 1;
                }
            },
            None => {},
        }
        i = i + 1;
    }
    proof {
        if end == 0 {
            lemma_trimmed_blank(s@);
            assert(s@.subrange(0, 0) =~= Seq::<char>::empty());
        } else {
            lemma_trimmed_range(s@, start as int, end as int);
        }
    }
    s.substring_char(start, end)
}

/// What follows `prefix` in `s`, if `s` begins with it.
pub fn strip_prefix<'a>(s: &'a str, prefix: &str) -> (out: Option<&'a str>)
    ensures
        match out {
            Some(rest) => has_prefix(s@, prefix@) && rest@ == s@.skip(prefix@.len() as int),
            None => !has_prefix(s@, prefix@),
        },
{
    let n = s.unicode_len();
    let m = prefix.unicode_len();
    if m > n {
        return None;
    }
    let mut a = s.chars();
    let mut b = prefix.chars();
    let mut i: usize = 0;
    while i < m
        invariant
            n == s@.len(),
            m == prefix@.len(),
            i <= m <= n,
            a.remaining() == s@.skip(i as int),
            b.remaining() == prefix@.skip(i as int),
            forall|j: int| 0 <= j < i ==> s@[j] == prefix@[j],
        decreases m - i,
    {
        let x = a.next();
        let y = b.next();
        match (x, y) {
            (Some(p), Some(q)) => {
                if p != q {
                    assert(s@.subrange(0, m as int)[i as int] != prefix@[i as int]);
                    return None;
                }
            },
            _ => {},
        }
        i = i + 1;
    }
    assert(s@.subrange(0, m as int) =~= prefix@);
    assert(s@.subrange(m as int, n as int) =~= s@.skip(m as int));
    Some(s.substring_char(m, n))
}

/// Whether two texts hold the same characters.
pub fn text_eq(a: &str, b: &str) -> (out: bool)
    ensures
        out == (a@ == b@),
{
    let n = a.unicode_len();
    let m = b.unicode_len();
    if m != n {
        return false;
    }
    match strip_prefix(a, b) {
        Some(_) => {
            assert(a@.subrange(0, n as int) =~= a@);
            true
        },
        None => {
            assert(a@.subrange(0, n as int) =~= a@);
            false
        },
    }
}

/// Decodes a chunk of bytes permissively, as `String::from_utf8_lossy` does:
/// valid UTF-8 gives its characters, and each invalid sequence is replaced
/// by U+FFFD. The contract rests on that function's documentation.
#[verifier::external_body]
pub(crate) fn decode_lossy(bytes: &[u8]) -> (out: String)
    ensures
        valid_utf8(bytes@) ==> out@ == decode_utf8(bytes@),
        !valid_utf8(bytes@) ==> out@ == utf8_lossy(bytes@),
        out@ == decoded_text(bytes@),
{
    String::from_utf8_lossy(bytes).into_owned()
}

/// The `Debug` form of a string, as the standard library's `Debug` for
/// `str` gives it: the text between double quotes, with the characters
/// escaped that Rust escapes.
pub uninterp spec fn quoted(text: Seq<char>) -> Seq<char>;

/// The `Debug` form of an optional string.
pub open spec fn debug_form(value: Option<Seq<char>>) -> Seq<char> {
    match value {
        Some(text) => "Some("@ + quoted(text) + ")"@,
        None => "None"@,
    }
}

/// The character of a decimal digit.
pub open spec fn digit_char(d: nat) -> char
    recommends
        d < 10,
{
    (48 + d) as u8 as char
}

/// The decimal digits of a natural number, without leading zeros.
pub open spec fn decimal_digits(n: nat) -> Seq<char>
    decreases n,
{
    if n < 10 {
        seq![digit_char(n)]
    } else {
        decimal_digits(n / 10).push(digit_char(n % 10))
    }
}

/// The decimal text of an integer: its digits, after a minus sign where it
/// is negative.
pub open spec fn decimal(n: int) -> Seq<char> {
    if n < 0 {
        seq!['-'] + decimal_digits((-n) as nat)
    } else {
        decimal_digits(n as nat)
    }
}

/// The `Debug` form of an optional integer.
pub open spec fn debug_form_i32(value: Option<i32>) -> Seq<char> {
    match value {
        Some(n) => "Some("@ + decimal(n as int) + ")"@,
        None => "None"@,
    }
}

/// Formats a string with `{:?}`, through `format!`: the `Debug` form that
/// the standard library gives a `str`.
#[verifier::external_body]
pub(crate) fn quote_text(text: &str) -> (out: String)
    ensures
        out@ == quoted(text@),
{
    format!("{:?}", text)
}

/// The `Debug` form of an optional string.
pub fn debug_text(value: &Option<String>) -> (out: String)
    ensures
        out@ == debug_form(value.deep_view()),
{
    match value {
        Some(text) => String::from_str("Some(").concat(quote_text(text.as_str()).as_str()).concat(
            ")",
        ),
        None => String::from_str("None"),
    }
}

/// The text of a decimal digit.
fn digit_text(d: u32) -> (out: &'static str)
    requires
        d < 10,
    ensures
        out@ == seq![digit_char(d as nat)],
{
    proof {
        reveal_strlit("0");
        reveal_strlit("1");
        reveal_strlit("2");
        reveal_strlit("3");
        reveal_strlit("4");
        reveal_strlit("5");
        reveal_strlit("6");
        reveal_strlit("7");
        reveal_strlit("8");
        reveal_strlit("9");
    }
    let out = if d == 0 {
        "0"
    } else if d == 1 {
        "1"
    } else if d == 2 {
        "2"
    } else if d == 3 {
        "3"
    } else if d == 4 {
        "4"
    } else if d == 5 {
        "5"
    } else if d == 6 {
        "6"
    } else if d == 7 {
        "7"
    } else if d == 8 {
        "8"
    } else {
        "9"
    };
    assert(out@ =~= seq![digit_char(d as nat)]);
    out
}

/// The decimal digits of a natural number.
fn digits_text(n: u32) -> (out: String)
    ensures
        out@ == decimal_digits(n as nat),
    decreases n,
{
    if n < 10 {
        String::from_str(digit_text(n))
    } else {
        let out = digits_text(n / 10).concat(digit_text(n % 10));
        assert(out@ =~= decimal_digits((n / 10) as nat).push(digit_char((n % 10) as nat)));
        out
    }
}

/// The decimal text of an integer.
pub fn decimal_text(n: i32) -> (out: String)
    ensures
        out@ == decimal(n as int),
{
    if n < 0 {
        let magnitude: u32 = if n == -2147483648 {
            2147483648
        } else {
            (-n) as u32
        };
        let out = String::from_str("-").concat(digits_text(magnitude).as_str());
        proof {
            reveal_strlit("-");
            assert("-"@ =~= seq!['-']);
        }
        out
    } else {
        digits_text(n as u32)
    }
}

/// The `Debug` form of an optional integer.
pub fn debug_text_i32(value: &Option<i32>) -> (out: String)
    ensures
        out@ == debug_form_i32(*value),
{
    match value {
        Some(n) => String::from_str("Some(").concat(decimal_text(*n).as_str()).concat(")"),
        None => String::from_str("None"),
    }
}

} // verus!
