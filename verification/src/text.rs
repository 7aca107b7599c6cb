//! Text building blocks: decimal and hexadecimal rendering, joining, and the
//! decoding of zero-terminated MAVLink character fields.
use vstd::prelude::*;

verus! {

/// The character that stands for digit `d` (0..=15), upper-case for 10..=15.
pub open spec fn digit_char(d: int) -> char {
    if d == 0 { '0' }
    else if d == 1 { '1' }
    else if d == 2 { '2' }
    else if d == 3 { '3' }
    else if d == 4 { '4' }
    else if d == 5 { '5' }
    else if d == 6 { '6' }
    else if d == 7 { '7' }
    else if d == 8 { '8' }
    else if d == 9 { '9' }
    else if d == 10 { 'A' }
    else if d == 11 { 'B' }
    else if d == 12 { 'C' }
    else if d == 13 { 'D' }
    else if d == 14 { 'E' }
    else { 'F' }
}

/// The digits of `n` in base `radix`, most significant first, without
/// leading zeros ("0" for zero).
pub open spec fn radix_text(n: nat, radix: nat) -> Seq<char>
    recommends
        2 <= radix <= 16,
    decreases n,
{
    if radix < 2 || n < radix {
        seq![digit_char(n as int)]
    } else {
        proof {
            vstd::arithmetic::div_mod::lemma_div_decreases(n as int, radix as int);
        }
        radix_text(n / radix, radix).push(digit_char((n % radix) as int))
    }
}

/// What `format!("{}", n)` prints for an unsigned integer.
pub open spec fn decimal_text(n: nat) -> Seq<char> {
    radix_text(n, 10)
}

/// What `format!("{:X}", n)` prints for an unsigned integer.
pub open spec fn hex_text(n: nat) -> Seq<char> {
    radix_text(n, 16)
}

fn digit_str(d: u64) -> (s: &'static str)
    requires
        d < 16,
    ensures
        s@ == seq![digit_char(d as int)],
{
    proof {
        reveal_strlit("0");
        reveal_strlit("1");
        reveal_strlit("2");
        reveal_strlit("3");
        reveal_strlit("4");
        reveal_strlit("5");
        reveal_strlit("6");
        reveal_strlit("7");
        reveal_strlit("8");
        reveal_strlit("9");
        reveal_strlit("A");
        reveal_strlit("B");
        reveal_strlit("C");
        reveal_strlit("D");
        reveal_strlit("E");
        reveal_strlit("F");
    }
    if d == 0 { "0" }
    else if d == 1 { "1" }
    else if d == 2 { "2" }
    else if d == 3 { "3" }
    else if d == 4 { "4" }
    else if d == 5 { "5" }
    else if d == 6 { "6" }
    else if d == 7 { "7" }
    else if d == 8 { "8" }
    else if d == 9 { "9" }
    else if d == 10 { "A" }
    else if d == 11 { "B" }
    else if d == 12 { "C" }
    else if d == 13 { "D" }
    else if d == 14 { "E" }
    else { "F" }
}

fn radix_string(n: u64, radix: u64) -> (s: String)
    requires
        2 <= radix <= 16,
    ensures
        s@ == radix_text(n as nat, radix as nat),
    decreases n,
{
    if n < radix {
        String::from_str(digit_str(n))
    } else {
        proof {
            vstd::arithmetic::div_mod::lemma_div_decreases(n as int, radix as int);
        }
        let mut s = radix_string(n / radix, radix);
        s.append(digit_str(n % radix));
        s
    }
}

/// Renders `n` in decimal, as `n.to_string()` does.
pub fn decimal_string(n: u64) -> (s: String)
    ensures
        s@ == decimal_text(n as nat),
{
    radix_string(n, 10)
}

/// Renders `n` in upper-case hexadecimal without prefix, as `format!("{:X}", n)` does.
pub fn hex_string(n: u64) -> (s: String)
    ensures
        s@ == hex_text(n as nat),
{
    radix_string(n, 16)
}

/// `sep`-separated concatenation of `parts`, as `[..].join(sep)` builds it.
pub open spec fn joined(parts: Seq<Seq<char>>, sep: Seq<char>) -> Seq<char>
    decreases parts.len(),
{
    if parts.len() == 0 {
        Seq::empty()
    } else if parts.len() == 1 {
        parts[0]
    } else {
        joined(parts.drop_last(), sep) + sep + parts.last()
    }
}

/// Joins string slices with a separator.
pub fn join_strs(parts: &Vec<&str>, sep: &str) -> (s: String)
    ensures
        s@ == joined(parts@.map_values(|p: &str| p@), sep@),
{
    let ghost views = parts@.map_values(|p: &str| p@);
    let mut s = String::new();
    let mut i: usize = 0;
    while i < parts.len()
        invariant
            i <= parts.len(),
            views == parts@.map_values(|p: &str| p@),
            s@ == joined(views.take(i as int), sep@),
        decreases parts.len() - i,
    {
        assert(views.take(i + 1).drop_last() =~= views.take(i as int));
        if i != 0 {
            s.append(sep);
        }
        s.append(parts[i]);
        i = i + 1;
    }
    assert(views.take(parts.len() as int) =~= views);
    s
}

/// Unicode `White_Space` characters, the ones `str::trim` removes.
pub open spec fn is_white_space(c: char) -> bool {
    ||| ('\u{9}' <= c && c <= '\u{d}')
    ||| c == ' '
    ||| c == '\u{85}'
    ||| c == '\u{a0}'
    ||| c == '\u{1680}'
    ||| ('\u{2000}' <= c && c <= '\u{200a}')
    ||| c == '\u{2028}'
    ||| c == '\u{2029}'
    ||| c == '\u{202f}'
    ||| c == '\u{205f}'
    ||| c == '\u{3000}'
}

/// `s` without its leading white space.
pub open spec fn trim_start_text(s: Seq<char>) -> Seq<char>
    decreases s.len(),
{
    if s.len() > 0 && is_white_space(s[0]) {
        trim_start_text(s.drop_first())
    } else {
        s
    }
}

/// `s` without its trailing white space.
pub open spec fn trim_end_text(s: Seq<char>) -> Seq<char>
    decreases s.len(),
{
    if s.len() > 0 && is_white_space(s.last()) {
        trim_end_text(s.drop_last())
    } else {
        s
    }
}

/// `s` without leading and trailing white space, as `str::trim` returns it.
pub open spec fn trimmed_text(s: Seq<char>) -> Seq<char> {
    trim_end_text(trim_start_text(s))
}

/// What `String::from_utf8_lossy` makes of a byte sequence.
pub uninterp spec fn utf8_lossy_text(bytes: Seq<u8>) -> Seq<char>;

/// Decodes bytes as UTF-8 with `String::from_utf8_lossy`, which replaces
/// invalid sequences with U+FFFD and decodes valid UTF-8 unchanged; the
/// contract names the result and states the valid case.
#[verifier::external_body]
fn decode_utf8_lossy(bytes: &[u8]) -> (s: String)
    ensures
        s@ == utf8_lossy_text(bytes@),
        vstd::utf8::valid_utf8(bytes@) ==> s@ == vstd::utf8::decode_utf8(bytes@),
{
    String::from_utf8_lossy(bytes).into_owned()
}

/// Removes leading and trailing Unicode white space with `str::trim`.
#[verifier::external_body]
fn trim_white_space(s: &str) -> (t: String)
    ensures
        t@ == trimmed_text(s@),
{
    s.trim().to_string()
}

/// `k` is where a zero-terminated field ends: the first zero byte, or the
/// length when there is none.
pub open spec fn is_terminator(bytes: Seq<u8>, k: int) -> bool {
    &&& 0 <= k <= bytes.len()
    &&& k < bytes.len() ==> bytes[k] == 0
    &&& forall|i: int| 0 <= i < k ==> bytes[i] != 0
}

/// The length of the text held in a zero-terminated field.
pub open spec fn terminated_len(bytes: Seq<u8>) -> int {
    choose|k: int| is_terminator(bytes, k)
}

/// The text of a zero-terminated MAVLink character field: the bytes before
/// the first zero, decoded leniently, with surrounding white space removed.
pub open spec fn zero_terminated_text(bytes: Seq<u8>) -> Seq<char> {
    trimmed_text(utf8_lossy_text(bytes.take(terminated_len(bytes))))
}

proof fn lemma_terminator_unique(bytes: Seq<u8>, k: int)
    requires
        is_terminator(bytes, k),
    ensures
        terminated_len(bytes) == k,
{
    let j = terminated_len(bytes);
    assert(is_terminator(bytes, j));
    if j < k {
        assert(bytes[j] != 0);
    } else if k < j {
        assert(bytes[k] != 0);
    }
}

proof fn lemma_terminator_exists(bytes: Seq<u8>)
    ensures
        exists|k: int| is_terminator(bytes, k),
    decreases bytes.len(),
{
    if bytes.len() == 0 {
        assert(is_terminator(bytes, 0));
    } else {
        let front = bytes.drop_last();
        lemma_terminator_exists(front);
        let k = choose|k: int| is_terminator(front, k);
        assert forall|i: int| 0 <= i < front.len() implies bytes[i] == front[i] by {}
        assert forall|i: int| 0 <= i < k implies bytes[i] != 0 by {
            assert(bytes[i] == front[i]);
        }
        if k < front.len() {
            assert(bytes[k] == front[k]);
            assert(is_terminator(bytes, k));
        } else if bytes.last() == 0 {
            assert(is_terminator(bytes, front.len() as int));
        } else {
            assert(is_terminator(bytes, bytes.len() as int));
        }
    }
}

/// What follows the first zero byte of a character field is ignored: a
/// field of `head`, a zero byte and then `tail` reads as `head` and a zero
/// byte do, whatever `tail` holds.
pub proof fn lemma_text_ends_at_first_zero(head: Seq<u8>, tail: Seq<u8>)
    ensures
        zero_terminated_text(head.push(0) + tail) == zero_terminated_text(head.push(0)),
{
    let short = head.push(0);
    let long = short + tail;
    lemma_terminator_exists(short);
    let k = terminated_len(short);
    assert(k < short.len()) by {
        if k == short.len() {
            assert(short[head.len() as int] == 0);
        }
    }
    assert forall|i: int| 0 <= i < k implies long[i] != 0 by {}
    lemma_terminator_unique(long, k);
    assert(long.take(k) =~= short.take(k));
}

/// Reads a zero-terminated character field (MAVLink `char[N]`) as text.
pub fn trim_zero_terminated(bytes: &[u8]) -> (s: String)
    ensures
        s@ == zero_terminated_text(bytes@),
        vstd::utf8::valid_utf8(bytes@.take(terminated_len(bytes@))) ==> s@ == trimmed_text(
            vstd::utf8::decode_utf8(bytes@.take(terminated_len(bytes@))),
        ),
{
    let mut end: usize = 0;
    while end < bytes.len() && bytes[end] != 0
        invariant
            end <= bytes@.len(),
            forall|i: int| 0 <= i < end ==> bytes@[i] != 0,
        decreases bytes.len() - end,
    {
        end = end + 1;
    }
    proof {
        lemma_terminator_unique(bytes@, end as int);
    }
    let head = slice_prefix(bytes, end);
    let decoded = decode_utf8_lossy(head);
    trim_white_space(decoded.as_str())
}

fn slice_prefix(bytes: &[u8], end: usize) -> (head: &[u8])
    requires
        end <= bytes@.len(),
    ensures
        head@ == bytes@.take(end as int),
{
    vstd::slice::slice_subrange(bytes, 0, end)
}

} // verus!
