//! Encoding of one script line into an 8-byte HID keyboard report.
//!
//! A line holds whitespace-separated tokens; every token but the last
//! names a modifier, the last names the key. Byte 0 of the report is
//! the OR of the named modifier bits, byte 2 the key's code from a
//! fixed table. Unknown tokens and empty lines degrade to a no-op
//! (key-up) report rather than failing.

use vstd::prelude::*;
use crate::report::{KB_ALT, KB_CTRL, KB_GUI, KB_SHIFT};

verus! {

/// The whitespace that separates tokens on a script line.
pub open spec fn is_space_char(c: char) -> bool {
    c == ' ' || c == '\t' || c == '\r' || c == '\n'
}

/// The first position at or after `i` that does not hold whitespace,
/// or the end of the line.
pub open spec fn next_nonspace(s: Seq<char>, i: int) -> int
    decreases s.len() - i,
    when 0 <= i <= s.len()
{
    if i >= s.len() {
        i
    } else if is_space_char(s[i]) {
        next_nonspace(s, i + 1)
    } else {
        i
    }
}

/// The first position at or after `i` that holds whitespace, or the
/// end of the line: the end of a token that starts at `i`.
pub open spec fn token_end(s: Seq<char>, i: int) -> int
    decreases s.len() - i,
    when 0 <= i <= s.len()
{
    if i >= s.len() {
        i
    } else if !is_space_char(s[i]) {
        token_end(s, i + 1)
    } else {
        i
    }
}

proof fn lemma_next_nonspace_bounds(s: Seq<char>, i: int)
    requires
        0 <= i <= s.len(),
    ensures
        i <= next_nonspace(s, i) <= s.len(),
        next_nonspace(s, i) < s.len() ==> !is_space_char(s[next_nonspace(s, i)]),
        next_nonspace(s, next_nonspace(s, i)) == next_nonspace(s, i),
    decreases s.len() - i,
{
    if i < s.len() && is_space_char(s[i]) {
        lemma_next_nonspace_bounds(s, i + 1);
    }
}

proof fn lemma_token_end_bounds(s: Seq<char>, i: int)
    requires
        0 <= i <= s.len(),
    ensures
        i <= token_end(s, i) <= s.len(),
    decreases s.len() - i,
{
    if i < s.len() && !is_space_char(s[i]) {
        lemma_token_end_bounds(s, i + 1);
    }
}

/// The tokens of the line from position `i` on, in order. The guards
/// on the scan positions always hold (see the bounds lemmas above);
/// they are written out so that the recursion visibly advances.
pub open spec fn tokens_from(s: Seq<char>, i: int) -> Seq<Seq<char>>
    decreases s.len() - i,
    when 0 <= i <= s.len()
{
    let j = next_nonspace(s, i);
    if !(i <= j < s.len()) {
        Seq::empty()
    } else {
        let e = token_end(s, j);
        if j < e <= s.len() {
            seq![s.subrange(j, e)] + tokens_from(s, e)
        } else {
            Seq::empty()
        }
    }
}

/// The whitespace-separated tokens of a script line, in order.
pub open spec fn tokens_of(s: Seq<char>) -> Seq<Seq<char>> {
    tokens_from(s, 0)
}

/// The modifier bit a token names: `shift`, `ctrl`, `alt` and `gui`
/// are known; any other token contributes nothing.
pub open spec fn modifier_bit_of_token(t: Seq<char>) -> u8 {
    if t == "shift"@ {
        KB_SHIFT
    } else if t == "ctrl"@ {
        KB_CTRL
    } else if t == "alt"@ {
        KB_ALT
    } else if t == "gui"@ {
        KB_GUI
    } else {
        0u8
    }
}

/// The OR of the modifier bits the given tokens name.
pub open spec fn mods_of(toks: Seq<Seq<char>>) -> u8
    decreases toks.len(),
{
    if toks.len() == 0 {
        0u8
    } else {
        mods_of(toks.drop_last()) | modifier_bit_of_token(toks.last())
    }
}

/// The keycode of a single-character key token, from the fixed HID
/// usage table; unmapped characters encode 0, a key-up.
pub open spec fn keycode_of_char(c: char) -> u8 {
    if c == 'a' {
        4u8
    } else if c == 'b' {
        5u8
    } else if c == 'c' {
        6u8
    } else if c == 'd' {
        7u8
    } else if c == 'e' {
        8u8
    } else if c == 'f' {
        9u8
    } else if c == 'g' {
        10u8
    } else if c == 'h' {
        11u8
    } else if c == 'i' {
        12u8
    } else if c == 'j' {
        13u8
    } else if c == 'k' {
        14u8
    } else if c == 'l' {
        15u8
    } else if c == 'm' {
        16u8
    } else if c == 'n' {
        17u8
    } else if c == 'o' {
        18u8
    } else if c == 'p' {
        19u8
    } else if c == 'q' {
        20u8
    } else if c == 'r' {
        21u8
    } else if c == 's' {
        22u8
    } else if c == 't' {
        23u8
    } else if c == 'u' {
        24u8
    } else if c == 'v' {
        25u8
    } else if c == 'w' {
        26u8
    } else if c == 'x' {
        27u8
    } else if c == 'y' {
        28u8
    } else if c == 'z' {
        29u8
    } else if c == '1' {
        30u8
    } else if c == '2' {
        31u8
    } else if c == '3' {
        32u8
    } else if c == '4' {
        33u8
    } else if c == '5' {
        34u8
    } else if c == '6' {
        35u8
    } else if c == '7' {
        36u8
    } else if c == '8' {
        37u8
    } else if c == '9' {
        38u8
    } else if c == '0' {
        39u8
    } else if c == '\n' {
        40u8
    } else if c == '\t' {
        43u8
    } else if c == ' ' {
        44u8
    } else if c == '-' {
        45u8
    } else if c == '=' {
        46u8
    } else if c == '[' {
        47u8
    } else if c == ']' {
        48u8
    } else if c == '\\' {
        49u8
    } else if c == ';' {
        51u8
    } else if c == '\'' {
        52u8
    } else if c == '`' {
        53u8
    } else if c == ',' {
        54u8
    } else if c == '.' {
        55u8
    } else if c == '/' {
        56u8
    } else {
        0u8
    }
}

/// The keycode a key token encodes: the named keys, or the code of a
/// single character; anything else encodes 0, a key-up.
pub open spec fn keycode_of_token(t: Seq<char>) -> u8 {
    if t == "enter"@ {
        40u8
    } else if t == "tab"@ {
        43u8
    } else if t == "meta"@ {
        231u8
    } else if t == "release"@ {
        0u8
    } else if t == "space"@ {
        44u8
    } else if t.len() == 1 {
        keycode_of_char(t[0])
    } else {
        0u8
    }
}

/// The 8-byte report a script line encodes: byte 0 is the OR of the
/// modifier bits named by all tokens but the last, byte 2 the keycode
/// of the last token, every other byte 0. An empty line encodes the
/// all-zero key-up report.
pub open spec fn encode_line_spec(s: Seq<char>) -> Seq<u8> {
    let toks = tokens_of(s);
    if toks.len() == 0 {
        seq![0u8, 0u8, 0u8, 0u8, 0u8, 0u8, 0u8, 0u8]
    } else {
        seq![
            mods_of(toks.drop_last()),
            0u8,
            keycode_of_token(toks.last()),
            0u8,
            0u8,
            0u8,
            0u8,
            0u8,
        ]
    }
}

/// Whether this character separates tokens.
fn is_space(c: char) -> (b: bool)
    ensures
        b == is_space_char(c),
{
    c == ' ' || c == '\t' || c == '\r' || c == '\n'
}

/// Scans forward from `i` to the first non-whitespace position.
#[verifier::loop_isolation(false)]
fn scan_nonspace(s: &str, i: usize) -> (j: usize)
    requires
        i <= s@.len(),
    ensures
        j == next_nonspace(s@, i as int),
        i <= j <= s@.len(),
{
    let n = s.unicode_len();
    let mut cur = i;
    while cur < n && is_space(s.get_char(cur))
        invariant
            i <= cur <= n,
            next_nonspace(s@, i as int) == next_nonspace(s@, cur as int),
        decreases n - cur,
    {
        cur = cur + 1;
    }
    cur
}

/// Scans forward from `i` to the end of the token that starts there.
#[verifier::loop_isolation(false)]
fn scan_token_end(s: &str, i: usize) -> (j: usize)
    requires
        i <= s@.len(),
    ensures
        j == token_end(s@, i as int),
        i <= j <= s@.len(),
{
    let n = s.unicode_len();
    let mut cur = i;
    while cur < n && !is_space(s.get_char(cur))
        invariant
            i <= cur <= n,
            token_end(s@, i as int) == token_end(s@, cur as int),
        decreases n - cur,
    {
        cur = cur + 1;
    }
    cur
}

/// Whether the characters of `s` between `start` and `end` are
/// exactly the characters of `lit`.
#[verifier::loop_isolation(false)]
fn span_matches(s: &str, start: usize, end: usize, lit: &str) -> (b: bool)
    requires
        start <= end <= s@.len(),
    ensures
        b == (s@.subrange(start as int, end as int) == lit@),
{
    let n = lit.unicode_len();
    if end - start != n {
        return false;
    }
    let mut k: usize = 0;
    while k < n
        invariant
            0 <= k <= n,
            forall|t: int| 0 <= t < k ==> s@[start + t] == lit@[t],
        decreases n - k,
    {
        if s.get_char(start + k) != lit.get_char(k) {
            assert(s@.subrange(start as int, end as int)[k as int] != lit@[k as int]);
            return false;
        }
        k = k + 1;
    }
    assert(s@.subrange(start as int, end as int) =~= lit@);
    true
}

/// The modifier bit named by the token between `start` and `end`.
fn modifier_bit_for_span(s: &str, start: usize, end: usize) -> (m: u8)
    requires
        start <= end <= s@.len(),
    ensures
        m == modifier_bit_of_token(s@.subrange(start as int, end as int)),
{
    if span_matches(s, start, end, "shift") {
        KB_SHIFT
    } else if span_matches(s, start, end, "ctrl") {
        KB_CTRL
    } else if span_matches(s, start, end, "alt") {
        KB_ALT
    } else if span_matches(s, start, end, "gui") {
        KB_GUI
    } else {
        0u8
    }
}

/// The keycode of a single-character token.
fn keycode_for_char(c: char) -> (k: u8)
    ensures
        k == keycode_of_char(c),
{
    match c {
        'a' => 4,
        'b' => 5,
        'c' => 6,
        'd' => 7,
        'e' => 8,
        'f' => 9,
        'g' => 10,
        'h' => 11,
        'i' => 12,
        'j' => 13,
        'k' => 14,
        'l' => 15,
        'm' => 16,
        'n' => 17,
        'o' => 18,
        'p' => 19,
        'q' => 20,
        'r' => 21,
        's' => 22,
        't' => 23,
        'u' => 24,
        'v' => 25,
        'w' => 26,
        'x' => 27,
        'y' => 28,
        'z' => 29,
        '1' => 30,
        '2' => 31,
        '3' => 32,
        '4' => 33,
        '5' => 34,
        '6' => 35,
        '7' => 36,
        '8' => 37,
        '9' => 38,
        '0' => 39,
        '\n' => 40,
        '\t' => 43,
        ' ' => 44,
        '-' => 45,
        '=' => 46,
        '[' => 47,
        ']' => 48,
        '\\' => 49,
        ';' => 51,
        '\'' => 52,
        '`' => 53,
        ',' => 54,
        '.' => 55,
        '/' => 56,
        _ => 0,
    }
}

/// The keycode named by the key token between `start` and `end`.
fn keycode_for_span(s: &str, start: usize, end: usize) -> (k: u8)
    requires
        start <= end <= s@.len(),
    ensures
        k == keycode_of_token(s@.subrange(start as int, end as int)),
{
    if span_matches(s, start, end, "enter") {
        40
    } else if span_matches(s, start, end, "tab") {
        43
    } else if span_matches(s, start, end, "meta") {
        231
    } else if span_matches(s, start, end, "release") {
        0
    } else if span_matches(s, start, end, "space") {
        44
    } else if end - start == 1 {
        assert(s@.subrange(start as int, end as int)[0] == s@[start as int]);
        keycode_for_char(s.get_char(start))
    } else {
        0
    }
}

/// The token each collected span delimits.
pub open spec fn spans_tokens(spans: Seq<(usize, usize)>, s: Seq<char>) -> Seq<Seq<char>> {
    spans.map(|k: int, sp: (usize, usize)| s.subrange(sp.0 as int, sp.1 as int))
}

/// Encodes one script line as an 8-byte HID keyboard report: the OR of
/// the modifier bits named by all tokens but the last in byte 0, the
/// keycode of the last token in byte 2. Total: unknown tokens and
/// empty lines yield the all-zero key-up report.
#[verifier::loop_isolation(false)]
pub fn str_to_keycode(s: &str) -> (r: [u8; 8])
    ensures
        r@ == encode_line_spec(s@),
{
    let n = s.unicode_len();
    let mut spans: Vec<(usize, usize)> = Vec::new();
    proof {
        lemma_next_nonspace_bounds(s@, 0);
    }
    let mut i = scan_nonspace(s, 0);
    while i < n
        invariant
            i <= n,
            i == next_nonspace(s@, i as int),
            forall|k: int|
                0 <= k < spans@.len() ==> (#[trigger] spans@[k]).0 <= spans@[k].1 <= n,
            tokens_of(s@) == spans_tokens(spans@, s@) + tokens_from(s@, i as int),
        decreases n - i,
    {
        let e = scan_token_end(s, i);
        proof {
            lemma_next_nonspace_bounds(s@, i as int);
            lemma_token_end_bounds(s@, i + 1);
            assert(e > i);
        }
        let ghost old_spans = spans@;
        spans.push((i, e));
        proof {
            lemma_next_nonspace_bounds(s@, e as int);
            assert(spans_tokens(spans@, s@) =~= spans_tokens(old_spans, s@) + seq![
                s@.subrange(i as int, e as int),
            ]);
            assert(tokens_from(s@, i as int) =~= seq![s@.subrange(i as int, e as int)]
                + tokens_from(s@, e as int));
            assert(tokens_of(s@) =~= spans_tokens(spans@, s@) + tokens_from(
                s@,
                next_nonspace(s@, e as int),
            ));
        }
        i = scan_nonspace(s, e);
    }
    proof {
        assert(tokens_from(s@, i as int) =~= Seq::<Seq<char>>::empty());
        assert(tokens_of(s@) =~= spans_tokens(spans@, s@));
    }
    let ghost toks = tokens_of(s@);
    let mut r = [0u8; 8];
    if spans.len() == 0 {
        assert(r@ =~= encode_line_spec(s@));
        return r;
    }
    let mut mods: u8 = 0;
    let mut k: usize = 0;
    while k < spans.len() - 1
        invariant
            0 <= k <= spans@.len() - 1,
            mods == mods_of(toks.take(k as int)),
        decreases spans@.len() - 1 - k,
    {
        let sp = spans[k];
        let bit = modifier_bit_for_span(s, sp.0, sp.1);
        proof {
            assert(toks.take(k + 1).drop_last() =~= toks.take(k as int));
            assert(toks.take(k + 1).last() == toks[k as int]);
        }
        mods = mods | bit;
        k = k + 1;
    }
    proof {
        assert(toks.take(toks.len() - 1) =~= toks.drop_last());
    }
    let sp = spans[spans.len() - 1];
    let key = keycode_for_span(s, sp.0, sp.1);
    r[0] = mods;
    r[2] = key;
    assert(r@ =~= encode_line_spec(s@));
    r
}

} // verus!
