//! The admin command that sets a guild's target channel:
//! `.setchanid <channel_id>`.

use crate::decision::EngineConfig;
use vstd::prelude::*;
use vstd::string::StrSliceExecFns;

verus! {

/// Whether `c` is white space by Unicode's `White_Space` property.
pub open spec fn is_ws(c: char) -> bool {
    ('\u{9}' <= c && c <= '\u{d}') || c == ' ' || c == '\u{85}' || c == '\u{a0}' || c
        == '\u{1680}' || ('\u{2000}' <= c && c <= '\u{200a}') || c == '\u{2028}' || c
        == '\u{2029}' || c == '\u{202f}' || c == '\u{205f}' || c == '\u{3000}'
}

/// The first position at or after `i` that holds no white space, or the end.
pub open spec fn skip_ws(s: Seq<char>, i: int) -> int
    decreases s.len() - i,
{
    if i < 0 || i >= s.len() {
        s.len() as int
    } else if is_ws(s[i]) {
        skip_ws(s, i + 1)
    } else {
        i
    }
}

/// The first position at or after `i` that holds white space, or the end.
pub open spec fn token_end(s: Seq<char>, i: int) -> int
    decreases s.len() - i,
{
    if i < 0 || i >= s.len() {
        s.len() as int
    } else if is_ws(s[i]) {
        i
    } else {
        token_end(s, i + 1)
    }
}

/// Whether `c` is an ASCII decimal digit.
pub open spec fn is_digit(c: char) -> bool {
    '0' <= c && c <= '9'
}

/// The value of a string of decimal digits.
pub open spec fn digits_value(d: Seq<char>) -> nat
    decreases d.len(),
{
    if d.len() == 0 {
        0
    } else {
        digits_value(d.drop_last()) * 10 + (d.last() as nat - '0' as nat) as nat
    }
}

/// The digits of `t`, after a leading `+` sign if `t` has one and more.
pub open spec fn unsigned_digits(t: Seq<char>) -> Seq<char> {
    if t.len() > 1 && t[0] == '+' {
        t.drop_first()
    } else {
        t
    }
}

/// The number that `t` writes in decimal, with an optional leading `+`, if
/// it writes one that fits in 64 bits.
pub open spec fn parse_decimal(t: Seq<char>) -> Option<u64> {
    let d = unsigned_digits(t);
    if d.len() > 0 && (forall|i: int| 0 <= i < d.len() ==> is_digit(#[trigger] d[i]))
        && digits_value(d) <= u64::MAX {
        Some(digits_value(d) as u64)
    } else {
        None
    }
}

/// The name of the command.
pub open spec fn command_word() -> Seq<char> {
    ".setchanid"@
}

/// The channel that message text `s` sets, if it is the command: after any
/// leading white space the text starts with the command's name, and its
/// second white-space separated word is a channel identifier.
pub open spec fn set_channel_command(s: Seq<char>) -> Option<u64> {
    let a = skip_ws(s, 0);
    let b = token_end(s, a);
    let c = skip_ws(s, b);
    let d = token_end(s, c);
    if a + command_word().len() <= s.len() && s.subrange(a, a + command_word().len())
        == command_word() && c < s.len() {
        parse_decimal(s.subrange(c, d))
    } else {
        None
    }
}

/// Whether `author` may set routes in a guild owned by `owner`.
pub open spec fn is_authorized(author: u64, owner: u64, admin: u64) -> bool {
    author == owner || author == admin
}

/// The channel a message in a guild sets as the guild's target: only a
/// person's message, from the guild's owner or the administrator, that is
/// the command with a valid identifier.
pub open spec fn command_target_spec(
    cfg: EngineConfig,
    author_is_bot: bool,
    author: u64,
    owner: u64,
    s: Seq<char>,
) -> Option<u64> {
    if author_is_bot || !is_authorized(author, owner, cfg.admin_id) {
        None
    } else {
        set_channel_command(s)
    }
}

proof fn lemma_digits_value_grows(d: Seq<char>, k: int)
    requires
        0 <= k <= d.len(),
        forall|i: int| 0 <= i < d.len() ==> is_digit(#[trigger] d[i]),
    ensures
        digits_value(d.take(k)) <= digits_value(d),
    decreases d.len() - k,
{
    if k < d.len() {
        lemma_digits_value_grows(d, k + 1);
        assert(d.take(k + 1).drop_last() == d.take(k));
    }
    assert(d.take(d.len() as int) == d);
}

fn skip_ws_from(s: &str, len: usize, i: usize) -> (r: usize)
    requires
        len == s@.len(),
        i <= len,
    ensures
        r == skip_ws(s@, i as int),
        i <= r <= len,
{
    let mut j = i;
    while j < len && is_ws_char(s.get_char(j))
        invariant
            i <= j <= len,
            len == s@.len(),
            skip_ws(s@, i as int) == skip_ws(s@, j as int),
        decreases len - j,
    {
        j = j + 1;
    }
    j
}

fn token_end_from(s: &str, len: usize, i: usize) -> (r: usize)
    requires
        len == s@.len(),
        i <= len,
    ensures
        r == token_end(s@, i as int),
        i <= r <= len,
{
    let mut j = i;
    while j < len && !is_ws_char(s.get_char(j))
        invariant
            i <= j <= len,
            len == s@.len(),
            token_end(s@, i as int) == token_end(s@, j as int),
        decreases len - j,
    {
        j = j + 1;
    }
    j
}

/// Whether `c` is white space, as `char::is_whitespace` decides.
pub fn is_ws_char(c: char) -> (r: bool)
    ensures
        r == is_ws(c),
{
    ('\u{9}' <= c && c <= '\u{d}') || c == ' ' || c == '\u{85}' || c == '\u{a0}' || c
        == '\u{1680}' || ('\u{2000}' <= c && c <= '\u{200a}') || c == '\u{2028}' || c
        == '\u{2029}' || c == '\u{202f}' || c == '\u{205f}' || c == '\u{3000}'
}

/// Reads the number written in decimal in `s` from `from` to `to`, as
/// `u64::from_str` does.
pub fn parse_u64_range(s: &str, from: usize, to: usize) -> (r: Option<u64>)
    requires
        from <= to <= s@.len(),
    ensures
        r == parse_decimal(s@.subrange(from as int, to as int)),
{
    let ghost t = s@.subrange(from as int, to as int);
    let mut start = from;
    if to - from > 1 && s.get_char(from) == '+' {
        start = from + 1;
    }
    let ghost d = s@.subrange(start as int, to as int);
    assert(d == unsigned_digits(t));
    if start == to {
        assert(d.len() == 0);
        return None;
    }
    let mut value: u64 = 0;
    let mut i = start;
    while i < to
        invariant
            from <= start <= i <= to <= s@.len(),
            d == s@.subrange(start as int, to as int),
            t == s@.subrange(from as int, to as int),
            d == unsigned_digits(t),
            forall|j: int| 0 <= j < i - start ==> is_digit(#[trigger] d[j]),
            value as nat == digits_value(d.take(i - start)),
        decreases to - i,
    {
        let c = s.get_char(i);
        assert(c == d[i - start]);
        if !('0' <= c && c <= '9') {
            assert(!is_digit(d[i - start]));
            return None;
        }
        let digit: u64 = (c as u32 - '0' as u32) as u64;
        assert(d.take(i + 1 - start).drop_last() == d.take(i - start));
        assert(d.take(i + 1 - start).last() == c);
        assert(digits_value(d.take(i + 1 - start)) == value * 10 + digit);
        if value > (u64::MAX - digit) / 10 {
            proof {
                assert(digits_value(d.take(i + 1 - start)) > u64::MAX) by (nonlinear_arith)
                    requires
                        value > (u64::MAX - digit) / 10,
                        digits_value(d.take(i + 1 - start)) == value * 10 + digit,
                        digit <= 9,
                ;
                if forall|j: int| 0 <= j < d.len() ==> is_digit(#[trigger] d[j]) {
                    lemma_digits_value_grows(d, i + 1 - start);
                    assert(digits_value(d) > u64::MAX);
                }
                assert(parse_decimal(t) is None);
            }
            return None;
        }
        value = value * 10 + digit;
        i = i + 1;
    }
    assert(d.take(to - start) == d);
    Some(value)
}

/// The channel that message text `content` sets, if it is the command.
pub fn parse_set_channel(content: &str) -> (r: Option<u64>)
    ensures
        r == set_channel_command(content@),
{
    proof {
        reveal_strlit(".setchanid");
    }
    let len = content.unicode_len();
    let a = skip_ws_from(content, len, 0);
    let b = token_end_from(content, len, a);
    let word = ".setchanid";
    let wlen = word.unicode_len();
    if len - a < wlen {
        return None;
    }
    let mut k: usize = 0;
    while k < wlen
        invariant
            wlen == command_word().len(),
            word@ == command_word(),
            a + wlen <= len == content@.len(),
            a == skip_ws(content@, 0),
            k <= wlen,
            content@.subrange(a as int, a + k) == command_word().take(k as int),
        decreases wlen - k,
    {
        if content.get_char(a + k) != word.get_char(k) {
            assert(content@.subrange(a as int, a + wlen)[k as int] != command_word()[k as int]);
            assert(content@.subrange(a as int, a + wlen) != command_word());
            return None;
        }
        assert(content@.subrange(a as int, a + k + 1) == command_word().take(k + 1));
        k = k + 1;
    }
    assert(command_word().take(wlen as int) == command_word());
    let c = skip_ws_from(content, len, b);
    if c >= len {
        return None;
    }
    let d = token_end_from(content, len, c);
    parse_u64_range(content, c, d)
}

/// The channel that a message in a guild sets as the guild's target, if the
/// message is the command from a person allowed to give it.
pub fn command_target(
    cfg: &EngineConfig,
    author_is_bot: bool,
    author: u64,
    owner: u64,
    content: &str,
) -> (r: Option<u64>)
    ensures
        r == command_target_spec(*cfg, author_is_bot, author, owner, content@),
{
    if author_is_bot || !(author == owner || author == cfg.admin_id) {
        return None;
    }
    parse_set_channel(content)
}

} // verus!
