//! Plain text: comparing, trimming, cutting, joining, and the decimal form of
//! integers.

use vstd::prelude::*;

verus! {

/// `String::push` appends one character to the end of the string.
pub assume_specification[ String::push ](s: &mut String, c: char)
    ensures
        final(s)@ == old(s)@.push(c),
;

/// The characters of a string, one by one.
pub fn chars_of(s: &str) -> (r: Vec<char>)
    ensures
        r@ == s@,
{
    let mut out: Vec<char> = Vec::new();
    for c in it: s.chars()
        invariant
            it.seq() == s@,
            out@ == s@.take(it.index() as int),
    {
        out.push(c);
    }
    assert(s@.take(s@.len() as int) == s@);
    out
}

/// Whether two texts hold the same characters.
pub fn same_text(a: &str, b: &str) -> (r: bool)
    ensures
        r == (a@ == b@),
{
    let left = chars_of(a);
    let right = chars_of(b);
    if left.len() != right.len() {
        return false;
    }
    let mut i: usize = 0;
    while i < left.len()
        invariant
            left@ == a@,
            right@ == b@,
            left@.len() == right@.len(),
            i <= left@.len(),
            forall|k: int| 0 <= k < i ==> left@[k] == right@[k],
        decreases left@.len() - i,
    {
        if left[i] != right[i] {
            return false;
        }
        i += 1;
    }
    assert(a@ =~= b@);
    true
}

/// The characters that carry the Unicode property `White_Space`.
pub open spec fn white_space(c: char) -> bool {
    ||| '\u{9}' <= c <= '\u{d}'
    ||| c == ' '
    ||| c == '\u{85}'
    ||| c == '\u{a0}'
    ||| c == '\u{1680}'
    ||| '\u{2000}' <= c <= '\u{200a}'
    ||| c == '\u{2028}'
    ||| c == '\u{2029}'
    ||| c == '\u{202f}'
    ||| c == '\u{205f}'
    ||| c == '\u{3000}'
}

/// Whether a character is white space.
pub fn is_white_space(c: char) -> (r: bool)
    ensures
        r == white_space(c),
{
    let n: u32 = c as u32;
    (9 <= n && n <= 13) || n == 32 || n == 0x85 || n == 0xa0 || n == 0x1680
        || (0x2000 <= n && n <= 0x200a) || n == 0x2028 || n == 0x2029
        || n == 0x202f || n == 0x205f || n == 0x3000
}


/// A text without its leading white space.
pub open spec fn trimmed_start(s: Seq<char>) -> Seq<char>
    decreases s.len(),
{
    if s.len() > 0 && white_space(s.first()) {
        trimmed_start(s.drop_first())
    } else {
        s
    }
}

/// A text without its trailing white space.
pub open spec fn trimmed_end(s: Seq<char>) -> Seq<char>
    decreases s.len(),
{
    if s.len() > 0 && white_space(s.last()) {
        trimmed_end(s.drop_last())
    } else {
        s
    }
}

/// A text without the white space around it.
pub open spec fn trimmed(s: Seq<char>) -> Seq<char> {
    trimmed_end(trimmed_start(s))
}

/// The part of a text between its first and its last character that is not
/// white space.
pub fn trim(s: &str) -> (r: &str)
    ensures
        r@ == trimmed(s@),
{
    let chars = chars_of(s);
    let n: usize = chars.len();
    let mut start: usize = 0;
    assert(s@.skip(0) == s@);
    while start < n && is_white_space(chars[start])
        invariant
            chars@ == s@,
            n == chars@.len(),
            start <= n,
            trimmed_start(s@) == trimmed_start(s@.skip(start as int)),
        decreases n - start,
    {
        assert(s@.skip(start as int).drop_first() == s@.skip(start + 1));
        start += 1;
    }
    assert(trimmed_start(s@) == s@.skip(start as int));
    let ghost rest = s@.skip(start as int);
    let mut end: usize = n;
    assert(rest.take(n - start) == rest);
    while start < end && is_white_space(chars[end - 1])
        invariant
            chars@ == s@,
            n == chars@.len(),
            start <= end <= n,
            rest == s@.skip(start as int),
            trimmed_end(rest) == trimmed_end(rest.take(end - start)),
        decreases end,
    {
        assert(rest.take(end - start).drop_last() == rest.take(end - start - 1));
        end -= 1;
    }
    assert(trimmed_end(rest) == rest.take(end - start));
    assert(rest.take(end - start) == s@.subrange(start as int, end as int));
    s.substring_char(start, end)
}

/// Whether a text holds a given character.
pub fn contains_char(s: &str, wanted: char) -> (r: bool)
    ensures
        r == s@.contains(wanted),
{
    let chars = chars_of(s);
    let mut i: usize = 0;
    while i < chars.len()
        invariant
            chars@ == s@,
            i <= chars@.len(),
            forall|k: int| 0 <= k < i ==> chars@[k] != wanted,
        decreases chars@.len() - i,
    {
        if chars[i] == wanted {
            assert(s@[i as int] == wanted);
            return true;
        }
        i += 1;
    }
    false
}

/// The character that stands for a digit below ten.
pub open spec fn digit_char(d: int) -> char {
    ('0' as int + d) as char
}

/// The decimal digits of a natural number, most significant first.
pub open spec fn digits(n: nat) -> Seq<char>
    decreases n,
{
    if n < 10 {
        seq![digit_char(n as int)]
    } else {
        digits(n / 10).push(digit_char((n % 10) as int))
    }
}

/// The decimal form of an integer, with a minus sign where it is negative.
pub open spec fn decimal(n: int) -> Seq<char> {
    if n < 0 {
        seq!['-'] + digits((-n) as nat)
    } else {
        digits(n as nat)
    }
}

/// Writes an integer in decimal.
pub fn decimal_text(n: i64) -> (r: String)
    ensures
        r@ == decimal(n as int),
{
    let negative = n < 0;
    let mut rest: u64 = if n == i64::MIN {
        0x8000_0000_0000_0000u64
    } else if negative {
        (-n) as u64
    } else {
        n as u64
    };
    let ghost magnitude: nat = rest as nat;
    let mut reversed: Vec<char> = Vec::new();
    while rest >= 10
        invariant
            digits(magnitude) == digits(rest as nat) + reversed@.reverse(),
        decreases rest,
    {
        let d: u8 = (rest % 10) as u8;
        let ghost before = rest;
        let ghost tail = reversed@;
        reversed.push((48u8 + d) as char);
        rest = rest / 10;
        proof {
            assert(digits(before as nat) == digits(rest as nat).push(digit_char(d as int)));
            assert(reversed@.reverse() == seq![digit_char(d as int)] + tail.reverse());
            assert(digits(before as nat) + tail.reverse() == digits(rest as nat)
                + reversed@.reverse());
        }
    }
    let mut out = String::new();
    if negative {
        out.push('-');
    }
    let ghost sign = out@;
    out.push((48u8 + rest as u8) as char);
    let ghost shown = reversed@.reverse();
    let mut left: usize = reversed.len();
    assert(sign + digits(rest as nat) + shown.take(0) == out@);
    while left > 0
        invariant
            left <= reversed@.len(),
            shown == reversed@.reverse(),
            out@ == sign + digits(rest as nat) + shown.take(reversed@.len() - left),
        decreases left,
    {
        left -= 1;
        let ghost k = reversed@.len() - left - 1;
        out.push(reversed[left]);
        proof {
            assert(shown.take(k + 1) == shown.take(k).push(shown[k]));
            assert(out@ == sign + digits(rest as nat) + shown.take(k + 1));
        }
    }
    proof {
        assert(shown.take(shown.len() as int) == shown);
        assert(out@ == sign + digits(magnitude));
        if negative {
            assert(sign == seq!['-']);
        } else {
            assert(out@ == digits(magnitude));
        }
    }
    out
}

/// Whether a character is one of the ten ASCII digits.
pub open spec fn is_digit(c: char) -> bool {
    '0' <= c <= '9'
}

/// The number that a run of digits stands for.
pub open spec fn digits_value(s: Seq<char>) -> nat
    decreases s.len(),
{
    if s.len() == 0 {
        0
    } else {
        digits_value(s.drop_last()) * 10 + (s.last() as int - '0' as int) as nat
    }
}

/// A text without the one sign that may stand in front of a number.
pub open spec fn unsigned_part(s: Seq<char>) -> Seq<char> {
    if s.len() > 0 && (s[0] == '-' || s[0] == '+') {
        s.drop_first()
    } else {
        s
    }
}

/// The integer that a text stands for: an optional sign, then one or more
/// digits and nothing else, within the range of `i64`.
pub open spec fn parsed_i64(s: Seq<char>) -> Option<int> {
    let body = unsigned_part(s);
    let magnitude = digits_value(body) as int;
    let value = if s.len() > 0 && s[0] == '-' { -magnitude } else { magnitude };
    if body.len() > 0 && (forall|i: int| 0 <= i < body.len() ==> is_digit(#[trigger] body[i]))
        && i64::MIN <= value <= i64::MAX {
        Some(value)
    } else {
        None
    }
}

/// A longer run of digits stands for no smaller a number.
proof fn lemma_digits_value_grows(s: Seq<char>, i: int)
    requires
        0 <= i <= s.len(),
        forall|k: int| 0 <= k < s.len() ==> is_digit(#[trigger] s[k]),
    ensures
        digits_value(s.take(i)) <= digits_value(s),
    decreases s.len() - i,
{
    if i == s.len() {
        assert(s.take(i) == s);
    } else {
        lemma_digits_value_grows(s, i + 1);
        assert(s.take(i + 1).drop_last() == s.take(i));
    }
}

/// Reads a signed decimal number.
pub fn parse_i64(s: &str) -> (r: Option<i64>)
    ensures
        r is Some <==> parsed_i64(s@) is Some,
        r matches Some(n) ==> parsed_i64(s@) == Some(n as int),
{
    let chars = chars_of(s);
    let n: usize = chars.len();
    let signed = n > 0 && (chars[0] == '-' || chars[0] == '+');
    let negative = n > 0 && chars[0] == '-';
    let start: usize = if signed { 1 } else { 0 };
    let ghost body = unsigned_part(s@);
    assert(body == s@.skip(start as int));
    if start == n {
        return None;
    }
    let limit: u64 = 0x8000_0000_0000_0000u64;
    let mut magnitude: u64 = 0;
    let mut i: usize = start;
    assert(body.take(0).len() == 0);
    while i < n
        invariant
            chars@ == s@,
            n == chars@.len(),
            start <= i <= n,
            start <= 1,
            body == s@.skip(start as int),
            body == unsigned_part(s@),
            limit == 0x8000_0000_0000_0000u64,
            negative == (s@.len() > 0 && s@[0] == '-'),
            forall|k: int| 0 <= k < i - start ==> is_digit(#[trigger] body[k]),
            magnitude == digits_value(body.take(i - start)),
            magnitude <= limit,
        decreases n - i,
    {
        let c = chars[i];
        let ghost j = i - start;
        assert(body[j] == c);
        if c < '0' || c > '9' {
            assert(!is_digit(body[j]));
            return None;
        }
        let d: u64 = (c as u32 - '0' as u32) as u64;
        assert(body.take(j + 1).drop_last() == body.take(j));
        if magnitude > (limit - d) / 10 {
            proof {
                assert(digits_value(body.take(j + 1)) > limit);
                if forall|k: int| 0 <= k < body.len() ==> is_digit(#[trigger] body[k]) {
                    lemma_digits_value_grows(body, j + 1);
                }
            }
            return None;
        }
        magnitude = magnitude * 10 + d;
        i += 1;
    }
    assert(body.take(n - start) == body);
    if negative {
        if magnitude == limit {
            Some(i64::MIN)
        } else {
            Some(-(magnitude as i64))
        }
    } else if magnitude < limit {
        Some(magnitude as i64)
    } else {
        None
    }
}

proof fn lemma_digits_are_digits(n: nat)
    ensures
        digits(n).len() > 0,
        forall|k: int| 0 <= k < digits(n).len() ==> is_digit(#[trigger] digits(n)[k]),
        digits_value(digits(n)) == n,
    decreases n,
{
    reveal_with_fuel(digits_value, 2);
    if n >= 10 {
        lemma_digits_are_digits(n / 10);
        assert(digits(n).drop_last() == digits(n / 10));
    } else {
        assert(digits(n).drop_last() == Seq::<char>::empty());
    }
}

/// Reading the decimal form of a number gives the number back.
pub proof fn law_decimal_reads_back(n: i64)
    ensures
        parsed_i64(decimal(n as int)) == Some(n as int),
{
    let magnitude: nat = if n < 0 { (-n) as nat } else { n as nat };
    lemma_digits_are_digits(magnitude);
    let s = decimal(n as int);
    if n < 0 {
        assert(unsigned_part(s) == digits(magnitude));
    } else {
        assert(is_digit(digits(magnitude)[0]));
        assert(unsigned_part(s) == digits(magnitude));
    }
}


/// The characters of a decimal form are digits, and a minus sign.
pub proof fn lemma_decimal_chars(n: int)
    ensures
        decimal(n).len() > 0,
        forall|k: int|
            0 <= k < decimal(n).len() ==> is_digit(#[trigger] decimal(n)[k]) || decimal(n)[k]
                == '-',
{
    if n < 0 {
        lemma_digits_are_digits((-n) as nat);
    } else {
        lemma_digits_are_digits(n as nat);
    }
}

/// Some texts with a separator between them.
pub open spec fn joined(parts: Seq<Seq<char>>, separator: Seq<char>) -> Seq<char>
    decreases parts.len(),
{
    if parts.len() == 0 {
        Seq::empty()
    } else if parts.len() == 1 {
        parts[0]
    } else {
        joined(parts.drop_last(), separator) + separator + parts.last()
    }
}

/// The contents of some strings.
pub open spec fn texts(strings: Seq<String>) -> Seq<Seq<char>> {
    strings.map_values(|s: String| s@)
}

/// Joins some strings with a separator.
pub fn join(parts: &Vec<String>, separator: &str) -> (r: String)
    ensures
        r@ == joined(texts(parts@), separator@),
{
    let mut out = String::new();
    let ghost all = texts(parts@);
    let mut i: usize = 0;
    while i < parts.len()
        invariant
            i <= parts@.len(),
            all == texts(parts@),
            out@ == joined(all.take(i as int), separator@),
        decreases parts@.len() - i,
    {
        if i > 0 {
            out.append(separator);
        }
        out.append(parts[i].as_str());
        assert(all.take(i + 1).drop_last() == all.take(i as int));
        assert(all.take(i + 1).last() == parts@[i as int]@);
        if i == 0 {
            assert(out@ == all.take(1)[0]);
        }
        i += 1;
    }
    assert(all.take(parts@.len() as int) == all);
    out
}

/// The contents of a string that may be missing.
pub open spec fn opt_text(s: Option<String>) -> Option<Seq<char>> {
    match s {
        Some(text) => Some(text@),
        None => None,
    }
}

/// A copy of a string that may be missing.
pub fn copy_text(s: &Option<String>) -> (r: Option<String>)
    ensures
        opt_text(r) == opt_text(*s),
{
    match s {
        Some(text) => Some(text.clone()),
        None => None,
    }
}

/// A text cut to a number of characters, with an ellipsis where something was
/// cut off.
pub open spec fn truncated(s: Seq<char>, max: int) -> Seq<char> {
    if s.len() <= max {
        s
    } else {
        s.take(max).push('…')
    }
}

/// Cuts a text to a number of characters.
pub fn truncate(s: &str, max: usize) -> (r: String)
    ensures
        r@ == truncated(s@, max as int),
{
    let chars = chars_of(s);
    if chars.len() <= max {
        return s.to_string();
    }
    let mut out = String::from_str(s.substring_char(0, max));
    out.push('…');
    out
}

/// Whether a part stands somewhere in a text.
pub open spec fn holds(text: Seq<char>, part: Seq<char>) -> bool {
    exists|k: int|
        0 <= k && k + part.len() <= text.len() && #[trigger] text.subrange(k, k + part.len())
            == part
}

/// The first pieces of a list, one behind the other.
pub open spec fn concat(pieces: Seq<Seq<char>>, n: int) -> Seq<char>
    decreases n,
{
    if n <= 0 {
        Seq::empty()
    } else if n == 1 {
        pieces[0]
    } else {
        concat(pieces, n - 1) + pieces[n - 1]
    }
}

/// A part between two texts stands in what they make.
pub proof fn lemma_holds_between(before: Seq<char>, part: Seq<char>, after: Seq<char>)
    ensures
        holds(before + part + after, part),
{
    let text = before + part + after;
    let k = before.len() as int;
    assert(text.subrange(k, k + part.len()) =~= part);
}

/// What stands in a text that stands in another stands in that one too.
pub proof fn lemma_holds_within(text: Seq<char>, middle: Seq<char>, part: Seq<char>)
    requires
        holds(text, middle),
        holds(middle, part),
    ensures
        holds(text, part),
{
    let k = choose|k: int|
        0 <= k && k + middle.len() <= text.len() && #[trigger] text.subrange(k, k + middle.len())
            == middle;
    let j = choose|j: int|
        0 <= j && j + part.len() <= middle.len() && #[trigger] middle.subrange(j, j + part.len())
            == part;
    assert(text.subrange(k + j, k + j + part.len()) =~= part);
}

/// What stands in a text stands in a longer one.
pub proof fn lemma_holds_longer(text: Seq<char>, more: Seq<char>, part: Seq<char>)
    requires
        holds(text, part),
    ensures
        holds(text + more, part),
{
    assert(Seq::<char>::empty() + text + more =~= text + more);
    lemma_holds_between(Seq::empty(), text, more);
    lemma_holds_within(text + more, text, part);
}

/// A list of parts holds each of them.
pub proof fn lemma_joined_holds_each(parts: Seq<Seq<char>>, separator: Seq<char>, i: int)
    requires
        0 <= i < parts.len(),
    ensures
        holds(joined(parts, separator), parts[i]),
    decreases parts.len(),
{
    let none = Seq::<char>::empty();
    if parts.len() == 1 {
        assert(none + parts[0] + none =~= parts[0]);
        lemma_holds_between(none, parts[0], none);
    } else {
        let before = joined(parts.drop_last(), separator);
        if i == parts.len() - 1 {
            assert(before + separator + parts.last() + none =~= joined(parts, separator));
            lemma_holds_between(before + separator, parts.last(), none);
        } else {
            lemma_joined_holds_each(parts.drop_last(), separator, i);
            assert(parts.drop_last()[i] == parts[i]);
            assert(before + (separator + parts.last()) =~= joined(parts, separator));
            lemma_holds_longer(before, separator + parts.last(), parts[i]);
        }
    }
}

/// Three pieces next to each other stand in the whole, as they follow.
pub proof fn lemma_neighbours(pieces: Seq<Seq<char>>, n: int, i: int)
    requires
        0 <= i,
        i + 3 <= n <= pieces.len(),
    ensures
        holds(concat(pieces, n), pieces[i] + pieces[i + 1] + pieces[i + 2]),
    decreases n,
{
    let part = pieces[i] + pieces[i + 1] + pieces[i + 2];
    if n > i + 3 {
        lemma_neighbours(pieces, n - 1, i);
        lemma_holds_longer(concat(pieces, n - 1), pieces[n - 1], part);
    } else {
        reveal_with_fuel(concat, 4);
        let before = concat(pieces, i);
        assert(concat(pieces, n) =~= before + part + Seq::<char>::empty());
        lemma_holds_between(before, part, Seq::empty());
    }
}

/// The first pieces are as long as what comes before a piece, the piece and what
/// comes after it.
proof fn lemma_same_ends(p: Seq<Seq<char>>, q: Seq<Seq<char>>, n: int, i: int) -> (after: Seq<char>)
    requires
        0 <= i < n <= p.len(),
        p.len() == q.len(),
        forall|j: int| 0 <= j < p.len() && j != i ==> #[trigger] p[j] == q[j],
    ensures
        concat(p, n) == concat(p, i) + p[i] + after,
        concat(q, n) == concat(p, i) + q[i] + after,
    decreases n,
{
    if n == i + 1 {
        lemma_same_start(p, q, i);
        assert(concat(p, n) =~= concat(p, i) + p[i] + Seq::<char>::empty());
        assert(concat(q, n) =~= concat(p, i) + q[i] + Seq::<char>::empty());
        Seq::empty()
    } else {
        let after = lemma_same_ends(p, q, n - 1, i);
        let more = after + p[n - 1];
        assert(p[n - 1] == q[n - 1]);
        assert(concat(p, n) =~= concat(p, i) + p[i] + more);
        assert(concat(q, n) =~= concat(p, i) + q[i] + more);
        more
    }
}

proof fn lemma_same_start(p: Seq<Seq<char>>, q: Seq<Seq<char>>, n: int)
    requires
        0 <= n <= p.len(),
        p.len() == q.len(),
        forall|j: int| 0 <= j < n ==> #[trigger] p[j] == q[j],
    ensures
        concat(p, n) == concat(q, n),
    decreases n,
{
    if n > 0 {
        lemma_same_start(p, q, n - 1);
        assert(p[n - 1] == q[n - 1]);
    }
}

/// A piece can be read back from the whole, where the others are known.
pub proof fn lemma_read_back(p: Seq<Seq<char>>, q: Seq<Seq<char>>, n: int, i: int)
    requires
        0 <= i < n <= p.len(),
        p.len() == q.len(),
        forall|j: int| 0 <= j < p.len() && j != i ==> #[trigger] p[j] == q[j],
        concat(p, n) == concat(q, n),
    ensures
        p[i] == q[i],
{
    let after = lemma_same_ends(p, q, n, i);
    let before = concat(p, i);
    let whole = concat(p, n);
    assert((before + p[i] + after).len() == before.len() + p[i].len() + after.len());
    assert((before + q[i] + after).len() == before.len() + q[i].len() + after.len());
    let k = before.len() as int;
    assert(whole.subrange(k, k + p[i].len()) =~= p[i]);
    assert(whole.subrange(k, k + q[i].len()) =~= q[i]);
}

/// Trimming takes white space away from the ends and nothing else: what is left
/// stands between white space in the text, and neither begins nor ends with any.
pub proof fn law_trimmed_is_what_white_space_encloses(s: Seq<char>)
    ensures
        trimmed(s).len() > 0 ==> !white_space(trimmed(s).first()) && !white_space(
            trimmed(s).last(),
        ),
        exists|before: Seq<char>, after: Seq<char>|
            s == #[trigger] (before + trimmed(s) + after) && (forall|i: int|
                0 <= i < before.len() ==> white_space(#[trigger] before[i])) && (forall|i: int|
                0 <= i < after.len() ==> white_space(#[trigger] after[i])),
{
    let before = lemma_trimmed_start(s);
    let rest = trimmed_start(s);
    let after = lemma_trimmed_end(rest);
    assert(s =~= before + trimmed(s) + after);
    if trimmed(s).len() > 0 {
        assert(trimmed(s).first() == rest.first());
    }
}

proof fn lemma_trimmed_start(s: Seq<char>) -> (before: Seq<char>)
    ensures
        trimmed_start(s).len() > 0 ==> !white_space(trimmed_start(s).first()),
        s == before + trimmed_start(s),
        forall|i: int| 0 <= i < before.len() ==> white_space(#[trigger] before[i]),
    decreases s.len(),
{
    if s.len() > 0 && white_space(s.first()) {
        let before = lemma_trimmed_start(s.drop_first());
        let rest = trimmed_start(s);
        let more = seq![s.first()] + before;
        assert(s =~= seq![s.first()] + s.drop_first());
        assert(s =~= more + rest);
        assert forall|i: int| 0 <= i < more.len() implies white_space(#[trigger] more[i]) by {
            if i > 0 {
                assert(more[i] == before[i - 1]);
            }
        }
        more
    } else {
        assert(s =~= Seq::<char>::empty() + s);
        Seq::empty()
    }
}

proof fn lemma_trimmed_end(s: Seq<char>) -> (after: Seq<char>)
    ensures
        trimmed_end(s).len() > 0 ==> !white_space(trimmed_end(s).last()),
        s == trimmed_end(s) + after,
        forall|i: int| 0 <= i < after.len() ==> white_space(#[trigger] after[i]),
    decreases s.len(),
{
    if s.len() > 0 && white_space(s.last()) {
        let after = lemma_trimmed_end(s.drop_last());
        let rest = trimmed_end(s);
        let more = after.push(s.last());
        assert(s =~= s.drop_last().push(s.last()));
        assert(s =~= rest + more);
        assert forall|i: int| 0 <= i < more.len() implies white_space(#[trigger] more[i]) by {
            if i < after.len() {
                assert(more[i] == after[i]);
            }
        }
        more
    } else {
        assert(s =~= s + Seq::<char>::empty());
        Seq::empty()
    }
}

/// A text that fits is not cut; of a longer one the start is shown, as long as it
/// may be, with an ellipsis behind it.
pub proof fn law_truncated_is_a_start(s: Seq<char>, max: nat)
    ensures
        s.len() <= max ==> truncated(s, max as int) == s,
        s.len() > max ==> truncated(s, max as int).len() == max + 1 && truncated(
            s,
            max as int,
        ).last() == '…' && truncated(s, max as int).drop_last().is_prefix_of(s),
{
    if s.len() > max {
        assert(truncated(s, max as int).drop_last() =~= s.take(max as int));
    }
}

/// The decimal form of a number below ten is its digit; one digit more stands
/// behind the form of the number without it.
pub proof fn law_decimal_is_positional(n: nat, d: nat)
    requires
        d < 10,
    ensures
        decimal(d as int) == seq![('0' as int + d) as char],
        n > 0 ==> decimal((10 * n + d) as int) == decimal(n as int).push(('0' as int + d) as char),
        n > 0 ==> decimal(-(n as int)) == seq!['-'] + decimal(n as int),
{
    if n > 0 {
        assert((10 * n + d) / 10 == n && (10 * n + d) % 10 == d);
        assert(decimal(-(n as int)) =~= seq!['-'] + decimal(n as int));
    }
    assert(decimal(d as int) =~= seq![('0' as int + d) as char]);
}

/// White space is what Unicode calls so, by the codes of the characters.
pub proof fn law_white_space_characters(c: char)
    ensures
        white_space(c) <==> {
            let n = c as int;
            9 <= n <= 13 || n == 32 || n == 133 || n == 160 || n == 5760 || 8192 <= n <= 8202 || n
                == 8232 || n == 8233 || n == 8239 || n == 8287 || n == 12288
        },
{
}

/// Whether a text is made of the ten ASCII digits, and of one at least.
pub open spec fn all_digits(s: Seq<char>) -> bool {
    s.len() > 0 && forall|i: int| 0 <= i < s.len() ==> 48 <= #[trigger] s[i] as int <= 57
}

/// A number is read digit by digit, with or without a sign before it, as far as it
/// fits.
pub proof fn law_numbers_are_read_digit_by_digit(s: Seq<char>, c: char)
    requires
        all_digits(s),
        48 <= c as int <= 57,
    ensures
        parsed_i64(seq![c]) == Some(c as int - 48),
        parsed_i64(s) matches Some(v) ==> parsed_i64(s.push(c)) == if v * 10 + (c as int - 48)
            <= i64::MAX {
            Some(v * 10 + (c as int - 48))
        } else {
            None
        },
        parsed_i64(s) is None ==> parsed_i64(s.push(c)) is None,
        parsed_i64(seq!['+'] + s) == parsed_i64(s),
        parsed_i64(s) matches Some(v) ==> parsed_i64(seq!['-'] + s) == Some(-v),
{
    assert forall|i: int| 0 <= i < s.len() implies is_digit(#[trigger] s[i]) by {}
    let one = seq![c];
    reveal_with_fuel(digits_value, 2);
    assert(unsigned_part(one) == one);
    assert(one.drop_last().len() == 0);
    assert(is_digit(one[0]));
    assert(digits_value(one) == c as int - 48);
    let more = s.push(c);
    assert(48 <= s[0] as int <= 57);
    assert(more[0] == s[0]);
    assert(unsigned_part(s) == s && unsigned_part(more) == more);
    assert(more.drop_last() =~= s);
    assert(digits_value(more) == digits_value(s) * 10 + (c as int - 48));
    assert forall|i: int| 0 <= i < more.len() implies is_digit(#[trigger] more[i]) by {
        if i < s.len() {
            assert(more[i] == s[i]);
        }
    }
    let plus = seq!['+'] + s;
    let minus = seq!['-'] + s;
    assert(plus[0] == '+' && minus[0] == '-');
    assert(plus.drop_first() =~= s && minus.drop_first() =~= s);
}

/// A text that is empty, or only a sign, or that holds anything but digits behind
/// the sign, is no number.
pub proof fn law_other_texts_are_no_numbers(s: Seq<char>, i: int)
    requires
        s.len() == 0 || (s.len() == 1 && (s[0] == '+' || s[0] == '-')) || (0 <= i < s.len() && !(48
            <= s[i] as int <= 57) && (i > 0 || (s[0] != '+' && s[0] != '-'))),
    ensures
        parsed_i64(s) is None,
{
    if s.len() > 0 && !(s.len() == 1 && (s[0] == '+' || s[0] == '-')) {
        let body = unsigned_part(s);
        if s[0] == '+' || s[0] == '-' {
            assert(body[i - 1] == s[i]);
            assert(!is_digit(body[i - 1]));
        } else {
            assert(body == s);
            assert(!is_digit(body[i]));
        }
    }
}

}
