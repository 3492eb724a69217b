//! Escaping of values that are put into HTML pages.

use vstd::prelude::*;

use crate::text::chars_of;

verus! {

/// What stands in a page for one character: an entity for the five characters
/// that mean something in markup, the character itself for any other.
pub open spec fn escaped_char(c: char) -> Seq<char> {
    if c == '&' {
        "&amp;"@
    } else if c == '<' {
        "&lt;"@
    } else if c == '>' {
        "&gt;"@
    } else if c == '"' {
        "&quot;"@
    } else if c == '\'' {
        "&#39;"@
    } else {
        seq![c]
    }
}

/// What stands in a page for a text.
pub open spec fn escaped(s: Seq<char>) -> Seq<char>
    decreases s.len(),
{
    if s.len() == 0 {
        Seq::empty()
    } else {
        escaped(s.drop_last()) + escaped_char(s.last())
    }
}

/// Escapes a text for use inside an element or a quoted attribute.
pub fn escape(input: &str) -> (r: String)
    ensures
        r@ == escaped(input@),
{
    let chars = chars_of(input);
    let mut out = String::new();
    let mut i: usize = 0;
    assert(input@.take(0).len() == 0);
    while i < chars.len()
        invariant
            chars@ == input@,
            i <= chars@.len(),
            out@ == escaped(input@.take(i as int)),
        decreases chars@.len() - i,
    {
        let c = chars[i];
        assert(input@.take(i + 1).drop_last() == input@.take(i as int));
        assert(input@.take(i + 1).last() == c);
        match c {
            '&' => out.append("&amp;"),
            '<' => out.append("&lt;"),
            '>' => out.append("&gt;"),
            '"' => out.append("&quot;"),
            '\'' => out.append("&#39;"),
            _ => out.push(c),
        }
        assert(out@ == escaped(input@.take(i as int)) + escaped_char(c));
        i += 1;
    }
    assert(input@.take(input@.len() as int) == input@);
    out
}

/// Whether one of the five entities starts at a position of a text.
pub open spec fn entity_at(s: Seq<char>, i: int) -> bool {
    ||| "&amp;"@.is_prefix_of(s.skip(i))
    ||| "&lt;"@.is_prefix_of(s.skip(i))
    ||| "&gt;"@.is_prefix_of(s.skip(i))
    ||| "&quot;"@.is_prefix_of(s.skip(i))
    ||| "&#39;"@.is_prefix_of(s.skip(i))
}

proof fn lemma_escaped_char(c: char)
    ensures
        escaped_char(c).len() > 0,
        forall|i: int|
            0 <= i < escaped_char(c).len() ==> #[trigger] escaped_char(c)[i] != '<'
                && escaped_char(c)[i] != '>' && escaped_char(c)[i] != '"'
                && escaped_char(c)[i] != '\'',
        forall|i: int| 0 < i < escaped_char(c).len() ==> #[trigger] escaped_char(c)[i] != '&',
        escaped_char(c)[0] == '&' ==> escaped_char(c).len() >= 2 && entity_at(escaped_char(c), 0),
{
    reveal_strlit("&amp;");
    reveal_strlit("&lt;");
    reveal_strlit("&gt;");
    reveal_strlit("&quot;");
    reveal_strlit("&#39;");
    assert(escaped_char(c).skip(0) == escaped_char(c));
}

/// An entity stays one when text is put behind it.
proof fn lemma_entity_extends(s: Seq<char>, t: Seq<char>, i: int)
    requires
        0 <= i <= s.len(),
        entity_at(s, i),
    ensures
        entity_at(s + t, i),
{
    assert((s + t).skip(i) == s.skip(i) + t);
}

/// An entity stays one when text is put before it.
proof fn lemma_entity_shifts(s: Seq<char>, t: Seq<char>, i: int)
    requires
        0 <= i <= t.len(),
        entity_at(t, i),
    ensures
        entity_at(s + t, s.len() + i),
{
    assert((s + t).skip(s.len() + i) == t.skip(i));
}

/// Escaped text cannot open a tag or end a quoted attribute, and every
/// ampersand in it begins an entity.
pub proof fn law_escaped_is_inert(s: Seq<char>)
    ensures
        forall|i: int|
            0 <= i < escaped(s).len() ==> #[trigger] escaped(s)[i] != '<' && escaped(s)[i] != '>'
                && escaped(s)[i] != '"' && escaped(s)[i] != '\'',
        forall|i: int|
            0 <= i < escaped(s).len() && #[trigger] escaped(s)[i] == '&' ==> entity_at(
                escaped(s),
                i,
            ),
    decreases s.len(),
{
    if s.len() > 0 {
        let head = escaped(s.drop_last());
        let tail = escaped_char(s.last());
        law_escaped_is_inert(s.drop_last());
        lemma_escaped_char(s.last());
        assert forall|i: int| 0 <= i < escaped(s).len() && #[trigger] escaped(s)[i] == '&' implies entity_at(
            escaped(s),
            i,
        ) by {
            if i < head.len() {
                assert(head[i] == '&');
                lemma_entity_extends(head, tail, i);
            } else {
                assert(tail[i - head.len()] == '&');
                lemma_entity_shifts(head, tail, i - head.len());
            }
        }
    }
}

/// What an escaped text begins with, for a text that is not empty.
proof fn lemma_escaped_front(s: Seq<char>)
    requires
        s.len() > 0,
    ensures
        escaped(s) == escaped_char(s.first()) + escaped(s.drop_first()),
    decreases s.len(),
{
    if s.len() == 1 {
        assert(s.drop_last() == Seq::<char>::empty());
        assert(s.drop_first() == Seq::<char>::empty());
        assert(escaped(s) == escaped_char(s.first()) + escaped(s.drop_first()));
    } else {
        lemma_escaped_front(s.drop_last());
        assert(s.drop_last().drop_first() == s.drop_first().drop_last());
        assert(s.drop_last().first() == s.first());
        assert(s.drop_first().last() == s.last());
        assert(escaped(s) == escaped_char(s.first()) + escaped(s.drop_first()));
    }
}

/// The escaped form of a text determines the text: nothing that a reporter
/// or a handler wrote is lost on the way to the page.
pub proof fn law_escaped_keeps_the_text(a: Seq<char>, b: Seq<char>)
    requires
        escaped(a) == escaped(b),
    ensures
        a == b,
    decreases a.len(),
{
    if a.len() == 0 {
        if b.len() > 0 {
            lemma_escaped_char(b.last());
            assert(escaped(b).len() > 0 && escaped(a).len() == 0);
        }
        assert(a == b);
    } else if b.len() == 0 {
        lemma_escaped_char(a.last());
        assert(escaped(a).len() > 0 && escaped(b).len() == 0);
    } else {
        lemma_escaped_front(a);
        lemma_escaped_front(b);
        let p = escaped_char(a.first());
        let q = escaped_char(b.first());
        let x = p + escaped(a.drop_first());
        let y = q + escaped(b.drop_first());
        assert(x == y);
        reveal_strlit("&amp;");
        reveal_strlit("&lt;");
        reveal_strlit("&gt;");
        reveal_strlit("&quot;");
        reveal_strlit("&#39;");
        assert(x[0] == p[0] && y[0] == q[0]);
        assert(p.len() >= 2 ==> x[1] == p[1]);
        assert(q.len() >= 2 ==> y[1] == q[1]);
        assert(a.first() == b.first());
        assert(x.skip(p.len() as int) == escaped(a.drop_first()));
        assert(y.skip(p.len() as int) == escaped(b.drop_first()));
        law_escaped_keeps_the_text(a.drop_first(), b.drop_first());
        assert(a == seq![a.first()] + a.drop_first());
        assert(b == seq![b.first()] + b.drop_first());
    }
}

/// A text of characters that stand for themselves is not changed.
pub proof fn lemma_escaped_plain(s: Seq<char>)
    requires
        forall|i: int| 0 <= i < s.len() ==> escaped_char(#[trigger] s[i]) == seq![s[i]],
    ensures
        escaped(s) == s,
    decreases s.len(),
{
    if s.len() > 0 {
        assert forall|i: int| 0 <= i < s.drop_last().len() implies escaped_char(
            #[trigger] s.drop_last()[i],
        ) == seq![s.drop_last()[i]] by {
            assert(s.drop_last()[i] == s[i]);
        }
        lemma_escaped_plain(s.drop_last());
        assert(escaped_char(s[s.len() - 1]) == seq![s.last()]);
        assert(s.drop_last() + seq![s.last()] == s);
    }
}

/// Escaping goes character by character: what stands for two texts one behind the
/// other is what stands for each of them.
pub proof fn law_escaping_goes_by_characters(a: Seq<char>, b: Seq<char>)
    ensures
        escaped(a + b) == escaped(a) + escaped(b),
    decreases b.len(),
{
    if b.len() == 0 {
        assert(a + b =~= a);
        assert(escaped(a) + escaped(b) =~= escaped(a));
    } else {
        law_escaping_goes_by_characters(a, b.drop_last());
        assert((a + b).drop_last() =~= a + b.drop_last());
        assert((a + b).last() == b.last());
    }
}

/// A character stands for itself, unless it is one of the five that have an
/// entity.
pub proof fn law_five_characters_are_escaped(c: char)
    ensures
        escaped(seq!['&']) == "&amp;"@,
        escaped(seq!['<']) == "&lt;"@,
        escaped(seq!['>']) == "&gt;"@,
        escaped(seq!['"']) == "&quot;"@,
        escaped(seq!['\'']) == "&#39;"@,
        c != '&' && c != '<' && c != '>' && c != '"' && c != '\'' ==> escaped(seq![c]) == seq![c],
        escaped(Seq::empty()).len() == 0,
{
    lemma_escaped_one('&');
    lemma_escaped_one('<');
    lemma_escaped_one('>');
    lemma_escaped_one('"');
    lemma_escaped_one('\'');
    lemma_escaped_one(c);
}

proof fn lemma_escaped_one(c: char)
    ensures
        escaped(seq![c]) == escaped_char(c),
{
    assert(seq![c].drop_last() =~= Seq::empty());
    assert(escaped(seq![c].drop_last()) + escaped_char(c) =~= escaped_char(c));
}

/// A text without the five characters is not changed.
pub proof fn law_plain_text_is_not_changed(s: Seq<char>)
    requires
        forall|i: int|
            0 <= i < s.len() ==> #[trigger] s[i] != '&' && s[i] != '<' && s[i] != '>' && s[i] != '"'
                && s[i] != '\'',
    ensures
        escaped(s) == s,
{
    lemma_escaped_plain(s);
}

}
