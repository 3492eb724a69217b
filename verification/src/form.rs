//! Query strings and submitted forms.

use rustio_admin::FormData;
use vstd::prelude::*;

use crate::text::{chars_of, opt_text};

verus! {

/// `rustio_admin::FormData`: the fields of a form or of a query string.
#[verifier::external_type_specification]
#[verifier::external_body]
pub struct ExFormData(FormData);

/// The fields that a `FormData` holds, by name.
pub uninterp spec fn form_fields(form: FormData) -> Map<Seq<char>, Seq<char>>;

/// The fields that `FormData::from_urlencoded` reads from a text.
pub uninterp spec fn urlencoded_fields(input: Seq<char>) -> Map<Seq<char>, Seq<char>>;

/// What stands in a query string for one character of a value.
pub open spec fn url_encoded_char(c: char) -> Seq<char> {
    if c == '&' {
        "%26"@
    } else if c == '=' {
        "%3D"@
    } else if c == '?' {
        "%3F"@
    } else if c == '#' {
        "%23"@
    } else if c == ' ' {
        "%20"@
    } else if c == '+' {
        "%2B"@
    } else {
        seq![c]
    }
}

/// What stands in a query string for a value.
pub open spec fn url_encoded(s: Seq<char>) -> Seq<char>
    decreases s.len(),
{
    if s.len() == 0 {
        Seq::empty()
    } else {
        url_encoded(s.drop_last()) + url_encoded_char(s.last())
    }
}

/// One `name=value` part of a query string.
pub open spec fn query_part(name: Seq<char>, value: Seq<char>) -> Seq<char> {
    name + "="@ + url_encoded(value)
}

/// A query string of some names and values.
pub open spec fn query_text(pairs: Seq<(Seq<char>, Seq<char>)>) -> Seq<char>
    decreases pairs.len(),
{
    if pairs.len() == 0 {
        Seq::empty()
    } else if pairs.len() == 1 {
        query_part(pairs[0].0, pairs[0].1)
    } else {
        query_text(pairs.drop_last()) + "&"@ + query_part(pairs.last().0, pairs.last().1)
    }
}

/// The fields that some names and values make, the last of several equal names
/// counting.
pub open spec fn fields_of(pairs: Seq<(Seq<char>, Seq<char>)>) -> Map<Seq<char>, Seq<char>>
    decreases pairs.len(),
{
    if pairs.len() == 0 {
        Map::empty()
    } else {
        fields_of(pairs.drop_last()).insert(pairs.last().0, pairs.last().1)
    }
}

/// Whether a character is a hexadecimal digit.
pub open spec fn hex_digit(c: char) -> bool {
    '0' <= c <= '9' || 'A' <= c <= 'F' || 'a' <= c <= 'f'
}

/// Whether a value holds a percent sign with two hexadecimal digits behind it,
/// which a reader of the query string takes for an encoded byte.
pub open spec fn looks_encoded(value: Seq<char>) -> bool {
    exists|i: int|
        0 <= i && i + 2 < value.len() && #[trigger] value[i] == '%' && hex_digit(value[i + 1])
            && hex_digit(value[i + 2])
}

/// Whether a field has a name of small letters and underscores, and a value
/// that does not look encoded.
pub open spec fn readable(pair: (Seq<char>, Seq<char>)) -> bool {
    &&& pair.0.len() > 0
    &&& forall|i: int|
        0 <= i < pair.0.len() ==> 'a' <= #[trigger] pair.0[i] <= 'z' || pair.0[i] == '_'
    &&& !looks_encoded(pair.1)
}

/// `rustio_admin::FormData::from_urlencoded` reads the fields of a query string
/// or of a form body. What it reads depends on the text alone, and it reads back
/// the names and values that a query string was made of.
pub assume_specification[ FormData::from_urlencoded ](input: &str) -> (r: FormData)
    ensures
        form_fields(r) == urlencoded_fields(input@),
        forall|pairs: Seq<(Seq<char>, Seq<char>)>|
            #[trigger] query_text(pairs) == input@ && (forall|i: int|
                0 <= i < pairs.len() ==> readable(#[trigger] pairs[i])) ==> form_fields(r)
                == fields_of(pairs),
;

/// `rustio_admin::FormData::get` looks a field up by its name.
pub assume_specification<'a>[ FormData::get ](form: &'a FormData, key: &str) -> (r: Option<&'a str>)
    ensures
        r is Some <==> form_fields(*form).contains_key(key@),
        r matches Some(value) ==> value@ == form_fields(*form)[key@],
;

/// Encodes the reserved characters that a filter value may hold (`&`, `=`,
/// `?`, `#`, space and plus) for a query string. Any other character passes
/// through.
pub fn urlencode(s: &str) -> (r: String)
    ensures
        r@ == url_encoded(s@),
{
    let chars = chars_of(s);
    let mut out = String::new();
    let mut i: usize = 0;
    assert(s@.take(0).len() == 0);
    while i < chars.len()
        invariant
            chars@ == s@,
            i <= chars@.len(),
            out@ == url_encoded(s@.take(i as int)),
        decreases chars@.len() - i,
    {
        let c = chars[i];
        assert(s@.take(i + 1).drop_last() == s@.take(i as int));
        assert(s@.take(i + 1).last() == c);
        match c {
            '&' => out.append("%26"),
            '=' => out.append("%3D"),
            '?' => out.append("%3F"),
            '#' => out.append("%23"),
            ' ' => out.append("%20"),
            '+' => out.append("%2B"),
            _ => out.push(c),
        }
        assert(out@ == url_encoded(s@.take(i as int)) + url_encoded_char(c));
        i += 1;
    }
    assert(s@.take(s@.len() as int) == s@);
    out
}

/// A value without reserved characters stands for itself.
pub proof fn lemma_url_encoded_plain(s: Seq<char>)
    requires
        forall|i: int| 0 <= i < s.len() ==> url_encoded_char(#[trigger] s[i]) == seq![s[i]],
    ensures
        url_encoded(s) == s,
    decreases s.len(),
{
    if s.len() > 0 {
        assert forall|i: int| 0 <= i < s.drop_last().len() implies url_encoded_char(
            #[trigger] s.drop_last()[i],
        ) == seq![s.drop_last()[i]] by {
            assert(s.drop_last()[i] == s[i]);
        }
        lemma_url_encoded_plain(s.drop_last());
        assert(s == s.drop_last().push(s.last()));
        assert(url_encoded_char(s[s.len() - 1]) == seq![s.last()]);
        assert(s.drop_last() + seq![s.last()] == s);
    }
}

/// The field of a given name, if there is one.
pub open spec fn field(fields: Map<Seq<char>, Seq<char>>, name: Seq<char>) -> Option<Seq<char>> {
    if fields.contains_key(name) {
        Some(fields[name])
    } else {
        None
    }
}

/// A value, unless it is missing or empty.
pub open spec fn non_empty(value: Option<Seq<char>>) -> Option<Seq<char>> {
    match value {
        Some(text) if text.len() > 0 => Some(text),
        _ => None,
    }
}

/// The value of a field, if it is there.
pub fn field_value(form: &FormData, name: &str) -> (r: Option<String>)
    ensures
        opt_text(r) == field(form_fields(*form), name@),
{
    match form.get(name) {
        Some(value) => Some(value.to_string()),
        None => None,
    }
}

/// The value of a field that is there and not empty.
pub fn non_empty_field(form: &FormData, name: &str) -> (r: Option<String>)
    ensures
        opt_text(r) == non_empty(field(form_fields(*form), name@)),
{
    match form.get(name) {
        Some(value) => {
            if value.is_empty() {
                None
            } else {
                Some(value.to_string())
            }
        },
        None => None,
    }
}

/// Encoding goes character by character: what stands for two values one behind the
/// other is what stands for each of them.
pub proof fn law_encoding_goes_by_characters(a: Seq<char>, b: Seq<char>)
    ensures
        url_encoded(a + b) == url_encoded(a) + url_encoded(b),
    decreases b.len(),
{
    if b.len() == 0 {
        assert(a + b =~= a);
        assert(url_encoded(a) + url_encoded(b) =~= url_encoded(a));
    } else {
        law_encoding_goes_by_characters(a, b.drop_last());
        assert((a + b).drop_last() =~= a + b.drop_last());
        assert((a + b).last() == b.last());
    }
}

/// A character stands for itself, unless it is one of the six that are reserved.
pub proof fn law_six_characters_are_encoded(c: char)
    ensures
        url_encoded(seq!['&']) == "%26"@,
        url_encoded(seq!['=']) == "%3D"@,
        url_encoded(seq!['?']) == "%3F"@,
        url_encoded(seq!['#']) == "%23"@,
        url_encoded(seq![' ']) == "%20"@,
        url_encoded(seq!['+']) == "%2B"@,
        c != '&' && c != '=' && c != '?' && c != '#' && c != ' ' && c != '+' ==> url_encoded(seq![c])
            == seq![c],
        url_encoded(Seq::empty()).len() == 0,
{
    lemma_encoded_one('&');
    lemma_encoded_one('=');
    lemma_encoded_one('?');
    lemma_encoded_one('#');
    lemma_encoded_one(' ');
    lemma_encoded_one('+');
    lemma_encoded_one(c);
}

proof fn lemma_encoded_one(c: char)
    ensures
        url_encoded(seq![c]) == url_encoded_char(c),
{
    assert(seq![c].drop_last() =~= Seq::empty());
    assert(url_encoded(seq![c].drop_last()) + url_encoded_char(c) =~= url_encoded_char(c));
}

/// Whether a character is reserved in a query string.
pub open spec fn reserved(c: char) -> bool {
    c == '&' || c == '=' || c == '?' || c == '#' || c == ' ' || c == '+'
}

proof fn lemma_encoded_char_is_not_reserved(c: char)
    ensures
        forall|i: int|
            0 <= i < url_encoded_char(c).len() ==> !reserved(#[trigger] url_encoded_char(c)[i]),
{
    reveal_strlit("%26");
    reveal_strlit("%3D");
    reveal_strlit("%3F");
    reveal_strlit("%23");
    reveal_strlit("%20");
    reveal_strlit("%2B");
}

/// No value breaks out of its part of a query string: what stands for it holds
/// none of the reserved characters.
pub proof fn law_encoded_values_stay_in_their_part(s: Seq<char>)
    ensures
        forall|i: int| 0 <= i < url_encoded(s).len() ==> !reserved(#[trigger] url_encoded(s)[i]),
    decreases s.len(),
{
    if s.len() > 0 {
        let head = url_encoded(s.drop_last());
        let tail = url_encoded_char(s.last());
        law_encoded_values_stay_in_their_part(s.drop_last());
        lemma_encoded_char_is_not_reserved(s.last());
        assert forall|i: int| 0 <= i < url_encoded(s).len() implies !reserved(
            #[trigger] url_encoded(s)[i],
        ) by {
            if i < head.len() {
                assert(url_encoded(s)[i] == head[i]);
            } else {
                assert(url_encoded(s)[i] == tail[i - head.len()]);
            }
        }
    }
}

/// A field is looked up under its own name, and its value counts unless it is
/// empty.
pub proof fn law_fields_are_looked_up_by_name(
    fields: Map<Seq<char>, Seq<char>>,
    name: Seq<char>,
    value: Seq<char>,
)
    ensures
        field(fields.insert(name, value), name) == Some(value),
        field(fields.remove(name), name) is None,
        forall|other: Seq<char>|
            other != name ==> field(fields.insert(name, value), other) == #[trigger] field(
                fields,
                other,
            ),
        non_empty(Some(value)) == if value.len() > 0 {
            Some(value)
        } else {
            None
        },
        non_empty(None) is None,
{
}

}
