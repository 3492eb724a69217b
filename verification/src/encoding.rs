//! Random bytes, message authentication codes, and their base64 text.

use base64::Engine;
use hmac::Mac;
use vstd::prelude::*;

verus! {

/// The number of base64 characters that carry the bits of `n` bytes.
pub open spec fn sextet_count(n: int) -> int {
    (8 * n + 5) / 6
}

/// The `i`-th group of six bits of some bytes, filled up with zero bits behind
/// the last byte.
pub open spec fn sextet(bytes: Seq<u8>, i: int) -> int {
    let k = 6 * i / 8;
    let next: int = if k + 1 < bytes.len() { bytes[k + 1] as int } else { 0 };
    let window: int = bytes[k] as int * 256 + next;
    let offset = 6 * i % 8;
    if offset == 0 {
        window / 1024
    } else if offset == 2 {
        window / 256 % 64
    } else if offset == 4 {
        window / 64 % 64
    } else {
        window / 16 % 64
    }
}

/// The base64 character for six bits, with the alphabet's last two characters.
pub open spec fn base64_char(v: int, c62: char, c63: char) -> char {
    if v < 26 {
        ('A' as int + v) as char
    } else if v < 52 {
        ('a' as int + v - 26) as char
    } else if v < 62 {
        ('0' as int + v - 52) as char
    } else if v == 62 {
        c62
    } else {
        c63
    }
}

/// Bytes in the URL-safe base64 alphabet, without padding.
pub open spec fn base64_url(bytes: Seq<u8>) -> Seq<char> {
    Seq::new(
        sextet_count(bytes.len() as int) as nat,
        |i: int| base64_char(sextet(bytes, i), '-', '_'),
    )
}

/// Bytes in the standard base64 alphabet, padded with `=` to groups of four.
pub open spec fn base64_standard(bytes: Seq<u8>) -> Seq<char> {
    Seq::new(
        sextet_count(bytes.len() as int) as nat,
        |i: int| base64_char(sextet(bytes, i), '+', '/'),
    ) + Seq::new(((3 - bytes.len() % 3) % 3) as nat, |i: int| '=')
}

/// What HMAC with SHA-256 gives for a key and a message.
pub uninterp spec fn hmac_sha256(key: Seq<u8>, message: Seq<u8>) -> Seq<u8>;

/// `rand::RngCore::fill_bytes` on `rand::thread_rng`: as many bytes as were
/// asked for. Nothing is claimed of what they are.
#[verifier::external_body]
pub(crate) fn random_bytes(len: usize) -> (r: Vec<u8>)
    requires
        len <= isize::MAX,
    ensures
        r@.len() == len,
{
    let mut bytes = vec![0u8; len];
    rand::RngCore::fill_bytes(&mut rand::thread_rng(), &mut bytes);
    bytes
}

/// `base64::Engine::encode` of `URL_SAFE_NO_PAD`: the bytes six bits at a time,
/// in the URL-safe alphabet, without padding.
#[verifier::external_body]
pub(crate) fn encode_base64_url(bytes: &[u8]) -> (r: String)
    requires
        sextet_count(bytes@.len() as int) <= isize::MAX,
    ensures
        r@ == base64_url(bytes@),
{
    base64::engine::general_purpose::URL_SAFE_NO_PAD.encode(bytes)
}

/// `base64::Engine::encode` of `STANDARD`: the bytes six bits at a time, in the
/// standard alphabet, padded to groups of four characters.
#[verifier::external_body]
pub(crate) fn encode_base64_standard(bytes: &[u8]) -> (r: String)
    requires
        sextet_count(bytes@.len() as int) + 2 <= isize::MAX,
    ensures
        r@ == base64_standard(bytes@),
{
    base64::engine::general_purpose::STANDARD.encode(bytes)
}

/// `hmac::Mac` of `hmac::Hmac<sha2::Sha256>`: the code of a message under a
/// key. A key of any length is taken, the code depends on the key and the
/// message alone, and it has 32 bytes.
#[verifier::external_body]
pub(crate) fn authenticate(key: &[u8], message: &[u8]) -> (r: Result<Vec<u8>, String>)
    ensures
        r is Ok,
        r->Ok_0@ == hmac_sha256(key@, message@),
        r->Ok_0@.len() == 32,
{
    match <hmac::Hmac<sha2::Sha256> as Mac>::new_from_slice(key) {
        Ok(mut mac) => {
            mac.update(message);
            Ok(mac.finalize().into_bytes().to_vec())
        },
        Err(error) => Err(error.to_string()),
    }
}

proof fn lemma_sextet_bounds(bytes: Seq<u8>, i: int)
    requires
        0 <= i < sextet_count(bytes.len() as int),
    ensures
        0 <= sextet(bytes, i) < 64,
        6 * i / 8 < bytes.len(),
{
}

/// The bits of a byte that begins a group of three.
proof fn lemma_first_of_three(b: u8, next: u8)
    ensures
        (b * 256 + next) / 1024 * 4 + (b * 256 + next) / 16 % 64 / 16 == b,
{
    assert((b as u32 * 256 + next as u32) / 1024 * 4 + (b as u32 * 256 + next as u32) / 16 % 64 / 16
        == b as u32) by (bit_vector);
}

/// The bits of the second byte of a group of three.
proof fn lemma_second_of_three(before: u8, b: u8, next: u8)
    ensures
        (before * 256 + b) / 16 % 64 % 16 * 16 + (b * 256 + next) / 64 % 64 / 4 == b,
{
    assert((before as u32 * 256 + b as u32) / 16 % 64 % 16 * 16 + (b as u32 * 256 + next as u32)
        / 64 % 64 / 4 == b as u32) by (bit_vector);
}

/// The bits of the third byte of a group of three.
proof fn lemma_third_of_three(before: u8, b: u8, next: u8)
    ensures
        (before * 256 + b) / 64 % 64 % 4 * 64 + (b * 256 + next) / 256 % 64 == b,
{
    assert((before as u32 * 256 + b as u32) / 64 % 64 % 4 * 64 + (b as u32 * 256 + next as u32)
        / 256 % 64 == b as u32) by (bit_vector);
}

/// Each byte is made of the bits of two neighbouring groups.
proof fn lemma_byte_from_sextets(bytes: Seq<u8>, k: int)
    requires
        0 <= k < bytes.len(),
    ensures
        8 * k / 6 + 1 < sextet_count(bytes.len() as int),
        bytes[k] == if k % 3 == 0 {
            sextet(bytes, 8 * k / 6) * 4 + sextet(bytes, 8 * k / 6 + 1) / 16
        } else if k % 3 == 1 {
            sextet(bytes, 8 * k / 6) % 16 * 16 + sextet(bytes, 8 * k / 6 + 1) / 4
        } else {
            sextet(bytes, 8 * k / 6) % 4 * 64 + sextet(bytes, 8 * k / 6 + 1)
        },
{
    let m = k / 3;
    let i = 8 * k / 6;
    let b = bytes[k];
    let next: u8 = if k + 1 < bytes.len() { bytes[k + 1] } else { 0 };
    if k % 3 == 0 {
        assert(k == 3 * m && i == 4 * m);
        assert(6 * i / 8 == k && 6 * i % 8 == 0);
        assert(6 * (i + 1) / 8 == k && 6 * (i + 1) % 8 == 6);
        lemma_first_of_three(b, next);
    } else if k % 3 == 1 {
        assert(k == 3 * m + 1 && i == 4 * m + 1);
        assert(6 * i / 8 == k - 1 && 6 * i % 8 == 6);
        assert(6 * (i + 1) / 8 == k && 6 * (i + 1) % 8 == 4);
        lemma_second_of_three(bytes[k - 1], b, next);
    } else {
        assert(k == 3 * m + 2 && i == 4 * m + 2);
        assert(6 * i / 8 == k - 1 && 6 * i % 8 == 4);
        assert(6 * (i + 1) / 8 == k && 6 * (i + 1) % 8 == 2);
        lemma_third_of_three(bytes[k - 1], b, next);
    }
}

/// Bytes with equal groups of six bits are equal.
proof fn lemma_sextets_determine_bytes(a: Seq<u8>, b: Seq<u8>)
    requires
        a.len() == b.len(),
        forall|i: int|
            0 <= i < sextet_count(a.len() as int) ==> #[trigger] sextet(a, i) == sextet(b, i),
    ensures
        a == b,
{
    assert forall|k: int| 0 <= k < a.len() implies a[k] == b[k] by {
        lemma_byte_from_sextets(a, k);
        lemma_byte_from_sextets(b, k);
        let i = 8 * k / 6;
        assert(sextet(a, i) == sextet(b, i));
        assert(sextet(a, i + 1) == sextet(b, i + 1));
    }
    assert(a =~= b);
}

/// Two texts in the URL-safe alphabet are equal only if the bytes are: no bit
/// of a random token is lost in its text.
pub proof fn law_base64_url_keeps_the_bytes(a: Seq<u8>, b: Seq<u8>)
    requires
        base64_url(a) == base64_url(b),
    ensures
        a == b,
{
    let x = base64_url(a);
    let y = base64_url(b);
    assert(x.len() == y.len());
    assert(a.len() == b.len());
    assert forall|i: int| 0 <= i < sextet_count(a.len() as int) implies #[trigger] sextet(a, i)
        == sextet(b, i) by {
        lemma_sextet_bounds(a, i);
        lemma_sextet_bounds(b, i);
        assert(x[i] == y[i]);
    }
    lemma_sextets_determine_bytes(a, b);
}

/// Two texts in the standard alphabet are equal only if the bytes are: equal
/// signatures are signatures with equal codes.
pub proof fn law_base64_standard_keeps_the_bytes(a: Seq<u8>, b: Seq<u8>)
    requires
        base64_standard(a) == base64_standard(b),
    ensures
        a == b,
{
    let x = base64_standard(a);
    let y = base64_standard(b);
    let n = sextet_count(a.len() as int);
    let m = sextet_count(b.len() as int);
    if n < m {
        lemma_sextet_bounds(b, n);
        assert(x[n] == '=' && y[n] != '=');
    } else if m < n {
        lemma_sextet_bounds(a, m);
        assert(y[m] == '=' && x[m] != '=');
    }
    assert(a.len() == b.len());
    assert forall|i: int| 0 <= i < sextet_count(a.len() as int) implies #[trigger] sextet(a, i)
        == sextet(b, i) by {
        lemma_sextet_bounds(a, i);
        lemma_sextet_bounds(b, i);
        assert(x[i] == y[i]);
    }
    lemma_sextets_determine_bytes(a, b);
}

/// Whether a character belongs to the URL-safe base64 alphabet.
pub open spec fn url_safe(c: char) -> bool {
    ||| 'A' <= c <= 'Z'
    ||| 'a' <= c <= 'z'
    ||| '0' <= c <= '9'
    ||| c == '-'
    ||| c == '_'
}

/// The URL-safe text of some bytes holds letters, digits, `-` and `_` only.
pub proof fn law_base64_url_alphabet(bytes: Seq<u8>)
    ensures
        base64_url(bytes).len() == sextet_count(bytes.len() as int),
        forall|i: int| 0 <= i < base64_url(bytes).len() ==> url_safe(#[trigger] base64_url(bytes)[i]),
{
    assert forall|i: int| 0 <= i < base64_url(bytes).len() implies url_safe(
        #[trigger] base64_url(bytes)[i],
    ) by {
        lemma_sextet_bounds(bytes, i);
    }
}

}
