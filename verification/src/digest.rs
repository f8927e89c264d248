//! Fingerprints of release files: the SHA-256 digest of the contents, written
//! as lower case hexadecimal.
use vstd::prelude::*;
use crate::text::push_char;
use sha2::Digest;

verus! {

/// What `sha2::Sha256` computes for a sequence of bytes.
pub uninterp spec fn sha256_of(data: Seq<u8>) -> Seq<u8>;

/// The SHA-256 digest of some bytes.
///
/// Trusted: calls `sha2::Sha256::digest`, whose result is named `sha256_of`;
/// its output size is 32 bytes.
#[verifier::external_body]
fn sha256(data: &[u8]) -> (r: Vec<u8>)
    ensures
        r@ == sha256_of(data@),
        r@.len() == 32,
{
    sha2::Sha256::digest(data).to_vec()
}

/// The lower case hexadecimal digit of a value below 16.
pub open spec fn hex_digit(d: nat) -> char {
    if d == 0 { '0' }
    else if d == 1 { '1' }
    else if d == 2 { '2' }
    else if d == 3 { '3' }
    else if d == 4 { '4' }
    else if d == 5 { '5' }
    else if d == 6 { '6' }
    else if d == 7 { '7' }
    else if d == 8 { '8' }
    else if d == 9 { '9' }
    else if d == 10 { 'a' }
    else if d == 11 { 'b' }
    else if d == 12 { 'c' }
    else if d == 13 { 'd' }
    else if d == 14 { 'e' }
    else { 'f' }
}

/// Bytes written as lower case hexadecimal, two digits per byte, high nibble
/// first (what `{:x}` prints for a digest).
pub open spec fn lower_hex_of(data: Seq<u8>) -> Seq<char>
    decreases data.len(),
{
    if data.len() == 0 {
        Seq::empty()
    } else {
        lower_hex_of(data.drop_last()).push(hex_digit((data.last() / 16) as nat)).push(
            hex_digit((data.last() % 16) as nat),
        )
    }
}

fn nibble_char(d: u8) -> (c: char)
    requires
        d < 16,
    ensures
        c == hex_digit(d as nat),
{
    match d {
        0 => '0',
        1 => '1',
        2 => '2',
        3 => '3',
        4 => '4',
        5 => '5',
        6 => '6',
        7 => '7',
        8 => '8',
        9 => '9',
        10 => 'a',
        11 => 'b',
        12 => 'c',
        13 => 'd',
        14 => 'e',
        _ => 'f',
    }
}

/// Writes bytes as lower case hexadecimal.
pub fn lower_hex(data: &[u8]) -> (r: String)
    ensures
        r@ == lower_hex_of(data@),
{
    let mut r = String::new();
    let mut i: usize = 0;
    while i < data.len()
        invariant
            i <= data.len(),
            r@ == lower_hex_of(data@.take(i as int)),
        decreases data.len() - i,
    {
        let b = data[i];
        push_char(&mut r, nibble_char(b / 16));
        push_char(&mut r, nibble_char(b % 16));
        proof {
            assert(data@.take(i + 1).drop_last() =~= data@.take(i as int));
        }
        i = i + 1;
    }
    assert(data@.take(data.len() as int) =~= data@);
    r
}

/// The value of a lower case hexadecimal digit.
pub open spec fn hex_value(c: char) -> nat {
    if c == '0' { 0 }
    else if c == '1' { 1 }
    else if c == '2' { 2 }
    else if c == '3' { 3 }
    else if c == '4' { 4 }
    else if c == '5' { 5 }
    else if c == '6' { 6 }
    else if c == '7' { 7 }
    else if c == '8' { 8 }
    else if c == '9' { 9 }
    else if c == 'a' { 10 }
    else if c == 'b' { 11 }
    else if c == 'c' { 12 }
    else if c == 'd' { 13 }
    else if c == 'e' { 14 }
    else { 15 }
}

/// Whether a character is a lower case hexadecimal digit.
pub open spec fn is_lower_hex_digit(c: char) -> bool {
    ('0' <= c && c <= '9') || ('a' <= c && c <= 'f')
}

proof fn lemma_hex_digit(d: nat)
    requires
        d < 16,
    ensures
        hex_value(hex_digit(d)) == d,
        is_lower_hex_digit(hex_digit(d)),
{
}

/// Hexadecimal text has two lower case digits per byte, and reading each pair
/// of digits back gives the byte: different bytes are never written alike.
pub proof fn law_lower_hex_round_trip(data: Seq<u8>)
    ensures
        lower_hex_of(data).len() == 2 * data.len(),
        forall|i: int| 0 <= i < lower_hex_of(data).len() ==> #[trigger] is_lower_hex_digit(
            lower_hex_of(data)[i],
        ),
        forall|i: int|
            0 <= i < data.len() ==> 16 * hex_value(#[trigger] lower_hex_of(data)[2 * i])
                + hex_value(lower_hex_of(data)[2 * i + 1]) == data[i],
    decreases data.len(),
{
    if data.len() > 0 {
        let rest = data.drop_last();
        law_lower_hex_round_trip(rest);
        let b = data.last();
        lemma_hex_digit((b / 16) as nat);
        lemma_hex_digit((b % 16) as nat);
        let h = lower_hex_of(data);
        assert forall|i: int| 0 <= i < h.len() implies #[trigger] is_lower_hex_digit(h[i]) by {
            if i < lower_hex_of(rest).len() {
                assert(h[i] == lower_hex_of(rest)[i]);
            }
        }
        assert forall|i: int| 0 <= i < data.len() implies 16 * hex_value(#[trigger] h[2 * i])
            + hex_value(h[2 * i + 1]) == data[i] by {
            if i < rest.len() {
                assert(h[2 * i] == lower_hex_of(rest)[2 * i]);
                assert(h[2 * i + 1] == lower_hex_of(rest)[2 * i + 1]);
                assert(data[i] == rest[i]);
            }
        }
    }
}

/// Different byte sequences have different hexadecimal texts.
pub proof fn law_lower_hex_injective(a: Seq<u8>, b: Seq<u8>)
    requires
        lower_hex_of(a) == lower_hex_of(b),
    ensures
        a == b,
{
    law_lower_hex_round_trip(a);
    law_lower_hex_round_trip(b);
    assert(a.len() == b.len());
    assert forall|i: int| 0 <= i < a.len() implies a[i] == b[i] by {
        assert(lower_hex_of(a)[2 * i] == lower_hex_of(b)[2 * i]);
        assert(lower_hex_of(a)[2 * i + 1] == lower_hex_of(b)[2 * i + 1]);
        assert(16 * hex_value(lower_hex_of(a)[2 * i]) + hex_value(lower_hex_of(a)[2 * i + 1]) == a[i]);
        assert(16 * hex_value(lower_hex_of(b)[2 * i]) + hex_value(lower_hex_of(b)[2 * i + 1]) == b[i]);
    }
    assert(a =~= b);
}

/// The fingerprint stored for a release file: the SHA-256 digest of its
/// contents in lower case hexadecimal.
pub open spec fn fingerprint_of(contents: Seq<u8>) -> Seq<char> {
    lower_hex_of(sha256_of(contents))
}

/// The fingerprint of a release file's contents.
pub fn fingerprint(contents: &[u8]) -> (r: String)
    ensures
        r@ == fingerprint_of(contents@),
        r@.len() == 64,
{
    let digest = sha256(contents);
    let r = lower_hex(digest.as_slice());
    proof {
        law_lower_hex_round_trip(digest@);
    }
    r
}

/// A file's fingerprint is the hexadecimal text of the SHA-256 digest of the
/// whole of its contents: two lower case digits per digest byte, each pair
/// reading back as that byte of the digest.
pub proof fn law_fingerprint_is_digest_of_whole_contents(contents: Seq<u8>)
    ensures
        fingerprint_of(contents).len() == 2 * sha256_of(contents).len(),
        forall|i: int|
            0 <= i < fingerprint_of(contents).len() ==> #[trigger] is_lower_hex_digit(
                fingerprint_of(contents)[i],
            ),
        forall|i: int|
            0 <= i < sha256_of(contents).len() ==> 16 * hex_value(
                #[trigger] fingerprint_of(contents)[2 * i],
            ) + hex_value(fingerprint_of(contents)[2 * i + 1]) == sha256_of(contents)[i],
{
    law_lower_hex_round_trip(sha256_of(contents));
}

/// Contents whose digests differ get different fingerprints.
pub proof fn law_fingerprint_tells_digests_apart(a: Seq<u8>, b: Seq<u8>)
    requires
        sha256_of(a) != sha256_of(b),
    ensures
        fingerprint_of(a) != fingerprint_of(b),
{
    if fingerprint_of(a) == fingerprint_of(b) {
        law_fingerprint_is_digest_of_whole_contents(a);
        law_fingerprint_is_digest_of_whole_contents(b);
        law_lower_hex_injective(sha256_of(a), sha256_of(b));
    }
}

} // verus!
