//! What the signature is sensitive to.
//!
//! The digest and the keyed hash stand here for functions of which nothing
//! is known but their names, so nothing can be said of when two of their
//! values differ. What can be said is that the texts around them lose
//! nothing: a change of the body reaches the signature unless the digest or
//! the keyed hash gives one value for two of the texts on its way.

use crate::canonical::{
    canonical_headers_text, signed_names_text, string_to_sign_text, ALGORITHM,
};
use crate::derivers::{
    derived_headers, request_headers, request_scope, request_signature, request_text,
    AWSArgsView,
};
use crate::signers::{hmac_sha256, sha256, sha256_hex_text, signature_text, signing_key};
use crate::text::{hex_digit_char, hex_text};
use crate::timestamp::{amz_date_text, date_stamp_text, Timestamp};
use vstd::prelude::*;
use vstd::utf8::{encode_utf8, encode_utf8_decode_utf8};

verus! {

/// Whether the digest tells `a` from `b`: it gives them different values
/// where they differ.
pub open spec fn digest_tells_apart(a: Seq<u8>, b: Seq<u8>) -> bool {
    a != b ==> sha256(a) != sha256(b)
}

/// Whether the keyed hash under `key` tells `a` from `b`: it gives them
/// different values where they differ.
pub open spec fn code_tells_apart(key: Seq<u8>, a: Seq<u8>, b: Seq<u8>) -> bool {
    a != b ==> hmac_sha256(key, a) != hmac_sha256(key, b)
}

/// The index of the last `c` in `s`; -1 where it holds none.
pub open spec fn last_index_of(s: Seq<char>, c: char) -> int
    decreases s.len(),
{
    if s.len() == 0 {
        -1
    } else if s.last() == c {
        s.len() - 1
    } else {
        last_index_of(s.drop_last(), c)
    }
}

/// Whether `c` is a hexadecimal digit with small letters.
pub open spec fn is_hex_digit(c: char) -> bool {
    ('0' <= c <= '9') || ('a' <= c <= 'f')
}

/// Hexadecimal text is made of hexadecimal digits, two for each byte.
pub proof fn lemma_hex_text_is_digits(bytes: Seq<u8>)
    ensures
        hex_text(bytes).len() == 2 * bytes.len(),
        forall|i: int| 0 <= i < hex_text(bytes).len() ==> is_hex_digit(#[trigger] hex_text(bytes)[i]),
{
    assert forall|i: int| 0 <= i < hex_text(bytes).len() implies is_hex_digit(
        #[trigger] hex_text(bytes)[i],
    ) by {
        let b = bytes[i / 2] as int;
        assert(0 <= b / 16 < 16);
        assert(0 <= b % 16 < 16);
    }
}

/// Different bytes have different hexadecimal texts.
pub proof fn lemma_hex_text_is_injective(a: Seq<u8>, b: Seq<u8>)
    requires
        hex_text(a) == hex_text(b),
    ensures
        a == b,
{
    assert(hex_text(a).len() == 2 * a.len());
    assert(hex_text(b).len() == 2 * b.len());
    assert(a.len() == b.len());
    assert forall|i: int| 0 <= i < a.len() implies a[i] == b[i] by {
        let x = a[i] as int;
        let y = b[i] as int;
        assert(hex_text(a)[2 * i] == hex_digit_char(x / 16));
        assert(hex_text(b)[2 * i] == hex_digit_char(y / 16));
        assert(hex_text(a)[2 * i + 1] == hex_digit_char(x % 16));
        assert(hex_text(b)[2 * i + 1] == hex_digit_char(y % 16));
        assert(0 <= x / 16 < 16 && 0 <= y / 16 < 16);
        assert(0 <= x % 16 < 16 && 0 <= y % 16 < 16);
        assert(x / 16 == y / 16);
        assert(x % 16 == y % 16);
    }
    assert(a =~= b);
}

/// Different texts have different bytes in UTF-8.
pub proof fn lemma_utf8_is_injective(a: Seq<char>, b: Seq<char>)
    requires
        encode_utf8(a) == encode_utf8(b),
    ensures
        a == b,
{
    encode_utf8_decode_utf8(a);
    encode_utf8_decode_utf8(b);
}

/// The last `c` of a text stands where the text after it holds none.
pub proof fn lemma_last_index_before_tail(head: Seq<char>, c: char, tail: Seq<char>)
    requires
        !tail.contains(c),
    ensures
        last_index_of(head + seq![c] + tail, c) == head.len(),
    decreases tail.len(),
{
    let s = head + seq![c] + tail;
    if tail.len() == 0 {
        assert(s.last() == c);
    } else {
        assert(tail.contains(tail.last()));
        assert(s.last() == tail.last());
        let shorter = tail.drop_last();
        assert forall|i: int| 0 <= i < shorter.len() implies shorter[i] != c by {
            assert(tail.contains(tail[i]));
        }
        assert(s.drop_last() =~= head + seq![c] + shorter);
        lemma_last_index_before_tail(head, c, shorter);
    }
}

/// A text is taken apart at its last `c` in one way only: two texts that
/// end in tails without `c` behind a `c` are equal only where the tails are.
pub proof fn lemma_tail_is_read_back(
    head: Seq<char>,
    tail: Seq<char>,
    other_head: Seq<char>,
    other_tail: Seq<char>,
    c: char,
)
    requires
        !tail.contains(c),
        !other_tail.contains(c),
        head + seq![c] + tail == other_head + seq![c] + other_tail,
    ensures
        tail == other_tail,
        head == other_head,
{
    let s = head + seq![c] + tail;
    let t = other_head + seq![c] + other_tail;
    lemma_last_index_before_tail(head, c, tail);
    lemma_last_index_before_tail(other_head, c, other_tail);
    assert(head.len() == other_head.len());
    assert(s.skip(head.len() as int + 1) =~= tail);
    assert(t.skip(other_head.len() as int + 1) =~= other_tail);
    assert(s.take(head.len() as int) =~= head);
    assert(t.take(other_head.len() as int) =~= other_head);
}

/// Hexadecimal text holds neither a line feed nor an equals sign.
pub proof fn lemma_hex_text_holds_no_mark(bytes: Seq<u8>)
    ensures
        !hex_text(bytes).contains('\n'),
        !hex_text(bytes).contains('='),
{
    lemma_hex_text_is_digits(bytes);
}

/// A change of the body reaches the signature and the authorization
/// header: two requests at one instant that differ in their bodies alone
/// have different signatures, unless the digest gives one value for the two
/// bodies or for the two canonical requests, or the keyed hash gives one
/// value for the two texts that are signed.
pub proof fn lemma_signature_follows_the_payload(
    first: AWSArgsView,
    second: AWSArgsView,
    now: Timestamp,
)
    requires
        first.payload != second.payload,
        second == (AWSArgsView { payload: second.payload, ..first }),
        digest_tells_apart(encode_utf8(first.payload), encode_utf8(second.payload)),
        digest_tells_apart(
            encode_utf8(request_text(first, now)),
            encode_utf8(request_text(second, now)),
        ),
        code_tells_apart(
            signing_key(first.secret_access_key, date_stamp_text(now), first.region, first.service),
            encode_utf8(
                string_to_sign_text(
                    amz_date_text(now),
                    request_scope(first, now),
                    sha256_hex_text(request_text(first, now)),
                ),
            ),
            encode_utf8(
                string_to_sign_text(
                    amz_date_text(now),
                    request_scope(second, now),
                    sha256_hex_text(request_text(second, now)),
                ),
            ),
        ),
    ensures
        request_signature(first, now) != request_signature(second, now),
        derived_headers(first, now).authorization != derived_headers(second, now).authorization,
{
    let key = signing_key(
        first.secret_access_key,
        date_stamp_text(now),
        first.region,
        first.service,
    );
    let amz_date = amz_date_text(now);
    let scope = request_scope(first, now);
    assert(scope == request_scope(second, now));
    let mark = seq!['\n'];

    // The bodies have different digests, so different digest texts.
    let body_a = sha256(encode_utf8(first.payload));
    let body_b = sha256(encode_utf8(second.payload));
    if encode_utf8(first.payload) == encode_utf8(second.payload) {
        lemma_utf8_is_injective(first.payload, second.payload);
    }
    assert(body_a != body_b);
    if hex_text(body_a) == hex_text(body_b) {
        lemma_hex_text_is_injective(body_a, body_b);
    }
    assert(sha256_hex_text(first.payload) != sha256_hex_text(second.payload));

    // The digest text is the last line of the canonical request.
    let request_a = request_text(first, now);
    let request_b = request_text(second, now);
    lemma_hex_text_holds_no_mark(body_a);
    lemma_hex_text_holds_no_mark(body_b);
    if request_a == request_b {
        let headers_a = request_headers(encode_utf8(first.payload).len(), first.host, amz_date);
        let headers_b = request_headers(encode_utf8(second.payload).len(), first.host, amz_date);
        let head_a = first.method + mark + first.canonical_uri + mark + Seq::<char>::empty() + mark
            + canonical_headers_text(headers_a) + mark
            + signed_names_text(headers_a);
        let head_b = first.method + mark + first.canonical_uri + mark + Seq::<char>::empty() + mark
            + canonical_headers_text(headers_b) + mark
            + signed_names_text(headers_b);
        assert(request_a == head_a + mark + hex_text(body_a));
        assert(request_b == head_b + mark + hex_text(body_b));
        lemma_tail_is_read_back(head_a, hex_text(body_a), head_b, hex_text(body_b), '\n');
    }
    assert(request_a != request_b);

    // The canonical requests have different digests, so different digest texts.
    let digest_a = sha256(encode_utf8(request_a));
    let digest_b = sha256(encode_utf8(request_b));
    if encode_utf8(request_a) == encode_utf8(request_b) {
        lemma_utf8_is_injective(request_a, request_b);
    }
    assert(digest_a != digest_b);
    if hex_text(digest_a) == hex_text(digest_b) {
        lemma_hex_text_is_injective(digest_a, digest_b);
    }

    // That digest text is the last line of the text that is signed.
    let signed_a = string_to_sign_text(amz_date, scope, hex_text(digest_a));
    let signed_b = string_to_sign_text(amz_date, scope, hex_text(digest_b));
    lemma_hex_text_holds_no_mark(digest_a);
    lemma_hex_text_holds_no_mark(digest_b);
    if signed_a == signed_b {
        let head = ALGORITHM@ + mark + amz_date + mark + scope;
        assert(signed_a == head + mark + hex_text(digest_a));
        assert(signed_b == head + mark + hex_text(digest_b));
        lemma_tail_is_read_back(head, hex_text(digest_a), head, hex_text(digest_b), '\n');
    }
    assert(signed_a != signed_b);

    // The texts that are signed have different codes, so different signatures.
    let code_a = hmac_sha256(key, encode_utf8(signed_a));
    let code_b = hmac_sha256(key, encode_utf8(signed_b));
    if encode_utf8(signed_a) == encode_utf8(signed_b) {
        lemma_utf8_is_injective(signed_a, signed_b);
    }
    assert(code_a != code_b);
    if hex_text(code_a) == hex_text(code_b) {
        lemma_hex_text_is_injective(code_a, code_b);
    }
    assert(request_signature(first, now) == hex_text(code_a));
    assert(request_signature(second, now) == hex_text(code_b));
    assert(signature_text(key, signed_a) == hex_text(code_a));

    // The signature is what follows the last equals sign of the header.
    let authorization_a = derived_headers(first, now).authorization;
    let authorization_b = derived_headers(second, now).authorization;
    lemma_hex_text_holds_no_mark(code_a);
    lemma_hex_text_holds_no_mark(code_b);
    if authorization_a == authorization_b {
        reveal_strlit(", Signature=");
        reveal_strlit(", Signature");
        let names_a = signed_names_text(
            request_headers(encode_utf8(first.payload).len(), first.host, amz_date),
        );
        let names_b = signed_names_text(
            request_headers(encode_utf8(second.payload).len(), first.host, amz_date),
        );
        let start = ALGORITHM@ + " Credential="@ + first.access_key + seq!['/']
            + scope + ", SignedHeaders="@;
        let head_a = start + names_a + ", Signature"@;
        let head_b = start + names_b + ", Signature"@;
        assert(", Signature="@ =~= ", Signature"@ + seq!['=']);
        assert(authorization_a =~= head_a + seq!['='] + hex_text(code_a));
        assert(authorization_b =~= head_b + seq!['='] + hex_text(code_b));
        lemma_tail_is_read_back(head_a, hex_text(code_a), head_b, hex_text(code_b), '=');
    }
}

} // verus!
