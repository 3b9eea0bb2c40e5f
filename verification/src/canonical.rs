//! The canonical text of a request and the texts assembled around it.
//!
//! Every text here is fixed to the character: the order of the lines, the
//! case of the header names and each separator enter the signature.

use crate::signers::{sha256_hex, sha256_hex_text, SCOPE_TERMINATOR};
use crate::text::{ascii_lower_text, push_ascii_lower};
use vstd::prelude::*;
use vstd::string::StringExecFns;

verus! {

/// The name of the signature scheme.
pub const ALGORITHM: &'static str = "AWS4-HMAC-SHA256";

/// A header that takes part in the signature, with its current value.
#[derive(Debug, PartialEq, Eq)]
pub struct SignedHeader {
    pub name: String,
    pub value: String,
}

/// What a `SignedHeader` stands for.
pub struct SignedHeaderView {
    pub name: Seq<char>,
    pub value: Seq<char>,
}

impl View for SignedHeader {
    type V = SignedHeaderView;

    open spec fn view(&self) -> SignedHeaderView {
        SignedHeaderView { name: self.name@, value: self.value@ }
    }
}

/// The headers of `headers`, each as what it stands for, in their order.
pub open spec fn header_views(headers: Seq<SignedHeader>) -> Seq<SignedHeaderView> {
    headers.map_values(|h: SignedHeader| h@)
}

/// The line of one header in the canonical block: the name in small
/// letters, a colon, the value, a line feed.
pub open spec fn canonical_header_line(header: SignedHeaderView) -> Seq<char> {
    ascii_lower_text(header.name) + seq![':'] + header.value + seq!['\n']
}

/// The canonical block: the line of each header, in the order of `headers`.
pub open spec fn canonical_headers_text(headers: Seq<SignedHeaderView>) -> Seq<char>
    decreases headers.len(),
{
    if headers.len() == 0 {
        Seq::empty()
    } else {
        canonical_headers_text(headers.drop_last()) + canonical_header_line(headers.last())
    }
}

/// The names of `headers` in small letters, in their order, with a
/// semicolon between each two.
pub open spec fn signed_names_text(headers: Seq<SignedHeaderView>) -> Seq<char>
    decreases headers.len(),
{
    if headers.len() == 0 {
        Seq::empty()
    } else if headers.len() == 1 {
        ascii_lower_text(headers.last().name)
    } else {
        signed_names_text(headers.drop_last()) + seq![';'] + ascii_lower_text(headers.last().name)
    }
}

/// The canonical request: method, path, query, the canonical block, the
/// signed names and the digest of the body, each on a line of its own. The
/// block ends in a line feed itself, so an empty line follows it.
pub open spec fn canonical_request_text(
    method: Seq<char>,
    uri: Seq<char>,
    query: Seq<char>,
    headers: Seq<SignedHeaderView>,
    payload_hash: Seq<char>,
) -> Seq<char> {
    method + seq!['\n'] + uri + seq!['\n'] + query + seq!['\n'] + canonical_headers_text(headers)
        + seq!['\n'] + signed_names_text(headers) + seq!['\n'] + payload_hash
}

/// The credential scope: date, region, service and the terminator, with a
/// slash between each two.
pub open spec fn credential_scope_text(
    date_stamp: Seq<char>,
    region: Seq<char>,
    service: Seq<char>,
) -> Seq<char> {
    date_stamp + seq!['/'] + region + seq!['/'] + service + seq!['/'] + SCOPE_TERMINATOR@
}

/// The text that is signed: scheme, instant, scope and the digest of the
/// canonical request, each on a line of its own.
pub open spec fn string_to_sign_text(
    amz_date: Seq<char>,
    scope: Seq<char>,
    request_hash: Seq<char>,
) -> Seq<char> {
    ALGORITHM@ + seq!['\n'] + amz_date + seq!['\n'] + scope + seq!['\n'] + request_hash
}

/// The value of the authorization header.
pub open spec fn authorization_text(
    access_key: Seq<char>,
    scope: Seq<char>,
    signed_names: Seq<char>,
    signature: Seq<char>,
) -> Seq<char> {
    ALGORITHM@ + " Credential="@ + access_key + seq!['/'] + scope + ", SignedHeaders="@
        + signed_names + ", Signature="@ + signature
}

/// Writes the canonical block of `headers`.
pub fn canonical_headers(headers: &Vec<SignedHeader>) -> (block: String)
    ensures
        block@ == canonical_headers_text(header_views(headers@)),
{
    let ghost views = header_views(headers@);
    let mut block = String::new();
    let mut i: usize = 0;
    while i < headers.len()
        invariant
            i <= headers.len(),
            views == header_views(headers@),
            block@ == canonical_headers_text(views.take(i as int)),
        decreases headers.len() - i,
    {
        assert(views.take(i + 1).drop_last() == views.take(i as int));
        push_ascii_lower(&mut block, headers[i].name.as_str());
        block.push(':');
        block.append(headers[i].value.as_str());
        block.push('\n');
        i += 1;
    }
    assert(views.take(i as int) == views);
    block
}

/// Writes the names of `headers`, joined by semicolons.
pub fn signed_header_names(headers: &Vec<SignedHeader>) -> (names: String)
    ensures
        names@ == signed_names_text(header_views(headers@)),
{
    let ghost views = header_views(headers@);
    let mut names = String::new();
    let mut i: usize = 0;
    while i < headers.len()
        invariant
            i <= headers.len(),
            views == header_views(headers@),
            names@ == signed_names_text(views.take(i as int)),
        decreases headers.len() - i,
    {
        assert(views.take(i + 1).drop_last() == views.take(i as int));
        if i > 0 {
            names.push(';');
        }
        push_ascii_lower(&mut names, headers[i].name.as_str());
        i += 1;
    }
    assert(views.take(i as int) == views);
    names
}

/// Writes the canonical request around a body digest that is already known.
pub fn canonical_request_with_hash(
    method: &str,
    uri: &str,
    query: &str,
    headers: &Vec<SignedHeader>,
    payload_hash: &str,
) -> (request: String)
    ensures
        request@ == canonical_request_text(
            method@,
            uri@,
            query@,
            header_views(headers@),
            payload_hash@,
        ),
{
    let block = canonical_headers(headers);
    let names = signed_header_names(headers);
    let mut request = String::from_str(method);
    request.push('\n');
    request.append(uri);
    request.push('\n');
    request.append(query);
    request.push('\n');
    request.append(block.as_str());
    request.push('\n');
    request.append(names.as_str());
    request.push('\n');
    request.append(payload_hash);
    request
}

/// Writes the canonical request of a body: digests the body, then writes
/// the request around the digest.
pub fn canonical_request(
    method: &str,
    uri: &str,
    query: &str,
    headers: &Vec<SignedHeader>,
    payload: &str,
) -> (request: String)
    ensures
        request@ == canonical_request_text(
            method@,
            uri@,
            query@,
            header_views(headers@),
            sha256_hex_text(payload@),
        ),
{
    let payload_hash = sha256_hex(payload);
    canonical_request_with_hash(method, uri, query, headers, payload_hash.as_str())
}

/// Writes the credential scope.
pub fn credential_scope(date_stamp: &str, region: &str, service: &str) -> (scope: String)
    ensures
        scope@ == credential_scope_text(date_stamp@, region@, service@),
{
    let mut scope = String::from_str(date_stamp);
    scope.push('/');
    scope.append(region);
    scope.push('/');
    scope.append(service);
    scope.push('/');
    scope.append(SCOPE_TERMINATOR);
    scope
}

/// Writes the text that is signed.
pub fn string_to_sign(amz_date: &str, scope: &str, request_hash: &str) -> (text: String)
    ensures
        text@ == string_to_sign_text(amz_date@, scope@, request_hash@),
{
    let mut text = String::from_str(ALGORITHM);
    text.push('\n');
    text.append(amz_date);
    text.push('\n');
    text.append(scope);
    text.push('\n');
    text.append(request_hash);
    text
}

/// Writes the value of the authorization header.
pub fn authorization_header(
    access_key: &str,
    scope: &str,
    signed_names: &str,
    signature: &str,
) -> (value: String)
    ensures
        value@ == authorization_text(access_key@, scope@, signed_names@, signature@),
{
    let mut value = String::from_str(ALGORITHM);
    value.append(" Credential=");
    value.append(access_key);
    value.push('/');
    value.append(scope);
    value.append(", SignedHeaders=");
    value.append(signed_names);
    value.append(", Signature=");
    value.append(signature);
    value
}

} // verus!
