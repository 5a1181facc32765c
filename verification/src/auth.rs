//! Bearer-token authentication.

use vstd::prelude::*;
use vstd::utf8::encode_utf8;

use crate::text::{from_chars, optional_text, to_chars};

verus! {

/// A header map of the `http` crate.
#[verifier::external_type_specification]
#[verifier::external_body]
#[verifier::reject_recursive_types(T)]
pub struct ExHeaderMap<T>(http::HeaderMap<T>);

/// A header value of the `http` crate.
#[verifier::external_type_specification]
#[verifier::external_body]
pub struct ExHeaderValue(http::HeaderValue);

/// The error of `http::HeaderValue::to_str`.
#[verifier::external_type_specification]
#[verifier::external_body]
pub struct ExToStrError(http::header::ToStrError);

/// The fields of a header map: for each name, in lower case, the bytes of its
/// values in the order in which they were added.
pub uninterp spec fn header_fields(headers: http::HeaderMap) -> Map<Seq<char>, Seq<Seq<u8>>>;

/// The bytes of a header value.
pub uninterp spec fn header_value_bytes(value: http::HeaderValue) -> Seq<u8>;

/// A header name in lower case, made of letters and hyphens only.
pub open spec fn lower_case_name(name: Seq<char>) -> bool {
    &&& 0 < name.len() < 64
    &&& forall|i: int|
        0 <= i < name.len() ==> ('a' <= #[trigger] name[i] <= 'z' || name[i] == '-')
}

/// The bytes that `http` counts as visible in a header value.
pub open spec fn visible_ascii(b: u8) -> bool {
    0x20 <= b < 0x7f || b == 0x09
}

/// The bytes, each read as one ASCII character.
pub open spec fn ascii_text(bytes: Seq<u8>) -> Seq<char> {
    bytes.map_values(|b: u8| b as char)
}

/// `http::HeaderMap::get`: the first value under a name, or nothing where the
/// name does not occur.
#[verifier::external_body]
fn first_value<'a>(headers: &'a http::HeaderMap, name: &str) -> (value: Option<
    &'a http::HeaderValue,
>)
    requires
        lower_case_name(name@),
    ensures
        value is Some <==> header_fields(*headers).contains_key(name@),
        value matches Some(v) ==> header_fields(*headers)[name@].len() > 0 && header_value_bytes(*v)
            == header_fields(*headers)[name@][0],
{
    headers.get(name)
}

/// `http::HeaderValue::to_str`: the value as text where all its bytes are
/// visible ASCII, an error otherwise.
pub assume_specification[ http::HeaderValue::to_str ](value: &http::HeaderValue) -> (text: Result<
    &str,
    http::header::ToStrError,
>)
    ensures
        text is Ok <==> (forall|i: int|
            0 <= i < header_value_bytes(*value).len() ==> visible_ascii(
                #[trigger] header_value_bytes(*value)[i],
            )),
        text matches Ok(t) ==> t@ == ascii_text(header_value_bytes(*value)),
;

/// The SHA-256 digest of a byte string.
pub uninterp spec fn sha256_digest(data: Seq<u8>) -> Seq<u8>;

/// `sha2::Sha256::digest`: the SHA-256 digest of the data, which is 32 bytes
/// long.
#[verifier::external_body]
fn sha256(data: &[u8]) -> (digest: Vec<u8>)
    ensures
        digest@ == sha256_digest(data@),
        digest@.len() == 32,
{
    <sha2::Sha256 as sha2::Digest>::digest(data).to_vec()
}

/// `subtle::ConstantTimeEq::ct_eq` on byte slices: tells whether both hold the
/// same bytes, in a time that does not depend on where slices of one length
/// differ.
#[verifier::external_body]
fn same_bytes(a: &[u8], b: &[u8]) -> (same: bool)
    ensures
        same == (a@ == b@),
{
    subtle::ConstantTimeEq::ct_eq(a, b).into()
}

/// The credential in an `Authorization` value: what stands behind `Bearer `,
/// and nothing where the value starts otherwise.
pub open spec fn bearer_credential(authorization: Seq<char>) -> Option<Seq<char>> {
    if "Bearer "@.is_prefix_of(authorization) {
        Some(authorization.skip("Bearer "@.len() as int))
    } else {
        None
    }
}

/// The credential in the raw bytes of an `Authorization` value.
pub open spec fn bearer_credential_in_bytes(value: Seq<u8>) -> Option<Seq<char>> {
    if forall|i: int| 0 <= i < value.len() ==> visible_ascii(#[trigger] value[i]) {
        bearer_credential(ascii_text(value))
    } else {
        None
    }
}

/// The credential that a request presents: the one in the first
/// `Authorization` field.
pub open spec fn presented_token(fields: Map<Seq<char>, Seq<Seq<u8>>>) -> Option<Seq<char>> {
    if fields.contains_key("authorization"@) {
        bearer_credential_in_bytes(fields["authorization"@][0])
    } else {
        None
    }
}

/// Two tokens agree when their SHA-256 digests are equal.
pub open spec fn tokens_agree(provided: Seq<char>, expected: Seq<char>) -> bool {
    sha256_digest(encode_utf8(provided)) == sha256_digest(encode_utf8(expected))
}

/// The credential in an `Authorization` value.
pub fn parse_bearer(authorization: &str) -> (token: Option<String>)
    ensures
        optional_text(token) == bearer_credential(authorization@),
{
    proof {
        reveal_strlit("Bearer ");
    }
    let prefix = to_chars("Bearer ");
    let chars = to_chars(authorization);
    if chars.len() < prefix.len() {
        return None;
    }
    let mut i: usize = 0;
    while i < prefix.len()
        invariant
            i <= prefix.len() <= chars.len(),
            prefix@ == "Bearer "@,
            chars@ == authorization@,
            forall|j: int| 0 <= j < i ==> prefix@[j] == chars@[j],
        decreases prefix.len() - i,
    {
        if chars[i] != prefix[i] {
            assert("Bearer "@[i as int] != authorization@[i as int]);
            assert(!("Bearer "@.is_prefix_of(authorization@)));
            return None;
        }
        i = i + 1;
    }
    assert("Bearer "@ =~= authorization@.take(prefix.len() as int));
    assert("Bearer "@.is_prefix_of(authorization@));
    assert(authorization@.skip(prefix.len() as int) =~= authorization@.subrange(
        prefix.len() as int,
        authorization@.len() as int,
    ));
    Some(from_chars(&chars, prefix.len(), chars.len()))
}

/// The bearer token of a request, if it presents one.
pub fn extract_bearer_token(headers: &http::HeaderMap) -> (token: Option<String>)
    ensures
        optional_text(token) == presented_token(header_fields(*headers)),
{
    proof {
        reveal_strlit("authorization");
    }
    match first_value(headers, "authorization") {
        Some(value) => match value.to_str() {
            Ok(text) => parse_bearer(text),
            Err(_) => None,
        },
        None => None,
    }
}

/// The SHA-256 digest of a token.
pub fn token_digest(token: &str) -> (digest: Vec<u8>)
    ensures
        digest@ == sha256_digest(encode_utf8(token@)),
        digest@.len() == 32,
{
    sha256(token.as_bytes())
}

/// Compares two digests, in a time that does not depend on where they differ.
pub fn digests_match(provided: &[u8], expected: &[u8]) -> (same: bool)
    ensures
        same == (provided@ == expected@),
{
    same_bytes(provided, expected)
}

/// Constant-time bearer-token comparison.
///
/// Both sides are hashed with SHA-256 first, so the comparison runs over two
/// digests of one length: neither the content nor the length of the expected
/// token shows in how long it takes.
pub fn token_matches(provided: &str, expected: &str) -> (accepted: bool)
    ensures
        accepted == tokens_agree(provided@, expected@),
{
    let provided_digest = token_digest(provided);
    let expected_digest = token_digest(expected);
    digests_match(provided_digest.as_slice(), expected_digest.as_slice())
}

/// The expected token itself is always accepted.
pub proof fn exact_token_is_accepted(token: Seq<char>)
    ensures
        tokens_agree(token, token),
{
}

/// A credential written behind `Bearer ` is read back as it was written.
pub proof fn bearer_credential_reads_back(token: Seq<char>)
    ensures
        bearer_credential("Bearer "@ + token) == Some(token),
{
    let value = "Bearer "@ + token;
    assert("Bearer "@ =~= value.take("Bearer "@.len() as int));
    assert(value.skip("Bearer "@.len() as int) =~= token);
}

/// A token is accepted exactly when the SHA-256 digests of all the bytes of both
/// tokens are equal: no part of either is left out of the comparison.
pub proof fn whole_tokens_are_compared(provided: &str, expected: &str, accepted: bool)
    requires
        call_ensures(token_matches, (provided, expected), accepted),
    ensures
        accepted <==> sha256_digest(encode_utf8(provided@)) == sha256_digest(
            encode_utf8(expected@),
        ),
{
}

/// A credential is read from exactly those values that consist of `Bearer `, in
/// this spelling, and that credential.
pub proof fn bearer_scheme_is_exact(
    authorization: &str,
    token: Option<String>,
    credential: Seq<char>,
)
    requires
        call_ensures(parse_bearer, (authorization,), token),
    ensures
        token is Some && token->0@ == credential <==> authorization@ == "Bearer "@ + credential,
{
    if "Bearer "@.is_prefix_of(authorization@) {
        assert(authorization@ =~= "Bearer "@ + authorization@.skip("Bearer "@.len() as int));
    }
    if authorization@ == "Bearer "@ + credential {
        bearer_credential_reads_back(credential);
    }
}

/// A request presents a token exactly when its first `Authorization` field is
/// made of visible ASCII and spells `Bearer ` and that token.
pub proof fn token_stands_in_the_authorization_field(
    headers: &http::HeaderMap,
    token: Option<String>,
    credential: Seq<char>,
)
    requires
        call_ensures(extract_bearer_token, (headers,), token),
    ensures
        token is Some && token->0@ == credential <==> {
            let fields = header_fields(*headers);
            let value = fields["authorization"@][0];
            let text = "Bearer "@ + credential;
            &&& fields.contains_key("authorization"@)
            &&& forall|i: int|
                0 <= i < value.len() ==> (0x20 <= #[trigger] value[i] <= 0x7e || value[i] == 0x09)
            &&& value.len() == text.len()
            &&& forall|i: int| 0 <= i < value.len() ==> #[trigger] value[i] as char == text[i]
        },
{
    let fields = header_fields(*headers);
    let value = fields["authorization"@][0];
    let text = "Bearer "@ + credential;
    bearer_credential_reads_back(credential);
    if "Bearer "@.is_prefix_of(ascii_text(value)) {
        assert(ascii_text(value) =~= "Bearer "@ + ascii_text(value).skip("Bearer "@.len() as int));
    }
    if value.len() == text.len() && forall|i: int|
        0 <= i < value.len() ==> #[trigger] value[i] as char == text[i] {
        assert(ascii_text(value) =~= text);
    }
    if ascii_text(value) == text {
        assert forall|i: int| 0 <= i < value.len() implies #[trigger] value[i] as char
            == text[i] by {
            assert(ascii_text(value)[i] == value[i] as char);
        }
        assert(ascii_text(value).len() == value.len());
    }
}

} // verus!
