//! The Basic-Authentication header value.
//!
//! Credentials are used for one thing only: the text that goes into the
//! `Authorization` header of every request, `Basic ` followed by the base64
//! encoding of `username:password`.

use vstd::prelude::*;
use vstd::string::*;
use vstd::utf8::encode_utf8;

verus! {

/// The base64 encoding of `bytes`, standard alphabet, padded.
pub uninterp spec fn base64_text(bytes: Seq<u8>) -> Seq<char>;

/// The length of the padded base64 encoding of `len` bytes.
pub open spec fn encoded_len(len: nat) -> nat {
    4 * ((len + 2) / 3)
}

/// Whether `c` belongs to the standard base64 alphabet or is its padding.
pub open spec fn is_base64_char(c: char) -> bool {
    ||| 'A' <= c <= 'Z'
    ||| 'a' <= c <= 'z'
    ||| '0' <= c <= '9'
    ||| c == '+'
    ||| c == '/'
    ||| c == '='
}

/// Whether `text` may stand in an HTTP header as it is: printable ASCII only.
pub open spec fn is_header_text(text: Seq<char>) -> bool {
    forall|i: int| 0 <= i < text.len() ==> ' ' <= #[trigger] text[i] <= '~'
}

/// `username:password`, the text that is encoded.
pub open spec fn credentials_text(username: Seq<char>, password: Seq<char>) -> Seq<char> {
    username + seq![':'] + password
}

/// Whether the encoding of these credentials fits in memory.
pub open spec fn credentials_fit(username: Seq<char>, password: Seq<char>) -> bool {
    encoded_len(encode_utf8(credentials_text(username, password)).len()) <= isize::MAX
}

/// The header value for these credentials.
pub open spec fn authorization_text(username: Seq<char>, password: Seq<char>) -> Seq<char> {
    "Basic "@ + base64_text(encode_utf8(credentials_text(username, password)))
}

/// UTF-8 spends at most four bytes on a character.
pub proof fn utf8_len_is_bounded(chars: Seq<char>)
    ensures
        encode_utf8(chars).len() <= 4 * chars.len(),
    decreases chars.len(),
{
    if chars.len() > 0 {
        utf8_len_is_bounded(chars.drop_first());
    }
}

/// Credentials of fewer than 2^28 characters in all always fit.
pub proof fn short_credentials_fit(username: Seq<char>, password: Seq<char>)
    requires
        username.len() + password.len() < 0x1000_0000,
    ensures
        credentials_fit(username, password),
{
    utf8_len_is_bounded(credentials_text(username, password));
}

/// Calls `base64::encode`. Trusted: the result is the crate's standard,
/// padded encoding of `bytes`, and holds no character outside that alphabet.
/// The encoder panics when the encoded length overflows or cannot be
/// allocated; the precondition keeps such inputs away.
#[verifier::external_body]
fn base64_encode(bytes: &[u8]) -> (text: String)
    requires
        encoded_len(bytes@.len()) <= isize::MAX,
    ensures
        text@ == base64_text(bytes@),
        forall|i: int| 0 <= i < text@.len() ==> is_base64_char(#[trigger] text@[i]),
{
    base64::encode(bytes)
}

/// Joins a username and a password with a colon.
pub fn credentials(username: &str, password: &str) -> (text: String)
    ensures
        text@ == credentials_text(username@, password@),
{
    proof {
        reveal_strlit(":");
    }
    let text = String::from_str(username).concat(":").concat(password);
    assert(":"@ =~= seq![':']);
    text
}

/// Puts the scheme in front of already encoded credentials.
pub fn authorization_value(encoded: &str) -> (value: String)
    ensures
        value@ == "Basic "@ + encoded@,
        is_header_text(encoded@) ==> is_header_text(value@),
{
    proof {
        reveal_strlit("Basic ");
    }
    String::from_str("Basic ").concat(encoded)
}

/// The header value for these credentials, or `None` when their encoding
/// would not fit in memory. A value that is returned is printable ASCII, so
/// a header can always be built from it.
pub fn basic_authorization(username: &str, password: &str) -> (value: Option<String>)
    ensures
        credentials_fit(username@, password@) <==> value is Some,
        value matches Some(text) ==> text@ == authorization_text(username@, password@)
            && is_header_text(text@),
{
    let plain = credentials(username, password);
    let bytes = plain.as_str().as_bytes();
    let len: usize = bytes.len();
    let groups: usize = if len % 3 == 0 {
        len / 3
    } else {
        len / 3 + 1
    };
    assert(groups == (len + 2) / 3);
    if groups > (isize::MAX as usize) / 4 {
        return None;
    }
    let encoded = base64_encode(bytes);
    Some(authorization_value(encoded.as_str()))
}

} // verus!
