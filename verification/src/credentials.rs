use crate::text::joined_text;
use vstd::prelude::*;
use vstd::string::*;
use vstd::utf8::encode_utf8;

verus! {

/// The error of the `serde_json` crate, carried through as it comes.
#[verifier::external_type_specification]
#[verifier::external_body]
pub struct ExJsonError(serde_json::Error);

/// What the `base64` crate's standard engine, with padding, makes of bytes.
pub uninterp spec fn base64_standard(bytes: Seq<u8>) -> Seq<char>;

/// What the `serde_json` crate's `to_string` makes of a string: a JSON string
/// literal with its quotes, or `None` where it fails.
pub uninterp spec fn json_string(text: Seq<char>) -> Option<Seq<char>>;

/// Whether bytes are few enough for the length of their base64 form, with
/// padding, to fit in `usize`.
pub open spec fn fits_base64(len: nat) -> bool {
    len / 3 * 4 + 4 <= usize::MAX
}

/// Calls `encode` of `base64::engine::general_purpose::STANDARD`. It panics
/// where the encoded length overflows, which `requires` leaves out. Trusted:
/// the result depends on the bytes alone, so it is `base64_standard` of them.
#[verifier::external_body]
fn encode_base64(bytes: &[u8]) -> (encoded: String)
    requires
        fits_base64(bytes@.len()),
    ensures
        encoded@ == base64_standard(bytes@),
{
    base64::Engine::encode(&base64::engine::general_purpose::STANDARD, bytes)
}

/// Calls `serde_json::to_string` on a string. Trusted: the outcome depends on
/// the string alone, so it is `json_string` of it.
#[verifier::external_body]
fn encode_json_string(text: &str) -> (encoded: Result<String, serde_json::Error>)
    ensures
        match encoded {
            Ok(literal) => json_string(text@) == Some(literal@),
            Err(_) => json_string(text@) is None,
        },
{
    serde_json::to_string(text)
}

/// Why no credentials document could be made.
#[derive(Clone, Copy, Debug, PartialEq, Eq, Structural)]
pub enum CredentialsError {
    /// User name and password are too long to be encoded.
    TooLong,
    /// The registry address or the encoded pair has no JSON form.
    Encoding,
}

/// What a registry is logged in with: the user name, a colon, the password.
pub open spec fn login_pair(username: Seq<char>, password: Seq<char>) -> Seq<char> {
    username + seq![':'] + password
}

/// The credentials document around two JSON string literals: an object
/// `auths` that maps the registry to an object whose `auth` is the encoded
/// pair, with no white space.
pub open spec fn envelope(registry_literal: Seq<char>, auth_literal: Seq<char>) -> Seq<char> {
    "{\"auths\":{"@ + registry_literal + ":{\"auth\":"@ + auth_literal + "}}}"@
}

/// Frames the credentials document around the JSON string literals of the
/// registry address and of the encoded pair.
pub fn frame_credentials(registry_literal: &str, auth_literal: &str) -> (document: String)
    ensures
        document@ == envelope(registry_literal@, auth_literal@),
{
    let mut document = joined_text("{\"auths\":{", registry_literal);
    document.append(":{\"auth\":");
    document.append(auth_literal);
    document.append("}}}");
    document
}

/// The credentials document for a registry, a user name and a password.
pub open spec fn credentials_of(
    registry: Seq<char>,
    username: Seq<char>,
    password: Seq<char>,
) -> Result<Seq<char>, CredentialsError> {
    let bytes = encode_utf8(login_pair(username, password));
    if !fits_base64(bytes.len()) {
        Err(CredentialsError::TooLong)
    } else {
        match (json_string(registry), json_string(base64_standard(bytes))) {
            (Some(registry_literal), Some(auth_literal)) => Ok(
                envelope(registry_literal, auth_literal),
            ),
            _ => Err(CredentialsError::Encoding),
        }
    }
}

/// Makes the credentials document for a registry: the base64 form of
/// `username:password`, inside the registry's entry of a JSON envelope.
pub fn registry_credentials(registry: &str, username: &str, password: &str) -> (made: Result<
    String,
    CredentialsError,
>)
    ensures
        match made {
            Ok(document) => Ok::<Seq<char>, CredentialsError>(document@),
            Err(error) => Err(error),
        } == credentials_of(registry@, username@, password@),
{
    proof {
        reveal_strlit(":");
        assert(":"@ =~= seq![':']);
    }
    let mut pair = joined_text(username, ":");
    pair.append(password);
    let bytes = pair.as_str().as_bytes();
    if bytes.len() / 3 > (usize::MAX - 4) / 4 {
        return Err(CredentialsError::TooLong);
    }
    let encoded = encode_base64(bytes);
    let registry_literal = match encode_json_string(registry) {
        Ok(literal) => literal,
        Err(_) => return Err(CredentialsError::Encoding),
    };
    let auth_literal = match encode_json_string(encoded.as_str()) {
        Ok(literal) => literal,
        Err(_) => return Err(CredentialsError::Encoding),
    };
    Ok(frame_credentials(registry_literal.as_str(), auth_literal.as_str()))
}

} // verus!
