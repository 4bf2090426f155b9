//! Requests that carry a bearer token.

use crate::error::{AuthError, AuthErrorView, Error, ErrorView};
use tonic::metadata::errors::InvalidMetadataValue;
use tonic::metadata::AsciiMetadataValue;
use vstd::prelude::*;
use vstd::string::StringExecFns;
use vstd::utf8::{encode_scalar, encode_utf8};

verus! {

/// Name of the metadata entry that carries the token.
pub const AUTHORIZATION: &'static str = "authorization";

/// What stands before the token in the entry's value.
pub const BEARER_PREFIX: &'static str = "Bearer ";

/// What the credential provider answered when asked for a token.
#[derive(Clone, Debug, PartialEq, Eq)]
pub enum TokenOutcome {
    /// The provider failed; the text is its own account of it.
    Failed(String),
    /// The provider answered without an access token.
    Missing,
    /// The provider granted this token.
    Granted(String),
}

/// A `TokenOutcome` as a mathematical value.
pub enum TokenOutcomeView {
    Failed(Seq<char>),
    Missing,
    Granted(Seq<char>),
}

impl View for TokenOutcome {
    type V = TokenOutcomeView;

    open spec fn view(&self) -> TokenOutcomeView {
        match self {
            TokenOutcome::Failed(text) => TokenOutcomeView::Failed(text@),
            TokenOutcome::Missing => TokenOutcomeView::Missing,
            TokenOutcome::Granted(token) => TokenOutcomeView::Granted(token@),
        }
    }
}

/// One entry of a request's metadata.
#[derive(Clone, Debug, PartialEq, Eq)]
pub struct MetadataEntry {
    pub key: String,
    pub value: String,
}

/// A payload together with the metadata that authenticates it.
#[derive(Clone, Debug, PartialEq, Eq)]
pub struct AuthenticatedRequest<D> {
    pub metadata: Vec<MetadataEntry>,
    pub payload: D,
}

impl<D> AuthenticatedRequest<D> {
    /// The metadata as a sequence of pairs of key and value.
    pub open spec fn metadata_view(&self) -> Seq<(Seq<char>, Seq<char>)> {
        self.metadata@.map_values(|entry: MetadataEntry| (entry.key@, entry.value@))
    }
}

/// A byte that the value of a metadata entry may hold: any but the control
/// characters, of which only the tab is allowed.
pub open spec fn metadata_byte(b: u8) -> bool {
    (b >= 32 && b != 127) || b == 9
}

/// Bytes that can be the value of a metadata entry.
pub open spec fn metadata_bytes(bytes: Seq<u8>) -> bool {
    forall|i: int| 0 <= i < bytes.len() ==> metadata_byte(#[trigger] bytes[i])
}

/// A character that the value of a metadata entry may hold: any but the
/// control characters, of which only the tab is allowed.
pub open spec fn metadata_char(c: char) -> bool {
    (c as u32 >= 32 && c as u32 != 127) || c as u32 == 9
}

/// Text that can be the value of a metadata entry.
pub open spec fn metadata_text(text: Seq<char>) -> bool {
    forall|i: int| 0 <= i < text.len() ==> metadata_char(#[trigger] text[i])
}

/// The value of the authorization entry for a token.
pub open spec fn bearer(token: Seq<char>) -> Seq<char> {
    BEARER_PREFIX@ + token
}

/// The metadata of a request authenticated by `token`: the authorization
/// entry and no other.
pub open spec fn authorization(token: Seq<char>) -> Seq<(Seq<char>, Seq<char>)> {
    seq![(AUTHORIZATION@, bearer(token))]
}

/// A request authenticated by a token carries exactly one metadata entry: it
/// is named `authorization`, and its value is `Bearer `, then the token.
pub proof fn lemma_authorization_entry(token: Seq<char>)
    ensures
        authorization(token).len() == 1,
        authorization(token)[0].0 == "authorization"@,
        authorization(token)[0].1 == "Bearer "@ + token,
        authorization(token)[0].1.len() == 7 + token.len(),
{
    reveal_strlit("Bearer ");
}

/// Trusted: `tonic::metadata::errors::InvalidMetadataValue`, the error of
/// tonic for text that cannot be the value of a metadata entry. Nothing is
/// claimed of what it holds.
#[verifier::external_type_specification]
#[verifier::external_body]
pub struct ExInvalidMetadataValue(InvalidMetadataValue);

/// Trusted: `AsciiMetadataValue::try_from(&str)` of tonic, whose result is
/// dropped where it is `Ok`. It goes through the bytes of the text and fails
/// if and only if one of them is below 32 and not the tab, or is 127.
#[verifier::external_body]
fn check_metadata_value(text: &str) -> (checked: Result<(), InvalidMetadataValue>)
    ensures
        checked.is_ok() <==> metadata_bytes(encode_utf8(text@)),
{
    AsciiMetadataValue::try_from(text).map(|_| ())
}

proof fn lemma_low_scalar_byte(scalar: u32)
    by (bit_vector)
    requires
        scalar <= 0x7F,
    ensures
        (scalar & 0x7F) as u8 == scalar,
{
}

proof fn lemma_high_scalar_bytes(scalar: u32)
    by (bit_vector)
    ensures
        0xC0u8 | ((scalar >> 6) & 0x1F) as u8 >= 128,
        0xE0u8 | ((scalar >> 12) & 0x0F) as u8 >= 128,
        0xF0u8 | ((scalar >> 18) & 0x7) as u8 >= 128,
        0x80u8 | (scalar & 0x3F) as u8 >= 128,
        0x80u8 | ((scalar >> 6) & 0x3F) as u8 >= 128,
        0x80u8 | ((scalar >> 12) & 0x3F) as u8 >= 128,
{
}

proof fn lemma_metadata_bytes_of_char(c: char)
    ensures
        metadata_bytes(encode_scalar(c as u32)) <==> metadata_char(c),
        encode_scalar(c as u32).len() >= 1,
{
    let scalar = c as u32;
    let bytes = encode_scalar(scalar);
    lemma_high_scalar_bytes(scalar);
    if scalar <= 0x7F {
        lemma_low_scalar_byte(scalar);
        assert(bytes[0] == scalar);
        assert(metadata_bytes(bytes) ==> metadata_byte(bytes[0]));
    } else {
        assert(bytes[0] >= 128);
    }
}

/// Whether text can be the value of a metadata entry can be told from its
/// characters as well as from the bytes of its UTF-8 form.
pub proof fn lemma_metadata_bytes_of_text(text: Seq<char>)
    ensures
        metadata_bytes(encode_utf8(text)) <==> metadata_text(text),
    decreases text.len(),
{
    if text.len() > 0 {
        let first = encode_scalar(text[0] as u32);
        let rest = encode_utf8(text.drop_first());
        lemma_metadata_bytes_of_char(text[0]);
        lemma_metadata_bytes_of_text(text.drop_first());
        assert(encode_utf8(text) == first + rest);
        if metadata_text(text) {
            assert forall|i: int| 0 <= i < text.drop_first().len() implies metadata_char(
                #[trigger] text.drop_first()[i],
            ) by {
                assert(text.drop_first()[i] == text[i + 1]);
            }
            assert forall|i: int| 0 <= i < (first + rest).len() implies metadata_byte(
                #[trigger] (first + rest)[i],
            ) by {
                if i < first.len() {
                    assert((first + rest)[i] == first[i]);
                } else {
                    assert((first + rest)[i] == rest[i - first.len()]);
                }
            }
        }
        if metadata_bytes(first + rest) {
            assert forall|i: int| 0 <= i < first.len() implies metadata_byte(
                #[trigger] first[i],
            ) by {
                assert(first[i] == (first + rest)[i]);
            }
            assert forall|i: int| 0 <= i < rest.len() implies metadata_byte(
                #[trigger] rest[i],
            ) by {
                assert(rest[i] == (first + rest)[i + first.len()]);
            }
            assert forall|i: int| 0 <= i < text.len() implies metadata_char(
                #[trigger] text[i],
            ) by {
                if i > 0 {
                    assert(text[i] == text.drop_first()[i - 1]);
                }
            }
        }
    }
}

/// The value of the authorization entry can be written as metadata if and
/// only if the token itself can.
pub proof fn lemma_bearer_metadata_text(token: Seq<char>)
    ensures
        metadata_text(bearer(token)) <==> metadata_text(token),
{
    reveal_strlit("Bearer ");
    let value = bearer(token);
    let prefix = BEARER_PREFIX@;
    assert(prefix.len() == 7);
    if metadata_text(token) {
        assert forall|i: int| 0 <= i < value.len() implies metadata_char(
            #[trigger] value[i],
        ) by {
            if i >= 7 {
                assert(value[i] == token[i - 7]);
            }
        }
    }
    if metadata_text(value) {
        assert forall|i: int| 0 <= i < token.len() implies metadata_char(
            #[trigger] token[i],
        ) by {
            assert(token[i] == value[i + 7]);
        }
    }
}

/// What `new_request` returns, as a mathematical value: the metadata of the
/// request, or the error.
pub open spec fn request_metadata(outcome: TokenOutcomeView) -> Result<
    Seq<(Seq<char>, Seq<char>)>,
    ErrorView,
> {
    match outcome {
        TokenOutcomeView::Failed(text) => Err(ErrorView::Auth(AuthErrorView::Provider(text))),
        TokenOutcomeView::Missing => Err(ErrorView::Auth(AuthErrorView::MissingAccessToken)),
        TokenOutcomeView::Granted(token) => if metadata_text(token) {
            Ok(authorization(token))
        } else {
            Err(ErrorView::InvalidMetadataValue)
        },
    }
}

/// Wraps `payload` in a request that carries the token which the credential
/// provider answered with. Without a token there is no request: a failure of
/// the provider and an answer without a token are authentication errors, and
/// a token that cannot be written as metadata is an error of its own kind.
pub fn new_request<D>(outcome: TokenOutcome, payload: D) -> (made: Result<
    AuthenticatedRequest<D>,
    Error,
>)
    ensures
        match request_metadata(outcome@) {
            Ok(metadata) => made matches Ok(request) && request.metadata_view() == metadata
                && request.payload == payload,
            Err(error) => made matches Err(e) && e@ == error,
        },
{
    match outcome {
        TokenOutcome::Failed(text) => Err(Error::Auth(AuthError::Provider(text))),
        TokenOutcome::Missing => Err(Error::Auth(AuthError::MissingAccessToken)),
        TokenOutcome::Granted(token) => {
            let mut value = String::from_str(BEARER_PREFIX);
            value.append(token.as_str());
            proof {
                lemma_bearer_metadata_text(token@);
                lemma_metadata_bytes_of_text(value@);
            }
            match check_metadata_value(value.as_str()) {
                Err(_) => Err(Error::InvalidMetadataValue),
                Ok(_) => {
                    let mut metadata: Vec<MetadataEntry> = Vec::new();
                    metadata.push(MetadataEntry { key: AUTHORIZATION.to_string(), value });
                    let request = AuthenticatedRequest { metadata, payload };
                    assert(request.metadata_view() =~= authorization(token@));
                    Ok(request)
                },
            }
        },
    }
}

} // verus!
