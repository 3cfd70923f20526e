//! The two encodings that credentials go through: Base64 for the authorization header and
//! URL syntax for the endpoint. Both are computed by the crates that own them.

use vstd::prelude::*;

verus! {

/// The text that the standard Base64 engine of the `base64` crate, with padding, writes
/// for `bytes`.
pub uninterp spec fn base64_standard(bytes: Seq<u8>) -> Seq<char>;

/// What `url::Url::parse` finds wrong with `text`: `None` where `text` parses as an
/// absolute URL, else the text of the error.
pub uninterp spec fn url_parse_error(text: Seq<char>) -> Option<Seq<char>>;

/// `base64::Engine::encode` on `base64::engine::general_purpose::STANDARD`. The result is a
/// function of the bytes alone and is named by [`base64_standard`].
#[verifier::external_body]
pub(crate) fn base64_encode(bytes: &[u8]) -> (text: String)
    ensures
        text@ == base64_standard(bytes@),
{
    base64::Engine::encode(&base64::engine::general_purpose::STANDARD, bytes)
}

/// The scheme that `url::Url::scheme` gives for the URL that `text` parses as. It says
/// nothing of a text that does not parse.
pub uninterp spec fn url_scheme(text: Seq<char>) -> Seq<char>;

/// `url::Url::parse`, with the URL turned into what `url::Url::scheme` gives for it and
/// the error into its `Display` text. Whether it succeeds, the scheme and the text of
/// the error depend on `text` alone and are named by [`url_parse_error`] and
/// [`url_scheme`].
#[verifier::external_body]
pub(crate) fn parse_url(text: &str) -> (parsed: Result<String, String>)
    ensures
        match parsed {
            Ok(scheme) => url_parse_error(text@) is None && scheme@ == url_scheme(text@),
            Err(message) => url_parse_error(text@) == Some(message@),
        },
{
    match url::Url::parse(text) {
        Ok(url) => Ok(url.scheme().to_string()),
        Err(e) => Err(e.to_string()),
    }
}

} // verus!
