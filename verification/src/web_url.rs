//! Web addresses, as the `url` crate reads them.

use crate::text;
use vstd::prelude::*;

verus! {

/// A parsed address: its scheme, and its normal form.
pub struct WebUrl {
    pub scheme: String,
    pub text: String,
}

/// What `url::Url::parse` makes of a text: the scheme and the serialization of
/// the address that it names, or the message of the parse error.
pub uninterp spec fn parsed_url(text: Seq<char>) -> Result<(Seq<char>, Seq<char>), Seq<char>>;

/// What a parse gave, over its texts.
pub open spec fn url_model(parsed: Result<WebUrl, String>) -> Result<
    (Seq<char>, Seq<char>),
    Seq<char>,
> {
    match parsed {
        Ok(url) => Ok((url.scheme@, url.text@)),
        Err(message) => Err(message@),
    }
}

/// Parses an address with `url::Url::parse`.
///
/// The parse itself is named, not described: the scheme is that of
/// `Url::scheme`, the text that of `Url::as_str`, and the message that of the
/// error's `Display`. Beside the name it is only claimed that the text begins
/// with the scheme and a colon, which is how the parser writes it.
#[verifier::external_body]
pub(crate) fn parse_url(text: &str) -> (parsed: Result<WebUrl, String>)
    ensures
        url_model(parsed) == parsed_url(text@),
        parsed matches Ok(url) ==> text::begins_with(url.text@, url.scheme@ + ":"@),
{
    match url::Url::parse(text) {
        Ok(url) => Ok(WebUrl { scheme: url.scheme().to_owned(), text: url.as_str().to_owned() }),
        Err(error) => Err(error.to_string()),
    }
}

} // verus!
