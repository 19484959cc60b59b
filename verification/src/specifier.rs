//! Module specifiers: URLs in their normal form.
use vstd::prelude::*;
use crate::error::generic_error;
use crate::error::generic_error_view;
use crate::error::result_view;
use crate::error::AnyError;
use crate::error::ErrorView;
use crate::text::concat2;

verus! {

/// The normal form of a URL as `Url::parse` gives it, or the message of its
/// error.
pub uninterp spec fn parsed_url(text: Seq<char>) -> Result<Seq<char>, Seq<char>>;

/// Calls `url::Url::parse`.
#[verifier::external_body]
fn parse_url(text: &str) -> (r: Result<String, String>)
    ensures
        match r {
            Ok(url) => parsed_url(text@) == Ok::<_, Seq<char>>(url@),
            Err(message) => parsed_url(text@) == Err::<Seq<char>, _>(message@),
        },
{
    match url::Url::parse(text) {
        Ok(url) => Ok(url.to_string()),
        Err(error) => Err(error.to_string()),
    }
}

/// The specifier that a text stands for.
pub open spec fn specifier_of(text: Seq<char>) -> Result<Seq<char>, ErrorView> {
    match parsed_url(text) {
        Ok(url) => Ok(url),
        Err(message) => Err(generic_error_view("invalid URL: "@ + message)),
    }
}

/// Converts a string representing an absolute URL into a module specifier.
pub fn resolve_url(text: &str) -> (r: Result<String, AnyError>)
    ensures
        result_view(r) == specifier_of(text@),
{
    match parse_url(text) {
        Ok(url) => Ok(url),
        Err(message) => Err(generic_error(concat2("invalid URL: ", message.as_str()).as_str())),
    }
}

/// A specifier is a URL in its normal form; what is no URL is an error that says why.
pub proof fn law_specifiers_are_urls(text: Seq<char>)
    ensures
        match specifier_of(text) {
            Ok(specifier) => parsed_url(text) == Ok::<_, Seq<char>>(specifier),
            Err(e) => parsed_url(text) matches Err(message) && e.class == "Error"@ && e.message
                == "invalid URL: "@ + message,
        },
{
}

} // verus!
