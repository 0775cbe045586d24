use vstd::prelude::*;

use crate::error::RestApiError;

verus! {

/// A text member that a JSON response carries beside the typed record.
#[derive(Clone, Copy, Debug, PartialEq, Eq, Structural)]
pub enum TextField {
    /// The wikitext, under `source`.
    Source,
    /// The URL of the HTML, under `html_url`.
    HtmlUrl,
    /// The HTML, under `html`.
    Html,
}

impl TextField {
    /// The JSON key of the member.
    pub open spec fn spec_key(self) -> Seq<char> {
        match self {
            TextField::Source => "source"@,
            TextField::HtmlUrl => "html_url"@,
            TextField::Html => "html"@,
        }
    }

    /// The JSON key of the member.
    pub fn key(&self) -> (r: &'static str)
        ensures
            r@ == self.spec_key(),
    {
        match self {
            TextField::Source => "source",
            TextField::HtmlUrl => "html_url",
            TextField::Html => "html",
        }
    }
}

/// The text member that a response must carry: its text where it is there as a
/// string, `MissingResults` where it is absent, null or of another type.
pub fn required_text(member: Option<String>) -> (r: Result<String, RestApiError>)
    ensures
        match member {
            Some(s) => r matches Ok(t) && t@ == s@,
            None => r matches Err(RestApiError::MissingResults),
        },
{
    match member {
        Some(s) => Ok(s),
        None => Err(RestApiError::MissingResults),
    }
}

} // verus!
