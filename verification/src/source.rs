//! The source of a transfer: an absolute URL, validated when it is made.

use crate::error::{DlErr, DlResult};
use vstd::prelude::*;

verus! {

/// What `url::Url::parse` makes of `input`: the serialization of the absolute
/// URL that it reads, or `None` where it rejects the input.
pub uninterp spec fn url_serialization(input: Seq<char>) -> Option<Seq<char>>;

/// Calls `url::Url::parse` and hands out the serialization of the URL that it
/// read. Trusted: the result is what `url_serialization` names, an error
/// exactly where the parser rejects the input.
#[verifier::external_body]
fn parse_url(input: &str) -> (r: Result<String, url::ParseError>)
    ensures
        r matches Ok(text) ==> url_serialization(input@) == Some(text@),
        r is Err ==> url_serialization(input@) is None,
{
    match url::Url::parse(input) {
        Ok(url) => Ok(String::from(url)),
        Err(err) => Err(err),
    }
}

/// Whether `text` is the serialization of an absolute URL.
pub open spec fn is_absolute_url(text: Seq<char>) -> bool {
    exists|input: Seq<char>| url_serialization(input) == Some(text)
}

/// An absolute URL in its serialized form. A value exists only for a string
/// that the parser accepted, so no transfer starts from a malformed one.
#[derive(Debug, PartialEq, Eq)]
pub struct Source {
    text: String,
}

impl View for Source {
    type V = Seq<char>;

    closed spec fn view(&self) -> Seq<char> {
        self.text@
    }
}

impl Source {
    #[verifier::type_invariant]
    spec fn well_formed(&self) -> bool {
        is_absolute_url(self.text@)
    }

    /// Reads an absolute URL. A string that is none is refused with
    /// `DlErr::UrlErr`, and no `Source` is made of it.
    pub fn parse(input: &str) -> (r: DlResult<Source>)
        ensures
            r is Ok <==> url_serialization(input@) is Some,
            r matches Ok(source) ==> url_serialization(input@) == Some(source@),
            r matches Err(err) ==> err is UrlErr,
    {
        match parse_url(input) {
            Ok(text) => Ok(Source { text }),
            Err(err) => Err(DlErr::from(err)),
        }
    }

    /// The serialized URL.
    pub fn as_str(&self) -> (text: &str)
        ensures
            text@ == self@,
            is_absolute_url(text@),
    {
        proof {
            use_type_invariant(self);
        }
        self.text.as_str()
    }
}

} // verus!
