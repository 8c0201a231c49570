//! What the engine asks of the transport, as plain values.

use crate::source::Source;
use vstd::prelude::*;

verus! {

/// The media type that every request accepts.
pub const ACCEPT_HEADER: &'static str = "Accept: application/octet-stream";

/// The name under which the engine presents itself.
pub const USER_AGENT_HEADER: &'static str = "User-Agent: download";

/// One HTTP GET: where it goes and how the transport is to behave.
#[derive(Debug, PartialEq, Eq)]
pub struct Request {
    /// The serialized absolute URL.
    pub url: String,
    /// The header lines, in the order in which they are sent.
    pub headers: Vec<String>,
    /// Whether a redirect is followed.
    pub follow_location: bool,
    /// Whether the referer is filled in when a redirect is followed.
    pub autoreferer: bool,
    /// Whether the transport reports the protocol exchange on the diagnostic
    /// stream.
    pub verbose: bool,
    /// Whether the transport shows its progress meter.
    pub progress: bool,
}

/// A `Request` as mathematical values.
pub struct RequestView {
    pub url: Seq<char>,
    pub headers: Seq<Seq<char>>,
    pub follow_location: bool,
    pub autoreferer: bool,
    pub verbose: bool,
    pub progress: bool,
}

impl View for Request {
    type V = RequestView;

    open spec fn view(&self) -> RequestView {
        RequestView {
            url: self.url@,
            headers: self.headers.deep_view(),
            follow_location: self.follow_location,
            autoreferer: self.autoreferer,
            verbose: self.verbose,
            progress: self.progress,
        }
    }
}

/// The request that fetches `url`: redirects are followed, the referer is not
/// passed on, and the two fixed headers are sent and no other.
pub open spec fn fetch_request(url: Seq<char>, verbose: bool) -> RequestView {
    RequestView {
        url,
        headers: seq![ACCEPT_HEADER@, USER_AGENT_HEADER@],
        follow_location: true,
        autoreferer: false,
        verbose,
        progress: true,
    }
}

impl Request {
    /// Builds the request that fetches `from`.
    pub fn fetch(from: &Source, verbose: bool) -> (request: Request)
        ensures
            request@ == fetch_request(from@, verbose),
    {
        let mut headers: Vec<String> = Vec::new();
        headers.push(ACCEPT_HEADER.to_owned());
        headers.push(USER_AGENT_HEADER.to_owned());
        let request = Request {
            url: from.as_str().to_owned(),
            headers,
            follow_location: true,
            autoreferer: false,
            verbose,
            progress: true,
        };
        assert(request.headers.deep_view() =~= seq![ACCEPT_HEADER@, USER_AGENT_HEADER@]);
        request
    }
}

/// Whether `a` and `b` are one character, the case of an ASCII letter apart.
pub open spec fn same_letter(a: char, b: char) -> bool {
    ||| a == b
    ||| 'A' <= a <= 'Z' && a as int + 32 == b as int
    ||| 'A' <= b <= 'Z' && b as int + 32 == a as int
}

/// Whether a header line hands credentials to the server: its name, up to
/// the colon, is `Authorization` in any case.
pub open spec fn names_authorization(line: Seq<char>) -> bool {
    let name = "authorization"@;
    &&& line.len() > name.len()
    &&& line[name.len() as int] == ':'
    &&& forall|i: int| 0 <= i < name.len() ==> same_letter(#[trigger] line[i], name[i])
}

/// No request that the engine builds carries credentials: none of its header
/// lines is an `Authorization` header.
pub proof fn lemma_no_credentials(url: Seq<char>, verbose: bool)
    ensures
        fetch_request(url, verbose).headers.len() == 2,
        forall|i: int|
            0 <= i < fetch_request(url, verbose).headers.len() ==> !names_authorization(
                #[trigger] fetch_request(url, verbose).headers[i],
            ),
{
    reveal_strlit("authorization");
    reveal_strlit("Accept: application/octet-stream");
    reveal_strlit("User-Agent: download");
    let name = "authorization"@;
    let headers = fetch_request(url, verbose).headers;
    assert(!same_letter(headers[0][1], name[1]));
    assert(!same_letter(headers[1][0], name[0]));
}

} // verus!
