//! Turning a `Request` into a configured handle of the transport.

use crate::error::{DlErr, DlResult};
use crate::request::{fetch_request, lemma_no_credentials, names_authorization, Request, RequestView};
use curl::easy::{Easy, List};
use vstd::prelude::*;

verus! {

/// `curl::easy::Easy`, one handle of the transport. Trusted as an opaque
/// value: the options set on it cannot be read back, and `handle_settings`
/// names what it was given.
#[verifier::external_type_specification]
#[verifier::external_body]
pub struct ExEasy(Easy);

/// `curl::easy::List`, the transport's list of strings. Trusted as an opaque
/// value whose contents `list_items` names.
#[verifier::external_type_specification]
#[verifier::external_body]
pub struct ExList(List);

/// The strings that a `curl::easy::List` holds, in the order in which they
/// were appended.
pub uninterp spec fn list_items(list: List) -> Seq<Seq<char>>;

/// What a handle of the transport was given: for each option the value that
/// it accepted last, and the lines of the header list that it holds.
pub struct HandleSettings {
    /// The URL, once one was accepted.
    pub url: Option<Seq<char>>,
    /// The header lines, in the order in which they are sent.
    pub headers: Seq<Seq<char>>,
    pub follow_location: bool,
    pub autoreferer: bool,
    pub verbose: bool,
    pub progress: bool,
    /// Whether the handle was asked for an HTTP GET.
    pub get: bool,
}

/// What a `curl::easy::Easy` was given through its setters.
pub uninterp spec fn handle_settings(easy: Easy) -> HandleSettings;

impl HandleSettings {
    /// Whether the handle was given all that `request` says, and nothing
    /// else for those options.
    pub open spec fn carries(self, request: RequestView) -> bool {
        &&& self.url == Some(request.url)
        &&& self.headers == request.headers
        &&& self.follow_location == request.follow_location
        &&& self.autoreferer == request.autoreferer
        &&& self.verbose == request.verbose
        &&& self.progress == request.progress
    }
}

/// Whether `text` holds the NUL character, which no C string can hold.
pub open spec fn has_nul(text: Seq<char>) -> bool {
    text.contains('\0')
}

/// Calls `Easy::new`. Trusted: nothing is claimed of the new handle.
#[verifier::external_body]
fn easy_new() -> Easy {
    Easy::new()
}

/// Calls `Easy::url`. Trusted: a URL that holds NUL is refused, since the call
/// first makes a C string of it; where the call succeeds the handle took the
/// URL and kept every other setting.
#[verifier::external_body]
fn easy_url(easy: &mut Easy, url: &str) -> (r: Result<(), curl::Error>)
    ensures
        has_nul(url@) ==> r is Err,
        r is Ok ==> handle_settings(*final(easy)) == (HandleSettings {
            url: Some(url@),
            ..handle_settings(*old(easy))
        }),
{
    easy.url(url)
}

/// Calls `Easy::follow_location`. Trusted: where the call succeeds the handle took
/// the choice whether a redirect is followed and kept every other setting.
#[verifier::external_body]
fn easy_follow_location(easy: &mut Easy, enable: bool) -> (r: Result<(), curl::Error>)
    ensures
        r is Ok ==> handle_settings(*final(easy)) == (HandleSettings {
            follow_location: enable,
            ..handle_settings(*old(easy))
        }),
{
    easy.follow_location(enable)
}

/// Calls `Easy::autoreferer`. Trusted: where the call succeeds the handle took
/// the choice whether the referer is filled in and kept every other setting.
#[verifier::external_body]
fn easy_autoreferer(easy: &mut Easy, enable: bool) -> (r: Result<(), curl::Error>)
    ensures
        r is Ok ==> handle_settings(*final(easy)) == (HandleSettings {
            autoreferer: enable,
            ..handle_settings(*old(easy))
        }),
{
    easy.autoreferer(enable)
}

/// Calls `Easy::verbose`. Trusted: where the call succeeds the handle took
/// the choice whether the exchange is reported and kept every other setting.
#[verifier::external_body]
fn easy_verbose(easy: &mut Easy, verbose: bool) -> (r: Result<(), curl::Error>)
    ensures
        r is Ok ==> handle_settings(*final(easy)) == (HandleSettings {
            verbose: verbose,
            ..handle_settings(*old(easy))
        }),
{
    easy.verbose(verbose)
}

/// Calls `Easy::progress`. Trusted: where the call succeeds the handle took
/// the choice whether the progress meter is shown and kept every other setting.
#[verifier::external_body]
fn easy_progress(easy: &mut Easy, progress: bool) -> (r: Result<(), curl::Error>)
    ensures
        r is Ok ==> handle_settings(*final(easy)) == (HandleSettings {
            progress: progress,
            ..handle_settings(*old(easy))
        }),
{
    easy.progress(progress)
}

/// Calls `Easy::http_headers`, which takes the list over. Trusted: where the
/// call succeeds the handle holds the lines of the list, in their order, and
/// kept every other setting.
#[verifier::external_body]
fn easy_http_headers(easy: &mut Easy, list: List) -> (r: Result<(), curl::Error>)
    ensures
        r is Ok ==> handle_settings(*final(easy)) == (HandleSettings {
            headers: list_items(list),
            ..handle_settings(*old(easy))
        }),
{
    easy.http_headers(list)
}

/// Calls `Easy::get`. Trusted: where the call succeeds the handle took
/// the choice whether an HTTP GET is asked for and kept every other setting.
#[verifier::external_body]
fn easy_get(easy: &mut Easy, enable: bool) -> (r: Result<(), curl::Error>)
    ensures
        r is Ok ==> handle_settings(*final(easy)) == (HandleSettings {
            get: enable,
            ..handle_settings(*old(easy))
        }),
{
    easy.get(enable)
}

/// Calls `List::new`. Trusted: the new list is empty.
#[verifier::external_body]
fn list_new() -> (list: List)
    ensures
        list_items(list) == Seq::<Seq<char>>::empty(),
{
    List::new()
}

/// Calls `List::append`. Trusted: a string that holds NUL is refused and the
/// list stays as it was, since the call first makes a C string of it; any
/// other string is accepted and becomes the last item.
#[verifier::external_body]
fn list_append(list: &mut List, data: &str) -> (r: Result<(), curl::Error>)
    ensures
        has_nul(data@) ==> r is Err && list_items(*final(list)) == list_items(*old(list)),
        !has_nul(data@) ==> r is Ok && list_items(*final(list)) == list_items(*old(list)).push(
            data@,
        ),
{
    list.append(data)
}

impl Request {
    /// Whether the transport can take every string of the request: neither
    /// the URL nor a header holds NUL.
    pub open spec fn is_expressible(&self) -> bool {
        &&& !has_nul(self@.url)
        &&& forall|i: int| 0 <= i < self@.headers.len() ==> !has_nul(#[trigger] self@.headers[i])
    }

    /// Gathers the header lines in a list of the transport. The list holds
    /// them all, in order; a line that holds NUL is the one reason to fail.
    fn header_list(&self) -> (r: Result<List, curl::Error>)
        ensures
            r matches Ok(list) ==> list_items(list) == self@.headers,
            r is Ok <==> forall|i: int|
                0 <= i < self@.headers.len() ==> !has_nul(#[trigger] self@.headers[i]),
    {
        let mut list = list_new();
        let mut i: usize = 0;
        while i < self.headers.len()
            invariant
                i <= self.headers.len(),
                list_items(list) == self@.headers.take(i as int),
                forall|k: int| 0 <= k < i ==> !has_nul(#[trigger] self@.headers[k]),
            decreases self.headers.len() - i,
        {
            assert(self@.headers[i as int] == self.headers[i as int]@);
            match list_append(&mut list, self.headers[i].as_str()) {
                Err(err) => {
                    return Err(err);
                },
                Ok(()) => {},
            }
            assert(self@.headers.take(i as int).push(self@.headers[i as int])
                =~= self@.headers.take(i as int + 1));
            i += 1;
        }
        assert(self@.headers.take(i as int) =~= self@.headers);
        Ok(list)
    }

    /// Makes a handle of the transport and sets on it what the request says:
    /// the URL, the two redirect options, the diagnostics, the progress meter
    /// and the header lines. The transport decides whether it accepts each
    /// option; a request that it cannot express is refused in any case, and
    /// every failure is a `DlErr::CurlErr`. A handle that comes back was given
    /// exactly the request: its URL, its flags, and its header lines, none
    /// added, none dropped, in their order.
    pub fn configure_easy(&self) -> (r: DlResult<Easy>)
        ensures
            !self.is_expressible() ==> r is Err,
            r matches Err(err) ==> err is CurlErr,
            r matches Ok(easy) ==> handle_settings(easy).carries(self@),
    {
        let mut easy = easy_new();
        match easy_url(&mut easy, self.url.as_str()) {
            Err(err) => {
                return Err(DlErr::from(err));
            },
            Ok(()) => {},
        }
        match easy_follow_location(&mut easy, self.follow_location) {
            Err(err) => {
                return Err(DlErr::from(err));
            },
            Ok(()) => {},
        }
        match easy_autoreferer(&mut easy, self.autoreferer) {
            Err(err) => {
                return Err(DlErr::from(err));
            },
            Ok(()) => {},
        }
        match easy_verbose(&mut easy, self.verbose) {
            Err(err) => {
                return Err(DlErr::from(err));
            },
            Ok(()) => {},
        }
        match easy_progress(&mut easy, self.progress) {
            Err(err) => {
                return Err(DlErr::from(err));
            },
            Ok(()) => {},
        }
        let list = match self.header_list() {
            Err(err) => {
                return Err(DlErr::from(err));
            },
            Ok(list) => list,
        };
        match easy_http_headers(&mut easy, list) {
            Err(err) => {
                return Err(DlErr::from(err));
            },
            Ok(()) => {},
        }
        Ok(easy)
    }

    /// Makes the handle that performs the request as an HTTP GET: it was
    /// given exactly the request, and was asked for a GET. No byte is sent
    /// here: the caller performs the handle.
    pub fn get(&self) -> (r: DlResult<Easy>)
        ensures
            !self.is_expressible() ==> r is Err,
            r matches Err(err) ==> err is CurlErr,
            r matches Ok(easy) ==> handle_settings(easy).carries(self@) && handle_settings(
                easy,
            ).get,
    {
        let mut easy = match self.configure_easy() {
            Err(err) => {
                return Err(err);
            },
            Ok(easy) => easy,
        };
        match easy_get(&mut easy, true) {
            Err(err) => Err(DlErr::from(err)),
            Ok(()) => Ok(easy),
        }
    }
}

/// A handle that was given a request of the engine carries no credentials in
/// its header lines: it holds the two fixed lines, and neither is an
/// `Authorization` header.
pub proof fn lemma_handle_has_no_credentials(settings: HandleSettings, url: Seq<char>, verbose: bool)
    requires
        settings.carries(fetch_request(url, verbose)),
    ensures
        settings.headers.len() == 2,
        forall|i: int|
            0 <= i < settings.headers.len() ==> !names_authorization(#[trigger] settings.headers[i]),
{
    lemma_no_credentials(url, verbose);
}

} // verus!
