//! The fetch itself: one GET, the status check, the body; and the question
//! whether what came back is HTML.

use vstd::prelude::*;
use crate::error::NetworkError;
use crate::html::{body_is_html, is_html};
use crate::transport::{check_status, reply_view, status_ok, Reply, Response, Transport};

verus! {

/// The result of a fetch as the contracts see it: the body, or the failure.
pub type Fetched = Result<Seq<char>, NetworkError>;

/// The view of the result of a fetch.
pub open spec fn fetched_view(fetched: Result<String, NetworkError>) -> Fetched {
    match fetched {
        Ok(body) => Ok(body@),
        Err(e) => Err(e),
    }
}

/// What a fetch makes of the outcome of its GET: the body of a response with
/// a status of success, unchanged; a failure for any other status, and where
/// no response arrived.
pub open spec fn fetched_from(reply: Reply) -> Fetched {
    match reply {
        Ok(response) => if status_ok(response.status) {
            Ok(response.body)
        } else {
            Err(NetworkError)
        },
        Err(e) => Err(e),
    }
}

/// Whether what a fetch returned is HTML: a verdict on the body, and the
/// failure of the fetch handed on.
pub open spec fn verdict(fetched: Fetched) -> Result<bool, NetworkError> {
    match fetched {
        Ok(body) => Ok(is_html(body)),
        Err(e) => Err(e),
    }
}

/// Turns the outcome of a GET into the result of the fetch.
pub fn body_of(reply: Result<Response, NetworkError>) -> (fetched: Result<String, NetworkError>)
    ensures
        fetched_view(fetched) == fetched_from(reply_view(reply)),
{
    match reply {
        Ok(response) => match check_status(response.status) {
            Ok(_) => Ok(response.body),
            Err(e) => Err(e),
        },
        Err(e) => Err(e),
    }
}

/// Turns the result of a fetch into the answer whether the page is HTML.
pub fn html_verdict(fetched: Result<String, NetworkError>) -> (answer: Result<bool, NetworkError>)
    ensures
        answer == verdict(fetched_view(fetched)),
{
    match fetched {
        Ok(body) => Ok(body_is_html(body.as_str())),
        Err(e) => Err(e),
    }
}

/// Something that can fetch the body of a page. Like a transport it is
/// described by its steps.
pub trait HttpBodyGetter: Sized {
    /// Whether one fetch of `url` may end in `fetched` and leave this getter
    /// as `after`.
    spec fn may_fetch(&self, url: Seq<char>, fetched: Fetched, after: Self) -> bool;

    /// Fetches the body of the page at `url`.
    fn get_http_response_body(&mut self, url: &str) -> (fetched: Result<String, NetworkError>)
        ensures
            old(self).may_fetch(url@, fetched_view(fetched), *final(self)),
    ;
}

/// Fetches pages through a transport of any kind.
pub struct Fetcher<T> {
    pub transport: T,
}

impl<T: Transport> Fetcher<T> {
    /// A fetcher that sends its requests through `transport`.
    pub fn new(transport: T) -> (fetcher: Self)
        ensures
            fetcher.transport == transport,
    {
        Fetcher { transport }
    }

    /// Fetches the body of the page at `url`. The transport makes one step,
    /// a GET of exactly that URL, and the result is what `fetched_from` says
    /// of its reply: nothing is tried twice, and nothing is answered without
    /// asking.
    pub fn fetch(&mut self, url: &str) -> (fetched: Result<String, NetworkError>)
        ensures
            exists|reply: Reply| #[trigger]
                old(self).transport.may_get(url@, reply, final(self).transport)
                    && fetched_view(fetched) == fetched_from(reply),
    {
        let reply = self.transport.get(url);
        let ghost seen = reply_view(reply);
        let fetched = body_of(reply);
        assert(old(self).transport.may_get(url@, seen, self.transport)
            && fetched_view(fetched) == fetched_from(seen));
        fetched
    }
}

impl<T: Transport> HttpBodyGetter for Fetcher<T> {
    open spec fn may_fetch(&self, url: Seq<char>, fetched: Fetched, after: Self) -> bool {
        exists|reply: Reply| #[trigger]
            self.transport.may_get(url, reply, after.transport) && fetched == fetched_from(reply)
    }

    fn get_http_response_body(&mut self, url: &str) -> (fetched: Result<String, NetworkError>) {
        self.fetch(url)
    }
}

/// Fetches the page at `url` through `client` and tells whether it is HTML.
/// The client makes one step, a fetch of exactly that URL, and the answer is
/// what `verdict` says of its result.
pub fn returns_html<C: HttpBodyGetter>(
    url: &str,
    client: &mut C,
) -> (answer: Result<bool, NetworkError>)
    ensures
        exists|fetched: Fetched| #[trigger]
            old(client).may_fetch(url@, fetched, *final(client)) && answer == verdict(fetched),
{
    let fetched = client.get_http_response_body(url);
    let ghost seen = fetched_view(fetched);
    let answer = html_verdict(fetched);
    assert(old(client).may_fetch(url@, seen, *client) && answer == verdict(seen));
    answer
}

/// Where a transport has nothing but failures for a URL, a fetch of that URL
/// fails, and so does the question whether the page is HTML.
pub proof fn lemma_unreachable_fails<T: Transport>(
    fetcher: Fetcher<T>,
    url: Seq<char>,
    fetched: Fetched,
    after: Fetcher<T>,
)
    requires
        forall|reply: Reply, next: T| #[trigger]
            fetcher.transport.may_get(url, reply, next) ==> reply is Err,
        fetcher.may_fetch(url, fetched, after),
    ensures
        fetched == Err::<Seq<char>, NetworkError>(NetworkError),
        verdict(fetched) == Err::<bool, NetworkError>(NetworkError),
{
}

} // verus!
