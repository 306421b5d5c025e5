//! A transport without a network: a table from URLs to the replies to give,
//! and a log of the requests that were made of it.

use vstd::prelude::*;
use crate::error::NetworkError;
use crate::fetcher::{fetched_from, Fetched, Fetcher, HttpBodyGetter};
use crate::transport::{reply_view, status_ok, Reply, Response, ResponseView, Transport};

verus! {

/// One line of the table.
struct Entry {
    url: String,
    reply: Result<Response, NetworkError>,
}

/// A transport that answers from a table, for use where no request may leave
/// the machine. A URL that the table does not hold cannot be reached. Every
/// GET is written to a log, so that a caller can be held to the requests it
/// made.
pub struct CannedTransport {
    entries: Vec<Entry>,
    log: Vec<String>,
}

/// The table that a list of entries stands for: a later entry replaces an
/// earlier one for the same URL.
spec fn table_of(entries: Seq<Entry>) -> Map<Seq<char>, Reply>
    decreases entries.len(),
{
    if entries.len() == 0 {
        Map::empty()
    } else {
        table_of(entries.drop_last()).insert(entries.last().url@, reply_view(entries.last().reply))
    }
}

/// The reply that a table gives to a GET of `url`: the one it holds for that
/// URL, and a failure where it holds none.
pub open spec fn canned_reply(table: Map<Seq<char>, Reply>, url: Seq<char>) -> Reply {
    if table.contains_key(url) {
        table[url]
    } else {
        Err(NetworkError)
    }
}

impl CannedTransport {
    /// The replies that the table holds, by URL.
    pub closed spec fn table(&self) -> Map<Seq<char>, Reply> {
        table_of(self.entries@)
    }

    /// The URLs of the GETs made so far, oldest first.
    pub closed spec fn requests(&self) -> Seq<Seq<char>> {
        self.log.deep_view()
    }

    /// A transport with an empty table and an empty log: it fails on every
    /// URL.
    pub fn new() -> (transport: Self)
        ensures
            transport.table() == Map::<Seq<char>, Reply>::empty(),
            transport.requests() == Seq::<Seq<char>>::empty(),
    {
        let transport = CannedTransport { entries: Vec::new(), log: Vec::new() };
        assert(transport.log.deep_view() =~= Seq::<Seq<char>>::empty());
        transport
    }

    /// Lets a GET of `url` end in a response with this status and body, in
    /// place of whatever the table held for that URL.
    pub fn respond(&mut self, url: &str, status: u16, body: &str)
        ensures
            final(self).table() == old(self).table().insert(
                url@,
                Ok(ResponseView { status, body: body@ }),
            ),
            final(self).requests() == old(self).requests(),
    {
        let entry = Entry {
            url: url.to_owned(),
            reply: Ok(Response { status, body: body.to_owned() }),
        };
        self.entries.push(entry);
        assert(self.entries@.drop_last() =~= old(self).entries@);
    }

    /// Lets a GET of `url` fail, in place of whatever the table held for
    /// that URL.
    pub fn fail(&mut self, url: &str)
        ensures
            final(self).table() == old(self).table().insert(url@, Err(NetworkError)),
            final(self).requests() == old(self).requests(),
    {
        let entry = Entry { url: url.to_owned(), reply: Err(NetworkError) };
        self.entries.push(entry);
        assert(self.entries@.drop_last() =~= old(self).entries@);
    }

    /// The number of GETs made so far.
    pub fn request_count(&self) -> (count: usize)
        ensures
            count == self.requests().len(),
    {
        self.log.len()
    }

    /// The URL of the GET with number `i`, counted from 0 in the order in
    /// which they were made; `None` where fewer were made.
    pub fn request(&self, i: usize) -> (url: Option<&str>)
        ensures
            url is Some <==> i < self.requests().len(),
            url matches Some(u) ==> u@ == self.requests()[i as int],
    {
        if i < self.log.len() {
            Some(self.log[i].as_str())
        } else {
            None
        }
    }

    /// The reply that the table holds for `url`, without a GET being made or
    /// logged.
    fn lookup(&self, key: &String) -> (reply: Result<Response, NetworkError>)
        ensures
            reply_view(reply) == canned_reply(self.table(), key@),
    {
        let mut i: usize = self.entries.len();
        assert(self.entries@.take(i as int) =~= self.entries@);
        while i > 0
            invariant
                i <= self.entries.len(),
                canned_reply(self.table(), key@) == canned_reply(
                    table_of(self.entries@.take(i as int)),
                    key@,
                ),
            decreases i,
        {
            i -= 1;
            assert(self.entries@.take(i + 1).drop_last() =~= self.entries@.take(i as int));
            let entry = &self.entries[i];
            if entry.url == *key {
                return match &entry.reply {
                    Ok(response) => Ok(
                        Response { status: response.status, body: response.body.clone() },
                    ),
                    Err(_) => Err(NetworkError),
                };
            }
        }
        Err(NetworkError)
    }
}

impl Transport for CannedTransport {
    /// A GET is answered from the table, which it leaves as it was, and its
    /// URL is added to the log.
    open spec fn may_get(&self, url: Seq<char>, reply: Reply, after: Self) -> bool {
        &&& reply == canned_reply(self.table(), url)
        &&& after.table() == self.table()
        &&& after.requests() == self.requests().push(url)
    }

    fn get(&mut self, url: &str) -> (reply: Result<Response, NetworkError>) {
        let key = url.to_owned();
        let reply = self.lookup(&key);
        self.log.push(key);
        assert(self.log.deep_view() =~= old(self).log.deep_view().push(url@));
        reply
    }
}

/// Where the table holds a response with a status of success for a URL, a
/// fetch of that URL returns the body of that response, and nothing else.
pub proof fn lemma_fetch_returns_canned_body(
    fetcher: Fetcher<CannedTransport>,
    url: Seq<char>,
    response: ResponseView,
    fetched: Fetched,
    after: Fetcher<CannedTransport>,
)
    requires
        fetcher.transport.table().contains_key(url),
        fetcher.transport.table()[url] == Ok::<ResponseView, NetworkError>(response),
        status_ok(response.status),
        fetcher.may_fetch(url, fetched, after),
    ensures
        fetched == Ok::<Seq<char>, NetworkError>(response.body),
{
}

/// Where the table holds a response with any other status for a URL, a fetch
/// of that URL fails, whatever the body of that response.
pub proof fn lemma_fetch_fails_on_canned_status(
    fetcher: Fetcher<CannedTransport>,
    url: Seq<char>,
    response: ResponseView,
    fetched: Fetched,
    after: Fetcher<CannedTransport>,
)
    requires
        fetcher.transport.table().contains_key(url),
        fetcher.transport.table()[url] == Ok::<ResponseView, NetworkError>(response),
        !status_ok(response.status),
        fetcher.may_fetch(url, fetched, after),
    ensures
        fetched == Err::<Seq<char>, NetworkError>(NetworkError),
{
}

/// A fetch makes one request of the transport, for the URL that it was
/// given, and leaves the table as it was: nothing is tried twice, whatever
/// the reply.
pub proof fn lemma_fetch_sends_one_request(
    fetcher: Fetcher<CannedTransport>,
    url: Seq<char>,
    fetched: Fetched,
    after: Fetcher<CannedTransport>,
)
    requires
        fetcher.may_fetch(url, fetched, after),
    ensures
        after.transport.requests() == fetcher.transport.requests().push(url),
        after.transport.table() == fetcher.transport.table(),
        fetched == fetched_from(canned_reply(fetcher.transport.table(), url)),
{
}

} // verus!
