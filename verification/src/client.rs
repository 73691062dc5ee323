//! The client core: one resource at one endpoint, and the polling cursor.

use crate::address::{
    decimal, stats_from_address, stats_from_url, stats_limited_address, stats_limited_url,
    stats_prefix, stats_window_address, stats_window_url,
};
use crate::cursor::cursor_after;
use crate::exchange::{accepted, fetch_data, fetched, ClientError, Exchange, Request, RequestView};
use vstd::prelude::*;
use vstd::string::*;

verus! {

/// `reqwest::Client`, the transport handle. Nothing is known of what is in
/// it.
#[verifier::external_type_specification]
#[verifier::external_body]
pub struct ExTransport(reqwest::Client);

/// `reqwest::ClientBuilder`, the configuration that a transport is made from.
#[verifier::external_type_specification]
#[verifier::external_body]
pub struct ExTransportBuilder(reqwest::ClientBuilder);

/// `reqwest::Error`, what the transport reports when it fails.
#[verifier::external_type_specification]
#[verifier::external_body]
pub struct ExTransportError(reqwest::Error);

/// `reqwest::Client::builder` gives a builder with the default configuration.
/// Nothing is claimed of it.
pub assume_specification[ reqwest::Client::builder ]() -> (builder: reqwest::ClientBuilder);

/// `reqwest::ClientBuilder::build` makes the transport, or says why it could
/// not: the TLS backend or the resolver could not be set up. Which of the two
/// happens depends on the machine, so nothing is claimed of the result.
pub assume_specification[ reqwest::ClientBuilder::build ](builder: reqwest::ClientBuilder) -> (r:
    Result<reqwest::Client, reqwest::Error>);

/// The message of a `reqwest::Error`, as its `Display` impl writes it. Nothing
/// is claimed of the text.
#[verifier::external_body]
fn reason(error: &reqwest::Error) -> (text: String) {
    error.to_string()
}

/// The name of the header that carries the credential.
pub open spec fn key_header() -> Seq<char> {
    seq!['f', 'a', 's', 't', 'l', 'y', '-', 'k', 'e', 'y']
}

/// A record that says from where the next poll should resume.
pub trait TimestampHolder {
    /// The timestamp that the record reports.
    spec fn stamp(&self) -> u64;

    fn get_timestamp(&self) -> (t: u64)
        ensures
            t == self.stamp(),
    ;
}

/// The timestamp that a poll's outcome reports: that of the record, or none
/// where the poll failed.
pub open spec fn reported<T: TimestampHolder>(outcome: Result<T, ClientError>) -> Option<u64> {
    match outcome {
        Ok(record) => Some(record.stamp()),
        Err(_) => None,
    }
}

/// A client for one resource at one endpoint.
///
/// It owns the credential, the transport handle, the endpoint root, the
/// resource's identifier and the cursor. The cursor starts at 0; only a
/// successful poll and a reset move it. One client serves one polling
/// sequence.
pub struct CliObj {
    pub api_key: String,
    reqwest_client: reqwest::Client,
    timestamp: u64,
    service_id: String,
    api_endpoint: &'static str,
}

impl CliObj {
    /// The timestamp from which the next poll resumes.
    pub closed spec fn cursor(&self) -> u64 {
        self.timestamp
    }

    /// The credential.
    pub closed spec fn credential(&self) -> Seq<char> {
        self.api_key@
    }

    /// The identifier of the resource.
    pub closed spec fn service(&self) -> Seq<char> {
        self.service_id@
    }

    /// The endpoint root.
    pub closed spec fn endpoint(&self) -> Seq<char> {
        self.api_endpoint@
    }

    /// The transport handle.
    pub closed spec fn transport_handle(&self) -> reqwest::Client {
        self.reqwest_client
    }

    /// Two clients that differ at most in their cursors.
    pub open spec fn same_binding(&self, other: &CliObj) -> bool {
        &&& self.credential() == other.credential()
        &&& self.service() == other.service()
        &&& self.endpoint() == other.endpoint()
        &&& self.transport_handle() == other.transport_handle()
    }

    /// The request of a query whose address is `url`.
    pub open spec fn request_to(&self, url: Seq<char>) -> RequestView {
        RequestView { url, header_name: key_header(), header_value: self.credential() }
    }

    /// The request that a poll sends: for everything since the cursor.
    pub open spec fn consecutive_request(&self) -> RequestView {
        self.from_request(self.cursor())
    }

    /// The request for everything since `start`.
    pub open spec fn from_request(&self, start: u64) -> RequestView {
        self.request_to(stats_from_address(self.endpoint(), self.service(), start as nat))
    }

    /// The request for the most recent window.
    pub open spec fn window_request(&self) -> RequestView {
        self.request_to(stats_window_address(self.endpoint(), self.service()))
    }

    /// The request for at most `max` entries of the most recent window.
    pub open spec fn limited_request(&self, max: u64) -> RequestView {
        self.request_to(stats_limited_address(self.endpoint(), self.service(), max as nat))
    }

    /// A client around what an attempt to make a transport came to: around
    /// the transport, with the cursor at 0, or else a configuration error.
    pub fn from_built(
        api_key: &str,
        service_id: &str,
        endpoint: &'static str,
        built: Result<reqwest::Client, reqwest::Error>,
    ) -> (r: Result<CliObj, ClientError>)
        ensures
            match built {
                Ok(transport) => r matches Ok(client) && {
                    &&& client.credential() == api_key@
                    &&& client.service() == service_id@
                    &&& client.endpoint() == endpoint@
                    &&& client.transport_handle() == transport
                    &&& client.cursor() == 0
                },
                Err(_) => r matches Err(ClientError::Configuration(_)),
            },
    {
        match built {
            Ok(transport) => Ok(
                CliObj {
                    api_key: String::from_str(api_key),
                    reqwest_client: transport,
                    timestamp: 0,
                    service_id: String::from_str(service_id),
                    api_endpoint: endpoint,
                },
            ),
            Err(error) => Err(ClientError::Configuration(reason(&error))),
        }
    }

    /// Makes a transport of the default configuration and a client around
    /// it. Nothing is sent.
    ///
    /// Whether the transport can be made depends on the machine. Where it
    /// cannot, the error is a configuration error.
    pub fn new(api_key: &str, service_id: &str, endpoint: &'static str) -> (r: Result<
        CliObj,
        ClientError,
    >)
        ensures
            match r {
                Ok(client) => {
                    &&& client.credential() == api_key@
                    &&& client.service() == service_id@
                    &&& client.endpoint() == endpoint@
                    &&& client.cursor() == 0
                },
                Err(error) => error is Configuration,
            },
    {
        CliObj::from_built(api_key, service_id, endpoint, reqwest::Client::builder().build())
    }

    /// The transport handle, for the caller to send requests with.
    pub fn transport(&self) -> (handle: &reqwest::Client)
        ensures
            *handle == self.transport_handle(),
    {
        &self.reqwest_client
    }

    /// The timestamp from which the next poll resumes.
    pub fn timestamp(&self) -> (t: u64)
        ensures
            t == self.cursor(),
    {
        self.timestamp
    }

    /// Puts the cursor back to 0: the next poll is a first poll again.
    pub fn reset_stats_consecutive(&mut self)
        ensures
            final(self).cursor() == 0,
            final(self).same_binding(old(self)),
    {
        self.timestamp = 0;
    }

    fn request(&self, url: String) -> (request: Request)
        ensures
            request@ == self.request_to(url@),
    {
        proof {
            reveal_strlit("fastly-key");
        }
        let header_name = String::from_str("fastly-key");
        assert(header_name@ =~= key_header());
        Request { url, header_name, header_value: self.api_key.clone() }
    }

    /// The request of a poll: everything since the cursor.
    pub fn get_stats_consecutive(&self) -> (request: Request)
        ensures
            request@ == self.consecutive_request(),
    {
        self.get_stats_from(self.timestamp)
    }

    /// The request for everything since `start_timestamp`. The cursor plays no
    /// part in it.
    pub fn get_stats_from(&self, start_timestamp: u64) -> (request: Request)
        ensures
            request@ == self.from_request(start_timestamp),
    {
        let url = stats_from_url(self.api_endpoint, self.service_id.as_str(), start_timestamp);
        self.request(url)
    }

    /// The request for the most recent window, some 120 seconds.
    pub fn get_stats_120s(&self) -> (request: Request)
        ensures
            request@ == self.window_request(),
    {
        let url = stats_window_url(self.api_endpoint, self.service_id.as_str());
        self.request(url)
    }

    /// The request for at most `max_entries` entries of the most recent
    /// window. The number goes out as it is.
    pub fn get_stats_max(&self, max_entries: u64) -> (request: Request)
        ensures
            request@ == self.limited_request(max_entries),
    {
        let url = stats_limited_url(self.api_endpoint, self.service_id.as_str(), max_entries);
        self.request(url)
    }

    /// Moves the cursor as the outcome of a poll asks: to the record's
    /// timestamp, or not at all.
    pub fn resume_after<T: TimestampHolder>(&mut self, outcome: &Result<T, ClientError>)
        ensures
            final(self).cursor() == cursor_after(old(self).cursor(), reported(*outcome)),
            final(self).same_binding(old(self)),
    {
        match outcome {
            Ok(record) => {
                self.timestamp = record.get_timestamp();
            },
            Err(_) => {},
        }
    }

    /// Completes a poll with the exchange that its request came to.
    ///
    /// The result is that of [`fetch_data`]. The cursor moves to the record's
    /// timestamp where there is a record; after a request error or a decode
    /// error it stays where it was.
    pub fn complete_consecutive<T: TimestampHolder, D: FnOnce(String) -> Result<T, String>>(
        &mut self,
        exchange: Exchange,
        decode: D,
    ) -> (r: Result<T, ClientError>)
        requires
            accepted(exchange) matches Ok(body) ==> call_requires(decode, (body,)),
        ensures
            exists|verdict: Result<T, String>|
                {
                    &&& accepted(exchange) matches Ok(body) ==> call_ensures(
                        decode,
                        (body,),
                        verdict,
                    )
                    &&& r == fetched(exchange, verdict)
                },
            final(self).cursor() == cursor_after(old(self).cursor(), reported(r)),
            final(self).same_binding(old(self)),
    {
        let r = fetch_data(exchange, decode);
        self.resume_after(&r);
        r
    }
}

/// A poll that got an answer moves the cursor to the answer's timestamp, and
/// the next poll asks for everything since exactly that timestamp.
pub proof fn lemma_poll_resumes_from_answer(before: CliObj, after: CliObj, timestamp: u64)
    requires
        after.same_binding(&before),
        after.cursor() == cursor_after(before.cursor(), Some(timestamp)),
    ensures
        after.cursor() == timestamp,
        after.consecutive_request() == before.from_request(timestamp),
        after.consecutive_request().url == stats_from_address(
            before.endpoint(),
            before.service(),
            timestamp as nat,
        ),
{
}

/// A poll that failed leaves the cursor where it stood, and the next poll
/// sends the request that the failed one sent.
pub proof fn lemma_failed_poll_repeats_request(before: CliObj, after: CliObj)
    requires
        after.same_binding(&before),
        after.cursor() == cursor_after(before.cursor(), None),
    ensures
        after.cursor() == before.cursor(),
        after.consecutive_request() == before.consecutive_request(),
{
}

/// The poll after a reset sends what the first poll of a new client of the
/// same binding sends: the address ends in `/ts/0`.
pub proof fn lemma_reset_restarts(fresh: CliObj, reset: CliObj)
    requires
        reset.same_binding(&fresh),
        fresh.cursor() == 0,
        reset.cursor() == 0,
    ensures
        reset.consecutive_request() == fresh.consecutive_request(),
        reset.consecutive_request().url == stats_prefix(reset.endpoint(), reset.service()) + seq![
            '0',
        ],
{
    assert(decimal(0) =~= seq!['0']);
}

/// The queries that are no polls do not read the cursor: two clients that
/// differ in nothing else send the same requests for them.
pub proof fn lemma_queries_ignore_cursor(a: CliObj, b: CliObj, start: u64, max: u64)
    requires
        a.same_binding(&b),
    ensures
        a.from_request(start) == b.from_request(start),
        a.window_request() == b.window_request(),
        a.limited_request(max) == b.limited_request(max),
{
}

} // verus!
