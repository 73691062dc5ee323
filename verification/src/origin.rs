//! Per-origin metrics: the records, and the client that asks for them.

use crate::client::{reported, CliObj, TimestampHolder};
use crate::cursor::cursor_after;
use crate::exchange::{accepted, fetch_data, fetched, ClientError, Exchange, Request};
use std::collections::HashMap;
use vstd::prelude::*;

verus! {

/// The endpoint root of the per-origin metrics.
pub const ORIGIN_ENDPOINT: &'static str = "https://rt.fastly.com/v1/origins";

/// One answer of the per-origin endpoint.
#[derive(Debug, Clone, PartialEq, Eq)]
pub struct OriginResponse {
    /// How far, in whole seconds, the entries lag behind the present because
    /// of processing.
    pub aggregate_delay: u64,
    /// The entries, one for each second, in the order they came in.
    pub data: Vec<OriginDataInSecond>,
    /// The timestamp from which the next request should resume.
    pub timestamp: u64,
}

impl TimestampHolder for OriginResponse {
    open spec fn stamp(&self) -> u64 {
        self.timestamp
    }

    fn get_timestamp(&self) -> (t: u64) {
        self.timestamp
    }
}

/// What all origins of a service did in one second.
#[derive(Debug, Clone, PartialEq, Eq)]
pub struct OriginDataInSecond {
    /// The Unix time at which the entry was recorded; 0 where the document
    /// gives none.
    pub recorded: u64,
    /// The measurements of each origin, summed over all points of presence,
    /// by the origin's name.
    pub aggregated: HashMap<String, OriginStats>,
    /// The same by point of presence: the outer key is its name, the inner
    /// key the origin's.
    pub datacenter: HashMap<String, HashMap<String, OriginStats>>,
}

/// The counters of one origin. A counter that the document leaves out is 0.
#[derive(Debug, Clone, PartialEq, Eq)]
pub struct OriginStats {
    pub resp_body_bytes: u64,
    pub resp_header_bytes: u64,
    pub responses: u64,
    pub status_1xx: u64,
    pub status_200: u64,
    pub status_204: u64,
    pub status_206: u64,
    pub status_2xx: u64,
    pub status_301: u64,
    pub status_302: u64,
    pub status_304: u64,
    pub status_3xx: u64,
    pub status_400: u64,
    pub status_401: u64,
    pub status_403: u64,
    pub status_404: u64,
    pub status_416: u64,
    pub status_429: u64,
    pub status_4xx: u64,
    pub status_500: u64,
    pub status_501: u64,
    pub status_502: u64,
    pub status_503: u64,
    pub status_504: u64,
    pub status_505: u64,
    pub status_5xx: u64,
}

impl OriginStats {
    /// Every counter is 0.
    pub open spec fn is_zero(&self) -> bool {
        &&& self.resp_body_bytes == 0
        &&& self.resp_header_bytes == 0
        &&& self.responses == 0
        &&& self.status_1xx == 0
        &&& self.status_200 == 0
        &&& self.status_204 == 0
        &&& self.status_206 == 0
        &&& self.status_2xx == 0
        &&& self.status_301 == 0
        &&& self.status_302 == 0
        &&& self.status_304 == 0
        &&& self.status_3xx == 0
        &&& self.status_400 == 0
        &&& self.status_401 == 0
        &&& self.status_403 == 0
        &&& self.status_404 == 0
        &&& self.status_416 == 0
        &&& self.status_429 == 0
        &&& self.status_4xx == 0
        &&& self.status_500 == 0
        &&& self.status_501 == 0
        &&& self.status_502 == 0
        &&& self.status_503 == 0
        &&& self.status_504 == 0
        &&& self.status_505 == 0
        &&& self.status_5xx == 0
    }
}

impl Default for OriginStats {
    fn default() -> (stats: OriginStats)
        ensures
            stats.is_zero(),
    {
        OriginStats {
            resp_body_bytes: 0,
            resp_header_bytes: 0,
            responses: 0,
            status_1xx: 0,
            status_200: 0,
            status_204: 0,
            status_206: 0,
            status_2xx: 0,
            status_301: 0,
            status_302: 0,
            status_304: 0,
            status_3xx: 0,
            status_400: 0,
            status_401: 0,
            status_403: 0,
            status_404: 0,
            status_416: 0,
            status_429: 0,
            status_4xx: 0,
            status_500: 0,
            status_501: 0,
            status_502: 0,
            status_503: 0,
            status_504: 0,
            status_505: 0,
            status_5xx: 0,
        }
    }
}

/// The client of the per-origin endpoint.
pub struct OriginClient {
    cli: CliObj,
}

impl OriginClient {
    /// The client core that this client is a binding of.
    pub closed spec fn inner(&self) -> CliObj {
        self.cli
    }

    /// A client for the origins of service `service_id`, with its cursor at 0.
    ///
    /// Nothing is sent. Where the transport cannot be made, the error is a
    /// configuration error.
    pub fn new(api_key: &str, service_id: &str) -> (r: Result<OriginClient, ClientError>)
        ensures
            match r {
                Ok(client) => {
                    &&& client.inner().credential() == api_key@
                    &&& client.inner().service() == service_id@
                    &&& client.inner().endpoint() == ORIGIN_ENDPOINT@
                    &&& client.inner().cursor() == 0
                },
                Err(error) => error is Configuration,
            },
    {
        match CliObj::new(api_key, service_id, ORIGIN_ENDPOINT) {
            Ok(cli) => Ok(OriginClient { cli }),
            Err(error) => Err(error),
        }
    }

    /// The transport handle, for the caller to send requests with.
    pub fn transport(&self) -> (handle: &reqwest::Client)
        ensures
            *handle == self.inner().transport_handle(),
    {
        self.cli.transport()
    }

    /// Puts the cursor back to 0: the next poll is a first poll again.
    pub fn reset_stats_consecutive(&mut self)
        ensures
            final(self).inner().cursor() == 0,
            final(self).inner().same_binding(&old(self).inner()),
    {
        self.cli.reset_stats_consecutive();
    }

    /// The request of a poll. The first poll asks for the latest second; each
    /// later one for what came since the poll before it.
    pub fn get_stats_consecutive(&self) -> (request: Request)
        ensures
            request@ == self.inner().consecutive_request(),
    {
        self.cli.get_stats_consecutive()
    }

    /// The request for everything since `start_timestamp`.
    pub fn get_stats_from(&self, start_timestamp: u64) -> (request: Request)
        ensures
            request@ == self.inner().from_request(start_timestamp),
    {
        self.cli.get_stats_from(start_timestamp)
    }

    /// The request for the 120 seconds before the latest timestamp.
    pub fn get_stats_120s(&self) -> (request: Request)
        ensures
            request@ == self.inner().window_request(),
    {
        self.cli.get_stats_120s()
    }

    /// The request for at most `max_entries` entries of those 120 seconds.
    pub fn get_stats_max(&self, max_entries: u64) -> (request: Request)
        ensures
            request@ == self.inner().limited_request(max_entries),
    {
        self.cli.get_stats_max(max_entries)
    }

    /// Completes a query that is no poll with the exchange that its request
    /// came to. The cursor plays no part.
    pub fn complete<D: FnOnce(String) -> Result<OriginResponse, String>>(
        &self,
        exchange: Exchange,
        decode: D,
    ) -> (r: Result<OriginResponse, ClientError>)
        requires
            accepted(exchange) matches Ok(body) ==> call_requires(decode, (body,)),
        ensures
            exists|verdict: Result<OriginResponse, String>|
                {
                    &&& accepted(exchange) matches Ok(body) ==> call_ensures(
                        decode,
                        (body,),
                        verdict,
                    )
                    &&& r == fetched(exchange, verdict)
                },
    {
        fetch_data(exchange, decode)
    }

    /// Completes a poll with the exchange that its request came to. The
    /// cursor moves to the answer's timestamp, or, after an error, not at all.
    pub fn complete_consecutive<D: FnOnce(String) -> Result<OriginResponse, String>>(
        &mut self,
        exchange: Exchange,
        decode: D,
    ) -> (r: Result<OriginResponse, ClientError>)
        requires
            accepted(exchange) matches Ok(body) ==> call_requires(decode, (body,)),
        ensures
            exists|verdict: Result<OriginResponse, String>|
                {
                    &&& accepted(exchange) matches Ok(body) ==> call_ensures(
                        decode,
                        (body,),
                        verdict,
                    )
                    &&& r == fetched(exchange, verdict)
                },
            final(self).inner().cursor() == cursor_after(old(self).inner().cursor(), reported(r)),
            final(self).inner().same_binding(&old(self).inner()),
    {
        self.cli.complete_consecutive(exchange, decode)
    }
}

} // verus!
