//! Per-service metrics: the records, and the client that asks for them.

use crate::client::{reported, CliObj, TimestampHolder};
use crate::cursor::cursor_after;
use crate::exchange::{accepted, fetch_data, fetched, ClientError, Exchange, Request};
use std::collections::HashMap;
use vstd::prelude::*;

verus! {

/// The endpoint root of the per-service metrics.
pub const SERVICE_ENDPOINT: &'static str = "https://rt.fastly.com/v1/channel";

/// One answer of the per-service endpoint.
#[derive(Debug, Clone, PartialEq, Eq)]
pub struct ServiceResponse {
    /// How far, in whole seconds, the entries lag behind the present because
    /// of processing.
    pub aggregate_delay: u64,
    /// The entries, one for each second, in the order they came in.
    pub data: Vec<ServiceDataInSecond>,
    /// The timestamp from which the next request should resume.
    pub timestamp: u64,
}

impl TimestampHolder for ServiceResponse {
    open spec fn stamp(&self) -> u64 {
        self.timestamp
    }

    fn get_timestamp(&self) -> (t: u64) {
        self.timestamp
    }
}

/// What a service did in one second.
#[derive(Debug, Clone, PartialEq, Eq)]
pub struct ServiceDataInSecond {
    /// The Unix time at which the entry was recorded; 0 where the document
    /// gives none.
    pub recorded: u64,
    /// The measurements, summed over all points of presence.
    pub aggregated: ServiceStats,
    /// The same for each point of presence, by its name.
    pub datacenter: HashMap<String, ServiceStats>,
}

/// The measurements of a service. One that the document leaves out is 0, or
/// empty.
///
/// A duration is a fraction of a second on the wire. It is kept here as the
/// bits of the IEEE 754 double that the document's number reads as, so that
/// it is kept whole: all bits 0 is the duration 0.
#[derive(Debug, Clone, PartialEq, Eq)]
pub struct ServiceStats {
    pub attack_blocked_req_body_bytes: u64,
    pub attack_blocked_req_header_bytes: u64,
    pub attack_logged_req_body_bytes: u64,
    pub attack_logged_req_header_bytes: u64,
    pub attack_passed_req_body_bytes: u64,
    pub attack_passed_req_header_bytes: u64,
    pub attack_req_body_bytes: u64,
    pub attack_req_header_bytes: u64,
    pub attack_resp_synth_bytes: u64,
    pub bereq_body_bytes: u64,
    pub bereq_header_bytes: u64,
    pub body_size: u64,
    pub compute_bereq_body_bytes: u64,
    pub compute_bereq_errors: u64,
    pub compute_bereq_header_bytes: u64,
    pub compute_bereqs: u64,
    pub compute_beresp_body_bytes: u64,
    pub compute_beresp_header_bytes: u64,
    /// Seconds, as the bits of an IEEE 754 double.
    pub compute_execution_time_ms: u64,
    pub compute_globals_limit_exceeded: u64,
    pub compute_guest_errors: u64,
    pub compute_heap_limit_exceeded: u64,
    pub compute_ram_used: u64,
    pub compute_req_body_bytes: u64,
    pub compute_req_header_bytes: u64,
    /// Seconds, as the bits of an IEEE 754 double.
    pub compute_request_time_ms: u64,
    pub compute_requests: u64,
    pub compute_resource_limit_exceeded: u64,
    pub compute_resp_body_bytes: u64,
    pub compute_resp_header_bytes: u64,
    pub compute_resp_status_1xx: u64,
    pub compute_resp_status_2xx: u64,
    pub compute_resp_status_3xx: u64,
    pub compute_resp_status_4xx: u64,
    pub compute_resp_status_5xx: u64,
    pub compute_runtime_errors: u64,
    pub compute_stack_limit_exceeded: u64,
    pub deliver_sub_count: u64,
    /// Seconds, as the bits of an IEEE 754 double.
    pub deliver_sub_time: u64,
    pub edge_hit_requests: u64,
    pub edge_hit_resp_body_bytes: u64,
    pub edge_hit_resp_header_bytes: u64,
    pub edge_miss_requests: u64,
    pub edge_miss_resp_body_bytes: u64,
    pub edge_miss_resp_header_bytes: u64,
    pub edge_requests: u64,
    pub edge_resp_body_bytes: u64,
    pub edge_resp_header_bytes: u64,
    pub error_sub_count: u64,
    /// Seconds, as the bits of an IEEE 754 double.
    pub error_sub_time: u64,
    pub errors: u64,
    pub fetch_sub_count: u64,
    /// Seconds, as the bits of an IEEE 754 double.
    pub fetch_sub_time: u64,
    pub hash_sub_count: u64,
    pub hash_sub_time: u64,
    pub header_size: u64,
    pub hit_resp_body_bytes: u64,
    pub hit_sub_count: u64,
    /// Seconds, as the bits of an IEEE 754 double.
    pub hit_sub_time: u64,
    pub hits: u64,
    /// Seconds, as the bits of an IEEE 754 double.
    pub hits_time: u64,
    pub http2: u64,
    pub http3: u64,
    pub imgopto: u64,
    pub imgopto_resp_body_bytes: u64,
    pub imgopto_resp_header_bytes: u64,
    pub imgopto_shield: u64,
    pub imgopto_shield_resp_body_bytes: u64,
    pub imgopto_shield_resp_header_bytes: u64,
    pub imgopto_transforms: u64,
    pub imgvideo: u64,
    pub imgvideo_frames: u64,
    pub imgvideo_resp_body_bytes: u64,
    pub imgvideo_resp_header_bytes: u64,
    pub imgvideo_shield: u64,
    pub imgvideo_shield_frames: u64,
    pub imgvideo_shield_resp_body_bytes: u64,
    pub imgvideo_shield_resp_header_bytes: u64,
    pub ipv6: u64,
    pub log: u64,
    pub log_bytes: u64,
    pub logging: u64,
    pub miss: u64,
    /// Counts by bucket; the key is the bucket's name.
    pub miss_histogram: HashMap<String, u64>,
    pub miss_resp_body_bytes: u64,
    pub miss_sub_count: u64,
    /// Seconds, as the bits of an IEEE 754 double.
    pub miss_sub_time: u64,
    /// Seconds, as the bits of an IEEE 754 double.
    pub miss_time: u64,
    pub object_size_100k: u64,
    pub object_size_100m: u64,
    pub object_size_10k: u64,
    pub object_size_10m: u64,
    pub object_size_1g: u64,
    pub object_size_1k: u64,
    pub object_size_1m: u64,
    pub object_size_other: u64,
    pub origin_cache_fetch_resp_body_bytes: u64,
    pub origin_cache_fetch_resp_header_bytes: u64,
    pub origin_cache_fetches: u64,
    pub origin_fetch_body_bytes: u64,
    pub origin_fetch_header_bytes: u64,
    pub origin_fetch_resp_body_bytes: u64,
    pub origin_fetch_resp_header_bytes: u64,
    pub origin_fetches: u64,
    pub origin_revalidations: u64,
    pub otfp: u64,
    /// Seconds, as the bits of an IEEE 754 double.
    pub otfp_deliver_time: u64,
    pub otfp_manifests: u64,
    pub otfp_resp_body_bytes: u64,
    pub otfp_resp_header_bytes: u64,
    pub otfp_shield: u64,
    pub otfp_shield_resp_body_bytes: u64,
    pub otfp_shield_resp_header_bytes: u64,
    /// Seconds, as the bits of an IEEE 754 double.
    pub otfp_shield_time: u64,
    pub pass: u64,
    pub pass_resp_body_bytes: u64,
    pub pass_sub_count: u64,
    /// Seconds, as the bits of an IEEE 754 double.
    pub pass_sub_time: u64,
    /// Seconds, as the bits of an IEEE 754 double.
    pub pass_time: u64,
    pub pci: u64,
    pub pipe_sub_count: u64,
    /// Seconds, as the bits of an IEEE 754 double.
    pub pipe_sub_time: u64,
    pub predeliver_sub_count: u64,
    /// Seconds, as the bits of an IEEE 754 double.
    pub predeliver_sub_time: u64,
    pub prehash_sub_count: u64,
    /// Seconds, as the bits of an IEEE 754 double.
    pub prehash_sub_time: u64,
    pub recv_sub_count: u64,
    /// Seconds, as the bits of an IEEE 754 double.
    pub recv_sub_time: u64,
    pub req_body_bytes: u64,
    pub req_header_bytes: u64,
    pub requests: u64,
    pub resp_body_bytes: u64,
    pub resp_header_bytes: u64,
    pub restarts: u64,
    pub segblock_origin_fetches: u64,
    pub segblock_shield_fetches: u64,
    pub shield: u64,
    pub shield_cache_fetches: u64,
    pub shield_fetch_body_bytes: u64,
    pub shield_fetch_header_bytes: u64,
    pub shield_fetch_resp_body_bytes: u64,
    pub shield_fetch_resp_header_bytes: u64,
    pub shield_fetches: u64,
    pub shield_resp_body_bytes: u64,
    pub shield_resp_header_bytes: u64,
    pub shield_revalidations: u64,
    pub status_1xx: u64,
    pub status_200: u64,
    pub status_204: u64,
    pub status_206: u64,
    pub status_2xx: u64,
    pub status_301: u64,
    pub status_302: u64,
    pub status_304: u64,
    pub status_3xx: u64,
    pub status_400: u64,
    pub status_401: u64,
    pub status_403: u64,
    pub status_404: u64,
    pub status_416: u64,
    pub status_429: u64,
    pub status_4xx: u64,
    pub status_500: u64,
    pub status_501: u64,
    pub status_502: u64,
    pub status_503: u64,
    pub status_504: u64,
    pub status_505: u64,
    pub status_5xx: u64,
    pub synth: u64,
    pub tls: u64,
    pub tls_v10: u64,
    pub tls_v11: u64,
    pub tls_v12: u64,
    pub tls_v13: u64,
    pub uncacheable: u64,
    pub video: u64,
    pub waf_blocked: u64,
    pub waf_logged: u64,
    pub waf_passed: u64,
}

impl ServiceStats {
    /// Every measurement is 0, and no bucket is counted.
    pub open spec fn is_zero(&self) -> bool {
        &&& self.attack_blocked_req_body_bytes == 0
        &&& self.attack_blocked_req_header_bytes == 0
        &&& self.attack_logged_req_body_bytes == 0
        &&& self.attack_logged_req_header_bytes == 0
        &&& self.attack_passed_req_body_bytes == 0
        &&& self.attack_passed_req_header_bytes == 0
        &&& self.attack_req_body_bytes == 0
        &&& self.attack_req_header_bytes == 0
        &&& self.attack_resp_synth_bytes == 0
        &&& self.bereq_body_bytes == 0
        &&& self.bereq_header_bytes == 0
        &&& self.body_size == 0
        &&& self.compute_bereq_body_bytes == 0
        &&& self.compute_bereq_errors == 0
        &&& self.compute_bereq_header_bytes == 0
        &&& self.compute_bereqs == 0
        &&& self.compute_beresp_body_bytes == 0
        &&& self.compute_beresp_header_bytes == 0
        &&& self.compute_execution_time_ms == 0
        &&& self.compute_globals_limit_exceeded == 0
        &&& self.compute_guest_errors == 0
        &&& self.compute_heap_limit_exceeded == 0
        &&& self.compute_ram_used == 0
        &&& self.compute_req_body_bytes == 0
        &&& self.compute_req_header_bytes == 0
        &&& self.compute_request_time_ms == 0
        &&& self.compute_requests == 0
        &&& self.compute_resource_limit_exceeded == 0
        &&& self.compute_resp_body_bytes == 0
        &&& self.compute_resp_header_bytes == 0
        &&& self.compute_resp_status_1xx == 0
        &&& self.compute_resp_status_2xx == 0
        &&& self.compute_resp_status_3xx == 0
        &&& self.compute_resp_status_4xx == 0
        &&& self.compute_resp_status_5xx == 0
        &&& self.compute_runtime_errors == 0
        &&& self.compute_stack_limit_exceeded == 0
        &&& self.deliver_sub_count == 0
        &&& self.deliver_sub_time == 0
        &&& self.edge_hit_requests == 0
        &&& self.edge_hit_resp_body_bytes == 0
        &&& self.edge_hit_resp_header_bytes == 0
        &&& self.edge_miss_requests == 0
        &&& self.edge_miss_resp_body_bytes == 0
        &&& self.edge_miss_resp_header_bytes == 0
        &&& self.edge_requests == 0
        &&& self.edge_resp_body_bytes == 0
        &&& self.edge_resp_header_bytes == 0
        &&& self.error_sub_count == 0
        &&& self.error_sub_time == 0
        &&& self.errors == 0
        &&& self.fetch_sub_count == 0
        &&& self.fetch_sub_time == 0
        &&& self.hash_sub_count == 0
        &&& self.hash_sub_time == 0
        &&& self.header_size == 0
        &&& self.hit_resp_body_bytes == 0
        &&& self.hit_sub_count == 0
        &&& self.hit_sub_time == 0
        &&& self.hits == 0
        &&& self.hits_time == 0
        &&& self.http2 == 0
        &&& self.http3 == 0
        &&& self.imgopto == 0
        &&& self.imgopto_resp_body_bytes == 0
        &&& self.imgopto_resp_header_bytes == 0
        &&& self.imgopto_shield == 0
        &&& self.imgopto_shield_resp_body_bytes == 0
        &&& self.imgopto_shield_resp_header_bytes == 0
        &&& self.imgopto_transforms == 0
        &&& self.imgvideo == 0
        &&& self.imgvideo_frames == 0
        &&& self.imgvideo_resp_body_bytes == 0
        &&& self.imgvideo_resp_header_bytes == 0
        &&& self.imgvideo_shield == 0
        &&& self.imgvideo_shield_frames == 0
        &&& self.imgvideo_shield_resp_body_bytes == 0
        &&& self.imgvideo_shield_resp_header_bytes == 0
        &&& self.ipv6 == 0
        &&& self.log == 0
        &&& self.log_bytes == 0
        &&& self.logging == 0
        &&& self.miss == 0
        &&& self.miss_histogram@ == Map::<String, u64>::empty()
        &&& self.miss_resp_body_bytes == 0
        &&& self.miss_sub_count == 0
        &&& self.miss_sub_time == 0
        &&& self.miss_time == 0
        &&& self.object_size_100k == 0
        &&& self.object_size_100m == 0
        &&& self.object_size_10k == 0
        &&& self.object_size_10m == 0
        &&& self.object_size_1g == 0
        &&& self.object_size_1k == 0
        &&& self.object_size_1m == 0
        &&& self.object_size_other == 0
        &&& self.origin_cache_fetch_resp_body_bytes == 0
        &&& self.origin_cache_fetch_resp_header_bytes == 0
        &&& self.origin_cache_fetches == 0
        &&& self.origin_fetch_body_bytes == 0
        &&& self.origin_fetch_header_bytes == 0
        &&& self.origin_fetch_resp_body_bytes == 0
        &&& self.origin_fetch_resp_header_bytes == 0
        &&& self.origin_fetches == 0
        &&& self.origin_revalidations == 0
        &&& self.otfp == 0
        &&& self.otfp_deliver_time == 0
        &&& self.otfp_manifests == 0
        &&& self.otfp_resp_body_bytes == 0
        &&& self.otfp_resp_header_bytes == 0
        &&& self.otfp_shield == 0
        &&& self.otfp_shield_resp_body_bytes == 0
        &&& self.otfp_shield_resp_header_bytes == 0
        &&& self.otfp_shield_time == 0
        &&& self.pass == 0
        &&& self.pass_resp_body_bytes == 0
        &&& self.pass_sub_count == 0
        &&& self.pass_sub_time == 0
        &&& self.pass_time == 0
        &&& self.pci == 0
        &&& self.pipe_sub_count == 0
        &&& self.pipe_sub_time == 0
        &&& self.predeliver_sub_count == 0
        &&& self.predeliver_sub_time == 0
        &&& self.prehash_sub_count == 0
        &&& self.prehash_sub_time == 0
        &&& self.recv_sub_count == 0
        &&& self.recv_sub_time == 0
        &&& self.req_body_bytes == 0
        &&& self.req_header_bytes == 0
        &&& self.requests == 0
        &&& self.resp_body_bytes == 0
        &&& self.resp_header_bytes == 0
        &&& self.restarts == 0
        &&& self.segblock_origin_fetches == 0
        &&& self.segblock_shield_fetches == 0
        &&& self.shield == 0
        &&& self.shield_cache_fetches == 0
        &&& self.shield_fetch_body_bytes == 0
        &&& self.shield_fetch_header_bytes == 0
        &&& self.shield_fetch_resp_body_bytes == 0
        &&& self.shield_fetch_resp_header_bytes == 0
        &&& self.shield_fetches == 0
        &&& self.shield_resp_body_bytes == 0
        &&& self.shield_resp_header_bytes == 0
        &&& self.shield_revalidations == 0
        &&& self.status_1xx == 0
        &&& self.status_200 == 0
        &&& self.status_204 == 0
        &&& self.status_206 == 0
        &&& self.status_2xx == 0
        &&& self.status_301 == 0
        &&& self.status_302 == 0
        &&& self.status_304 == 0
        &&& self.status_3xx == 0
        &&& self.status_400 == 0
        &&& self.status_401 == 0
        &&& self.status_403 == 0
        &&& self.status_404 == 0
        &&& self.status_416 == 0
        &&& self.status_429 == 0
        &&& self.status_4xx == 0
        &&& self.status_500 == 0
        &&& self.status_501 == 0
        &&& self.status_502 == 0
        &&& self.status_503 == 0
        &&& self.status_504 == 0
        &&& self.status_505 == 0
        &&& self.status_5xx == 0
        &&& self.synth == 0
        &&& self.tls == 0
        &&& self.tls_v10 == 0
        &&& self.tls_v11 == 0
        &&& self.tls_v12 == 0
        &&& self.tls_v13 == 0
        &&& self.uncacheable == 0
        &&& self.video == 0
        &&& self.waf_blocked == 0
        &&& self.waf_logged == 0
        &&& self.waf_passed == 0
    }
}

impl Default for ServiceStats {
    fn default() -> (stats: ServiceStats)
        ensures
            stats.is_zero(),
    {
        ServiceStats {
            attack_blocked_req_body_bytes: 0,
            attack_blocked_req_header_bytes: 0,
            attack_logged_req_body_bytes: 0,
            attack_logged_req_header_bytes: 0,
            attack_passed_req_body_bytes: 0,
            attack_passed_req_header_bytes: 0,
            attack_req_body_bytes: 0,
            attack_req_header_bytes: 0,
            attack_resp_synth_bytes: 0,
            bereq_body_bytes: 0,
            bereq_header_bytes: 0,
            body_size: 0,
            compute_bereq_body_bytes: 0,
            compute_bereq_errors: 0,
            compute_bereq_header_bytes: 0,
            compute_bereqs: 0,
            compute_beresp_body_bytes: 0,
            compute_beresp_header_bytes: 0,
            compute_execution_time_ms: 0,
            compute_globals_limit_exceeded: 0,
            compute_guest_errors: 0,
            compute_heap_limit_exceeded: 0,
            compute_ram_used: 0,
            compute_req_body_bytes: 0,
            compute_req_header_bytes: 0,
            compute_request_time_ms: 0,
            compute_requests: 0,
            compute_resource_limit_exceeded: 0,
            compute_resp_body_bytes: 0,
            compute_resp_header_bytes: 0,
            compute_resp_status_1xx: 0,
            compute_resp_status_2xx: 0,
            compute_resp_status_3xx: 0,
            compute_resp_status_4xx: 0,
            compute_resp_status_5xx: 0,
            compute_runtime_errors: 0,
            compute_stack_limit_exceeded: 0,
            deliver_sub_count: 0,
            deliver_sub_time: 0,
            edge_hit_requests: 0,
            edge_hit_resp_body_bytes: 0,
            edge_hit_resp_header_bytes: 0,
            edge_miss_requests: 0,
            edge_miss_resp_body_bytes: 0,
            edge_miss_resp_header_bytes: 0,
            edge_requests: 0,
            edge_resp_body_bytes: 0,
            edge_resp_header_bytes: 0,
            error_sub_count: 0,
            error_sub_time: 0,
            errors: 0,
            fetch_sub_count: 0,
            fetch_sub_time: 0,
            hash_sub_count: 0,
            hash_sub_time: 0,
            header_size: 0,
            hit_resp_body_bytes: 0,
            hit_sub_count: 0,
            hit_sub_time: 0,
            hits: 0,
            hits_time: 0,
            http2: 0,
            http3: 0,
            imgopto: 0,
            imgopto_resp_body_bytes: 0,
            imgopto_resp_header_bytes: 0,
            imgopto_shield: 0,
            imgopto_shield_resp_body_bytes: 0,
            imgopto_shield_resp_header_bytes: 0,
            imgopto_transforms: 0,
            imgvideo: 0,
            imgvideo_frames: 0,
            imgvideo_resp_body_bytes: 0,
            imgvideo_resp_header_bytes: 0,
            imgvideo_shield: 0,
            imgvideo_shield_frames: 0,
            imgvideo_shield_resp_body_bytes: 0,
            imgvideo_shield_resp_header_bytes: 0,
            ipv6: 0,
            log: 0,
            log_bytes: 0,
            logging: 0,
            miss: 0,
            miss_histogram: HashMap::new(),
            miss_resp_body_bytes: 0,
            miss_sub_count: 0,
            miss_sub_time: 0,
            miss_time: 0,
            object_size_100k: 0,
            object_size_100m: 0,
            object_size_10k: 0,
            object_size_10m: 0,
            object_size_1g: 0,
            object_size_1k: 0,
            object_size_1m: 0,
            object_size_other: 0,
            origin_cache_fetch_resp_body_bytes: 0,
            origin_cache_fetch_resp_header_bytes: 0,
            origin_cache_fetches: 0,
            origin_fetch_body_bytes: 0,
            origin_fetch_header_bytes: 0,
            origin_fetch_resp_body_bytes: 0,
            origin_fetch_resp_header_bytes: 0,
            origin_fetches: 0,
            origin_revalidations: 0,
            otfp: 0,
            otfp_deliver_time: 0,
            otfp_manifests: 0,
            otfp_resp_body_bytes: 0,
            otfp_resp_header_bytes: 0,
            otfp_shield: 0,
            otfp_shield_resp_body_bytes: 0,
            otfp_shield_resp_header_bytes: 0,
            otfp_shield_time: 0,
            pass: 0,
            pass_resp_body_bytes: 0,
            pass_sub_count: 0,
            pass_sub_time: 0,
            pass_time: 0,
            pci: 0,
            pipe_sub_count: 0,
            pipe_sub_time: 0,
            predeliver_sub_count: 0,
            predeliver_sub_time: 0,
            prehash_sub_count: 0,
            prehash_sub_time: 0,
            recv_sub_count: 0,
            recv_sub_time: 0,
            req_body_bytes: 0,
            req_header_bytes: 0,
            requests: 0,
            resp_body_bytes: 0,
            resp_header_bytes: 0,
            restarts: 0,
            segblock_origin_fetches: 0,
            segblock_shield_fetches: 0,
            shield: 0,
            shield_cache_fetches: 0,
            shield_fetch_body_bytes: 0,
            shield_fetch_header_bytes: 0,
            shield_fetch_resp_body_bytes: 0,
            shield_fetch_resp_header_bytes: 0,
            shield_fetches: 0,
            shield_resp_body_bytes: 0,
            shield_resp_header_bytes: 0,
            shield_revalidations: 0,
            status_1xx: 0,
            status_200: 0,
            status_204: 0,
            status_206: 0,
            status_2xx: 0,
            status_301: 0,
            status_302: 0,
            status_304: 0,
            status_3xx: 0,
            status_400: 0,
            status_401: 0,
            status_403: 0,
            status_404: 0,
            status_416: 0,
            status_429: 0,
            status_4xx: 0,
            status_500: 0,
            status_501: 0,
            status_502: 0,
            status_503: 0,
            status_504: 0,
            status_505: 0,
            status_5xx: 0,
            synth: 0,
            tls: 0,
            tls_v10: 0,
            tls_v11: 0,
            tls_v12: 0,
            tls_v13: 0,
            uncacheable: 0,
            video: 0,
            waf_blocked: 0,
            waf_logged: 0,
            waf_passed: 0,
        }
    }
}

/// The client of the per-service endpoint.
pub struct ServiceClient {
    cli: CliObj,
}

impl ServiceClient {
    /// The client core that this client is a binding of.
    pub closed spec fn inner(&self) -> CliObj {
        self.cli
    }

    /// A client for service `service_id`, with its cursor at 0.
    ///
    /// Nothing is sent. Where the transport cannot be made, the error is a
    /// configuration error.
    pub fn new(api_key: &str, service_id: &str) -> (r: Result<ServiceClient, ClientError>)
        ensures
            match r {
                Ok(client) => {
                    &&& client.inner().credential() == api_key@
                    &&& client.inner().service() == service_id@
                    &&& client.inner().endpoint() == SERVICE_ENDPOINT@
                    &&& client.inner().cursor() == 0
                },
                Err(error) => error is Configuration,
            },
    {
        match CliObj::new(api_key, service_id, SERVICE_ENDPOINT) {
            Ok(cli) => Ok(ServiceClient { cli }),
            Err(error) => Err(error),
        }
    }

    /// The transport handle, for the caller to send requests with.
    pub fn transport(&self) -> (handle: &reqwest::Client)
        ensures
            *handle == self.inner().transport_handle(),
    {
        self.cli.transport()
    }

    /// Puts the cursor back to 0: the next poll is a first poll again.
    pub fn reset_stats_consecutive(&mut self)
        ensures
            final(self).inner().cursor() == 0,
            final(self).inner().same_binding(&old(self).inner()),
    {
        self.cli.reset_stats_consecutive();
    }

    /// The request of a poll. The first poll asks for the latest second; each
    /// later one for what came since the poll before it.
    pub fn get_stats_consecutive(&self) -> (request: Request)
        ensures
            request@ == self.inner().consecutive_request(),
    {
        self.cli.get_stats_consecutive()
    }

    /// The request for everything since `start_timestamp`.
    pub fn get_stats_from(&self, start_timestamp: u64) -> (request: Request)
        ensures
            request@ == self.inner().from_request(start_timestamp),
    {
        self.cli.get_stats_from(start_timestamp)
    }

    /// The request for the 120 seconds before the latest timestamp.
    pub fn get_stats_120s(&self) -> (request: Request)
        ensures
            request@ == self.inner().window_request(),
    {
        self.cli.get_stats_120s()
    }

    /// The request for at most `max_entries` entries of those 120 seconds.
    pub fn get_stats_max(&self, max_entries: u64) -> (request: Request)
        ensures
            request@ == self.inner().limited_request(max_entries),
    {
        self.cli.get_stats_max(max_entries)
    }

    /// Completes a query that is no poll with the exchange that its request
    /// came to. The cursor plays no part.
    pub fn complete<D: FnOnce(String) -> Result<ServiceResponse, String>>(
        &self,
        exchange: Exchange,
        decode: D,
    ) -> (r: Result<ServiceResponse, ClientError>)
        requires
            accepted(exchange) matches Ok(body) ==> call_requires(decode, (body,)),
        ensures
            exists|verdict: Result<ServiceResponse, String>|
                {
                    &&& accepted(exchange) matches Ok(body) ==> call_ensures(
                        decode,
                        (body,),
                        verdict,
                    )
                    &&& r == fetched(exchange, verdict)
                },
    {
        fetch_data(exchange, decode)
    }

    /// Completes a poll with the exchange that its request came to. The
    /// cursor moves to the answer's timestamp, or, after an error, not at all.
    pub fn complete_consecutive<D: FnOnce(String) -> Result<ServiceResponse, String>>(
        &mut self,
        exchange: Exchange,
        decode: D,
    ) -> (r: Result<ServiceResponse, ClientError>)
        requires
            accepted(exchange) matches Ok(body) ==> call_requires(decode, (body,)),
        ensures
            exists|verdict: Result<ServiceResponse, String>|
                {
                    &&& accepted(exchange) matches Ok(body) ==> call_ensures(
                        decode,
                        (body,),
                        verdict,
                    )
                    &&& r == fetched(exchange, verdict)
                },
            final(self).inner().cursor() == cursor_after(old(self).inner().cursor(), reported(r)),
            final(self).inner().same_binding(&old(self).inner()),
    {
        self.cli.complete_consecutive(exchange, decode)
    }
}

} // verus!
