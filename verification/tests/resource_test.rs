use fastly_rt::client::TimestampHolder;
use fastly_rt::exchange::{ClientError, Exchange};
use fastly_rt::origin::{OriginClient, OriginDataInSecond, OriginResponse, OriginStats, ORIGIN_ENDPOINT};
use fastly_rt::service::{
    ServiceClient, ServiceDataInSecond, ServiceResponse, ServiceStats, SERVICE_ENDPOINT,
};
use std::collections::HashMap;

fn ok() -> Exchange {
    Exchange::Completed { status: 200, body: "{}".to_string() }
}

#[test]
fn endpoint_roots() {
    assert_eq!(SERVICE_ENDPOINT, "https://rt.fastly.com/v1/channel");
    assert_eq!(ORIGIN_ENDPOINT, "https://rt.fastly.com/v1/origins");
}

#[test]
fn service_client_addresses() {
    let rt = ServiceClient::new("key", "sid").unwrap();
    assert_eq!(rt.get_stats_consecutive().url, "https://rt.fastly.com/v1/channel/sid/ts/0");
    assert_eq!(rt.get_stats_from(15).url, "https://rt.fastly.com/v1/channel/sid/ts/15");
    assert_eq!(rt.get_stats_120s().url, "https://rt.fastly.com/v1/channel/sid/ts/h");
    assert_eq!(rt.get_stats_max(3).url, "https://rt.fastly.com/v1/channel/sid/ts/h/limit/3");
    assert_eq!(rt.get_stats_max(5).header_name, "fastly-key");
    assert_eq!(rt.get_stats_max(5).header_value, "key");
}

#[test]
fn origin_client_addresses() {
    let rt = OriginClient::new("key", "sid").unwrap();
    assert_eq!(rt.get_stats_consecutive().url, "https://rt.fastly.com/v1/origins/sid/ts/0");
    assert_eq!(rt.get_stats_from(15).url, "https://rt.fastly.com/v1/origins/sid/ts/15");
    assert_eq!(rt.get_stats_120s().url, "https://rt.fastly.com/v1/origins/sid/ts/h");
    assert_eq!(rt.get_stats_max(3).url, "https://rt.fastly.com/v1/origins/sid/ts/h/limit/3");
    assert_eq!(rt.get_stats_from(1).header_name, "fastly-key");
    assert_eq!(rt.get_stats_from(1).header_value, "key");
}

#[test]
fn service_client_polls_consecutively() {
    let mut rt = ServiceClient::new("key", "sid").unwrap();
    let first = rt
        .complete_consecutive(ok(), |_| {
            Ok(ServiceResponse { aggregate_delay: 1, data: vec![], timestamp: 1_650_000_000 })
        })
        .unwrap();
    assert_eq!(first.timestamp, 1_650_000_000);
    assert_eq!(
        rt.get_stats_consecutive().url,
        "https://rt.fastly.com/v1/channel/sid/ts/1650000000"
    );

    let failed = rt.complete_consecutive(ok(), |_| Err("no".to_string()));
    assert_eq!(failed, Err(ClientError::Decode("no".to_string())));
    assert_eq!(
        rt.get_stats_consecutive().url,
        "https://rt.fastly.com/v1/channel/sid/ts/1650000000"
    );

    rt.reset_stats_consecutive();
    assert_eq!(rt.get_stats_consecutive().url, "https://rt.fastly.com/v1/channel/sid/ts/0");
}

#[test]
fn origin_client_polls_consecutively() {
    let mut rt = OriginClient::new("key", "sid").unwrap();
    let entry = OriginDataInSecond {
        recorded: 1_650_000_003,
        aggregated: HashMap::new(),
        datacenter: HashMap::new(),
    };
    let expected =
        OriginResponse { aggregate_delay: 3, data: vec![entry], timestamp: 1_650_000_004 };
    let sent = expected.clone();
    let got = rt.complete_consecutive(ok(), move |_| Ok(sent));
    assert_eq!(got, Ok(expected));
    assert_eq!(
        rt.get_stats_consecutive().url,
        "https://rt.fastly.com/v1/origins/sid/ts/1650000004"
    );

    let refused = Exchange::Completed { status: 401, body: "denied".to_string() };
    let got = rt.complete_consecutive(refused, |_| panic!("nothing to decode"));
    assert_eq!(got, Err(ClientError::Request { status: Some(401), detail: "denied".to_string() }));
    assert_eq!(
        rt.get_stats_consecutive().url,
        "https://rt.fastly.com/v1/origins/sid/ts/1650000004"
    );

    rt.reset_stats_consecutive();
    assert_eq!(rt.get_stats_consecutive().url, "https://rt.fastly.com/v1/origins/sid/ts/0");
}

#[test]
fn complete_leaves_the_cursor() {
    let mut rt = ServiceClient::new("key", "sid").unwrap();
    rt.complete_consecutive(ok(), |_| {
        Ok(ServiceResponse { aggregate_delay: 0, data: vec![], timestamp: 10 })
    })
    .unwrap();
    let got = rt
        .complete(ok(), |_| Ok(ServiceResponse { aggregate_delay: 0, data: vec![], timestamp: 99 }))
        .unwrap();
    assert_eq!(got.timestamp, 99);
    assert_eq!(rt.get_stats_consecutive().url, "https://rt.fastly.com/v1/channel/sid/ts/10");

    let rt = OriginClient::new("key", "sid").unwrap();
    let got = rt.complete(Exchange::Failed { cause: "down".to_string() }, |_| {
        panic!("nothing to decode")
    });
    assert_eq!(got, Err(ClientError::Request { status: None, detail: "down".to_string() }));
}

#[test]
fn responses_report_their_timestamp() {
    let service = ServiceResponse { aggregate_delay: 9, data: vec![], timestamp: 1000 };
    assert_eq!(service.get_timestamp(), 1000);
    let origin = OriginResponse { aggregate_delay: 9, data: vec![], timestamp: 2000 };
    assert_eq!(origin.get_timestamp(), 2000);
}

#[test]
fn default_stats_are_zero() {
    let origin = OriginStats::default();
    assert_eq!(origin.responses, 0);
    assert_eq!(origin.resp_body_bytes, 0);
    assert_eq!(origin.status_1xx, 0);
    assert_eq!(origin.status_200, 0);
    assert_eq!(origin.status_5xx, 0);

    let service = ServiceStats::default();
    assert_eq!(service.requests, 0);
    assert_eq!(service.hits, 0);
    assert_eq!(service.status_503, 0);
    assert_eq!(service.waf_passed, 0);
    assert!(service.miss_histogram.is_empty());
    assert_eq!(f64::from_bits(service.hits_time), 0.0);
    assert_eq!(f64::from_bits(service.miss_time), 0.0);
}

#[test]
fn durations_keep_their_bits() {
    let mut stats = ServiceStats::default();
    stats.hits_time = 0.25f64.to_bits();
    stats.requests = 4;
    let entry =
        ServiceDataInSecond { recorded: 5, aggregated: stats.clone(), datacenter: HashMap::new() };
    assert_eq!(f64::from_bits(entry.aggregated.hits_time), 0.25);
    assert_eq!(entry.aggregated, stats);
}
