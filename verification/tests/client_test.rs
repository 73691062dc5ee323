use fastly_rt::client::CliObj;
use fastly_rt::exchange::{ClientError, Exchange};
use fastly_rt::service::ServiceResponse;

const ROOT: &str = "https://rt.example.com/v1/channel";

fn client() -> CliObj {
    CliObj::new("secret", "abc123", ROOT).unwrap()
}

fn answer(timestamp: u64) -> ServiceResponse {
    ServiceResponse { aggregate_delay: 2, data: vec![], timestamp }
}

fn ok(body: &str) -> Exchange {
    Exchange::Completed { status: 200, body: body.to_string() }
}

#[test]
fn new_client_keeps_key_and_starts_at_zero() {
    let cli = client();
    assert_eq!(cli.api_key, "secret");
    assert_eq!(cli.timestamp(), 0);
}

#[test]
fn every_request_carries_the_key_header() {
    let cli = client();
    for request in [
        cli.get_stats_consecutive(),
        cli.get_stats_from(7),
        cli.get_stats_120s(),
        cli.get_stats_max(7),
    ] {
        assert_eq!(request.header_name, "fastly-key");
        assert_eq!(request.header_value, "secret");
    }
}

#[test]
fn poll_resumes_from_the_answer() {
    let mut cli = client();
    let first = cli.get_stats_consecutive();
    assert_eq!(first.url, "https://rt.example.com/v1/channel/abc123/ts/0");

    let body = "{\"Timestamp\": 1000, \"Data\": [], \"AggregateDelay\": 2}";
    let got = cli.complete_consecutive(ok(body), |text: String| {
        assert_eq!(text, body);
        Ok(answer(1000))
    });
    assert_eq!(got, Ok(answer(1000)));
    assert_eq!(cli.timestamp(), 1000);

    let second = cli.get_stats_consecutive();
    assert_eq!(second.url, "https://rt.example.com/v1/channel/abc123/ts/1000");
}

#[test]
fn cursor_follows_each_answer_in_turn() {
    let mut cli = client();
    for timestamp in [5u64, 6, 6, 1_700_000_000, 3] {
        let got = cli.complete_consecutive(ok("{}"), move |_| Ok(answer(timestamp)));
        assert_eq!(got.unwrap().timestamp, timestamp);
        assert_eq!(cli.timestamp(), timestamp);
        assert_eq!(
            cli.get_stats_consecutive().url,
            format!("{}/abc123/ts/{}", ROOT, timestamp)
        );
    }
}

#[test]
fn reset_makes_the_next_poll_a_first_poll() {
    let fresh = client().get_stats_consecutive();
    let mut cli = client();
    cli.complete_consecutive(ok("{}"), |_| Ok(answer(1234))).unwrap();
    assert_ne!(cli.get_stats_consecutive(), fresh);
    cli.reset_stats_consecutive();
    assert_eq!(cli.timestamp(), 0);
    assert_eq!(cli.get_stats_consecutive(), fresh);
    assert!(cli.get_stats_consecutive().url.ends_with("/ts/0"));
}

#[test]
fn request_error_leaves_the_cursor() {
    let mut cli = client();
    cli.complete_consecutive(ok("{}"), |_| Ok(answer(77))).unwrap();
    let before = cli.get_stats_consecutive();

    let refused = Exchange::Completed { status: 503, body: "busy".to_string() };
    let got: Result<ServiceResponse, ClientError> =
        cli.complete_consecutive(refused, |_| panic!("nothing to decode"));
    assert_eq!(
        got,
        Err(ClientError::Request { status: Some(503), detail: "busy".to_string() })
    );
    assert_eq!(cli.timestamp(), 77);
    assert_eq!(cli.get_stats_consecutive(), before);

    let lost = Exchange::Failed { cause: "timed out".to_string() };
    let got: Result<ServiceResponse, ClientError> =
        cli.complete_consecutive(lost, |_| panic!("nothing to decode"));
    assert_eq!(
        got,
        Err(ClientError::Request { status: None, detail: "timed out".to_string() })
    );
    assert_eq!(cli.timestamp(), 77);
    assert_eq!(cli.get_stats_consecutive(), before);
}

#[test]
fn decode_error_leaves_the_cursor() {
    let mut cli = client();
    cli.complete_consecutive(ok("{}"), |_| Ok(answer(77))).unwrap();
    let before = cli.get_stats_consecutive();

    let got: Result<ServiceResponse, ClientError> =
        cli.complete_consecutive(ok("[]"), |_| Err("not a document".to_string()));
    assert_eq!(got, Err(ClientError::Decode("not a document".to_string())));
    assert_eq!(cli.timestamp(), 77);
    assert_eq!(cli.get_stats_consecutive(), before);
}

#[test]
fn other_queries_leave_the_cursor() {
    let mut cli = client();
    cli.complete_consecutive(ok("{}"), |_| Ok(answer(40))).unwrap();
    let next = cli.get_stats_consecutive();

    assert_eq!(cli.get_stats_from(9).url, format!("{}/abc123/ts/9", ROOT));
    assert_eq!(cli.get_stats_consecutive(), next);
    assert_eq!(cli.get_stats_120s().url, format!("{}/abc123/ts/h", ROOT));
    assert_eq!(cli.get_stats_consecutive(), next);
    assert_eq!(cli.get_stats_max(3).url, format!("{}/abc123/ts/h/limit/3", ROOT));
    assert_eq!(cli.get_stats_consecutive(), next);
    assert_eq!(cli.timestamp(), 40);
}

#[test]
fn limited_window_address_ignores_the_cursor() {
    let mut cli = CliObj::new("k", "I", "R").unwrap();
    assert_eq!(cli.get_stats_max(5).url, "R/I/ts/h/limit/5");
    cli.complete_consecutive(ok("{}"), |_| Ok(answer(999))).unwrap();
    assert_eq!(cli.get_stats_max(5).url, "R/I/ts/h/limit/5");
    cli.reset_stats_consecutive();
    assert_eq!(cli.get_stats_max(5).url, "R/I/ts/h/limit/5");
}

#[test]
fn limit_goes_out_as_it_is() {
    let cli = client();
    assert_eq!(cli.get_stats_max(0).url, format!("{}/abc123/ts/h/limit/0", ROOT));
    assert_eq!(cli.get_stats_max(120).url, format!("{}/abc123/ts/h/limit/120", ROOT));
    assert_eq!(cli.get_stats_max(100_000).url, format!("{}/abc123/ts/h/limit/100000", ROOT));
    assert_eq!(
        cli.get_stats_max(u64::MAX).url,
        format!("{}/abc123/ts/h/limit/18446744073709551615", ROOT)
    );
}

#[test]
fn resume_after_moves_the_cursor_only_on_a_record() {
    let mut cli = client();
    cli.resume_after(&Ok(answer(12)));
    assert_eq!(cli.timestamp(), 12);
    cli.resume_after::<ServiceResponse>(&Err(ClientError::Decode("bad".to_string())));
    assert_eq!(cli.timestamp(), 12);
    cli.resume_after::<ServiceResponse>(&Err(ClientError::Request {
        status: Some(500),
        detail: String::new(),
    }));
    assert_eq!(cli.timestamp(), 12);
    cli.resume_after(&Ok(answer(0)));
    assert_eq!(cli.timestamp(), 0);
}

#[test]
fn from_address_takes_the_given_timestamp() {
    let mut cli = client();
    cli.complete_consecutive(ok("{}"), |_| Ok(answer(50))).unwrap();
    assert_eq!(cli.get_stats_from(0).url, format!("{}/abc123/ts/0", ROOT));
    assert_eq!(
        cli.get_stats_from(u64::MAX).url,
        format!("{}/abc123/ts/18446744073709551615", ROOT)
    );
}

#[test]
fn from_built_wraps_the_given_transport() {
    let built = reqwest::Client::builder().build();
    let cli = CliObj::from_built("k", "sid", "https://h/v1", built).unwrap();
    assert_eq!(cli.api_key, "k");
    assert_eq!(cli.timestamp(), 0);
    assert_eq!(cli.get_stats_120s().url, "https://h/v1/sid/ts/h");
    let _handle: &reqwest::Client = cli.transport();
}

#[test]
fn transport_that_cannot_be_made_is_a_configuration_error() {
    let built = reqwest::Client::builder().user_agent("line\nbreak").build();
    let message = built.as_ref().err().map(|error| error.to_string());
    assert!(message.is_some());
    match CliObj::from_built("k", "sid", "https://h/v1", built) {
        Err(ClientError::Configuration(reason)) => assert_eq!(Some(reason), message),
        Err(other) => panic!("{:?}", other),
        Ok(_) => panic!("a client was made"),
    }
}
