use fastly_rt::exchange::{accept, fetch_data, settle, ClientError, Exchange};

fn completed(status: u16) -> Exchange {
    Exchange::Completed { status, body: "payload".to_string() }
}

#[test]
fn success_is_two_hundred_to_two_ninety_nine() {
    for status in [200u16, 201, 204, 250, 299] {
        assert_eq!(accept(completed(status)), Ok("payload".to_string()));
    }
    for status in [0u16, 100, 199, 300, 301, 304, 400, 404, 500, 599, 600, u16::MAX] {
        assert_eq!(
            accept(completed(status)),
            Err(ClientError::Request { status: Some(status), detail: "payload".to_string() })
        );
    }
}

#[test]
fn failed_exchange_is_a_request_error_without_status() {
    let lost = Exchange::Failed { cause: "connection refused".to_string() };
    assert_eq!(
        accept(lost),
        Err(ClientError::Request { status: None, detail: "connection refused".to_string() })
    );
}

#[test]
fn settle_keeps_record_and_wraps_message() {
    assert_eq!(settle::<u8>(Ok(3)), Ok(3));
    assert_eq!(
        settle::<u8>(Err("missing field".to_string())),
        Err(ClientError::Decode("missing field".to_string()))
    );
}

#[test]
fn fetch_data_decodes_a_delivered_body() {
    let got = fetch_data(completed(200), |body: String| Ok::<usize, String>(body.len()));
    assert_eq!(got, Ok(7));
}

#[test]
fn fetch_data_reports_a_decode_error() {
    let got = fetch_data(completed(200), |body: String| Err::<usize, String>(format!("bad {}", body)));
    assert_eq!(got, Err(ClientError::Decode("bad payload".to_string())));
}

#[test]
fn fetch_data_does_not_decode_after_a_request_error() {
    let got: Result<usize, ClientError> =
        fetch_data(completed(404), |_| panic!("nothing to decode"));
    assert_eq!(
        got,
        Err(ClientError::Request { status: Some(404), detail: "payload".to_string() })
    );
    let lost = Exchange::Failed { cause: "dns".to_string() };
    let got: Result<usize, ClientError> = fetch_data(lost, |_| panic!("nothing to decode"));
    assert_eq!(got, Err(ClientError::Request { status: None, detail: "dns".to_string() }));
}
