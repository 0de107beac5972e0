use astarte_client::api::{
    datastream_values, strip_timestamps, trim_slashes_str, Api, ApiError, ApiResp,
    DatastreamEntry, WithTimestamp,
};

#[test]
fn base_url_is_parsed_and_normalized() {
    let api = Api::try_from_parts(
        "HTTP://Api.Example.COM",
        "test",
        "2TBn-jNESuuHamE2Zo1anA",
        "secret".to_string(),
    )
    .unwrap();
    // The URL parser normalizes scheme and host to lower case; a client
    // that kept the raw input would fail this.
    assert_eq!(
        api.base_url,
        "http://api.example.com/v1/test/devices/2TBn-jNESuuHamE2Zo1anA"
    );
    assert_eq!(api.token, "secret");
}

#[test]
fn unparsable_base_url_is_rejected() {
    let r = Api::try_from_parts("not a url", "realm", "device", "t".to_string());
    assert_eq!(r.unwrap_err(), ApiError::InvalidUrl);
}

#[test]
fn request_urls_have_the_expected_shape() {
    let api = Api::new(
        "http://api.example.com/v1/test/devices/d1".to_string(),
        "t".to_string(),
    );
    assert_eq!(
        api.interfaces_url(),
        "http://api.example.com/v1/test/devices/d1/interfaces"
    );
    assert_eq!(
        api.datastream_url("org.example.Datastream"),
        "http://api.example.com/v1/test/devices/d1/interfaces/org.example.Datastream"
    );
}

#[test]
fn interfaces_response_unwraps_to_its_data() {
    let resp = ApiResp {
        data: vec!["org.example.A".to_string(), "org.example.B".to_string()],
    };
    assert_eq!(
        resp.into_data(),
        vec!["org.example.A".to_string(), "org.example.B".to_string()]
    );
}

#[test]
fn trim_strips_surrounding_slashes_only() {
    assert_eq!(trim_slashes_str("/uptime"), "uptime");
    assert_eq!(trim_slashes_str("//a/b//"), "a/b");
    assert_eq!(trim_slashes_str("uptime"), "uptime");
    assert_eq!(trim_slashes_str("///"), "");
    assert_eq!(trim_slashes_str(""), "");
}

fn sample_response() -> ApiResp<Vec<DatastreamEntry<String>>> {
    ApiResp {
        data: vec![
            DatastreamEntry {
                path: "other".to_string(),
                values: vec![WithTimestamp {
                    value: "x".to_string(),
                    timestamp_ms: None,
                }],
            },
            DatastreamEntry {
                path: "uptime".to_string(),
                values: vec![
                    WithTimestamp {
                        value: "Uptime for node n: 0".to_string(),
                        timestamp_ms: Some(1_700_000_000_000),
                    },
                    WithTimestamp {
                        value: "Uptime for node n: 3".to_string(),
                        timestamp_ms: Some(1_700_000_003_000),
                    },
                    WithTimestamp {
                        value: "Uptime for node n: 6".to_string(),
                        timestamp_ms: None,
                    },
                ],
            },
        ],
    }
}

#[test]
fn present_path_returns_values_in_order_without_timestamps() {
    let values = datastream_values(sample_response(), "/uptime").unwrap();
    assert_eq!(
        values,
        vec![
            "Uptime for node n: 0".to_string(),
            "Uptime for node n: 3".to_string(),
            "Uptime for node n: 6".to_string(),
        ]
    );
}

#[test]
fn missing_path_is_a_distinct_error() {
    // A path absent from a well-formed response is MissingPath — a
    // deliberate "not found", not a malformed-response condition.
    let err = datastream_values(sample_response(), "/enabled").unwrap_err();
    assert_eq!(err, ApiError::MissingPath);
}

#[test]
fn path_lookup_trims_the_request_like_the_server_keys() {
    assert!(datastream_values(sample_response(), "uptime").is_ok());
    assert!(datastream_values(sample_response(), "/uptime/").is_ok());
    assert!(datastream_values(sample_response(), "//uptime//").is_ok());
}

#[test]
fn stripping_keeps_order_and_length() {
    let stripped = strip_timestamps(vec![
        WithTimestamp { value: 1u64, timestamp_ms: Some(5) },
        WithTimestamp { value: 2u64, timestamp_ms: None },
        WithTimestamp { value: 3u64, timestamp_ms: Some(7) },
    ]);
    assert_eq!(stripped, vec![1, 2, 3]);
}
