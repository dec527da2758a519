use band_oracle::error::{DecodeKind, FetchError};
use band_oracle::records::{
    BandRequest, BandRequestJson, OracleScript, OracleScriptResult, PacketJson, RawReport,
    RawReportJson, RawRequest, RawRequestJson, ReportJson, ReqJson, RequestPacketDataJson,
    ResJson, ResponsePacketDataJson,
};
use band_oracle::source::{
    check_status, oracle_script_from_response, price_from_response, price_of_record, BandSource,
    BASE_URI,
};

const CALLDATA_HEX: &str = "0000000442414e4400000000000f4240";

fn fixture(result: &str) -> BandRequestJson {
    BandRequestJson {
        height: "1200".to_string(),
        result: ResJson {
            request: ReqJson {
                oracle_script_id: "1".to_string(),
                calldata: "AAAABEJBTkQAAAAAAA9CQA==".to_string(),
                requested_validators: vec!["val1".to_string(), "val2".to_string()],
                min_count: "4".to_string(),
                request_height: "1190".to_string(),
                request_time: "2020-08-01T00:00:00Z".to_string(),
                client_id: "from_scan".to_string(),
                raw_requests: vec![RawRequestJson {
                    external_id: "1".to_string(),
                    data_source_id: "3".to_string(),
                    calldata: "QkFORA==".to_string(),
                }],
            },
            reports: vec![ReportJson {
                validator: "val1".to_string(),
                in_before_resolve: true,
                raw_reports: vec![RawReportJson {
                    external_id: "1".to_string(),
                    data: "MTAwMDAwMA==".to_string(),
                }],
            }],
            result: PacketJson {
                request_packet_data: RequestPacketDataJson {
                    client_id: "from_scan".to_string(),
                    oracle_script_id: "1".to_string(),
                    calldata: "AAAABEJBTkQAAAAAAA9CQA==".to_string(),
                    ask_count: "4".to_string(),
                    min_count: "4".to_string(),
                },
                response_packet_data: ResponsePacketDataJson {
                    client_id: "from_scan".to_string(),
                    request_id: "77".to_string(),
                    ans_count: "4".to_string(),
                    request_time: "1596240000".to_string(),
                    resolve_time: "1596240010".to_string(),
                    resolve_status: 1,
                    result: result.to_string(),
                },
            },
        },
    }
}

#[test]
fn new_uses_default_gateway() {
    let s = BandSource::new(1, CALLDATA_HEX.to_string(), 4, 4);
    assert_eq!(s.base_uri, BASE_URI);
    assert_eq!(s.oracle_script_id, 1);
    assert_eq!(s.calldata, CALLDATA_HEX);
    assert_eq!((s.min_count, s.ask_count), (4, 4));
}

#[test]
fn oracle_script_uri_is_built() {
    let s = BandSource::new(1, CALLDATA_HEX.to_string(), 4, 4);
    assert_eq!(
        s.oracle_script_uri(),
        "http://guanyu-devnet.bandchain.org/rest/oracle/oracle_scripts/1"
    );
    let t = BandSource::with_base_uri("http://localhost:1317".to_string(), 907, String::new(), 1, 2);
    assert_eq!(t.oracle_script_uri(), "http://localhost:1317/oracle/oracle_scripts/907");
}

#[test]
fn request_search_uri_is_built() {
    let s = BandSource::new(1, CALLDATA_HEX.to_string(), 4, 4);
    assert_eq!(
        s.request_search_uri(),
        "http://guanyu-devnet.bandchain.org/rest/oracle/request_search?oid=1&calldata=0000000442414e4400000000000f4240&min_count=4&ask_count=4"
    );
    let t = BandSource::with_base_uri("http://h".to_string(), 12, "ab".to_string(), 10, 16);
    assert_eq!(
        t.request_search_uri(),
        "http://h/oracle/request_search?oid=12&calldata=ab&min_count=10&ask_count=16"
    );
}

#[test]
fn status_is_checked() {
    assert_eq!(check_status(200), Ok(()));
    assert_eq!(check_status(204), Ok(()));
    assert_eq!(check_status(404), Err(FetchError::HttpStatus(404)));
    assert_eq!(check_status(500), Err(FetchError::HttpStatus(500)));
    assert_eq!(check_status(199), Err(FetchError::HttpStatus(199)));
}

#[test]
fn envelope_fields_are_coerced() {
    let r = BandRequest::from_json(&fixture("AAAAAAAPQkA=")).unwrap();
    assert_eq!(r.height, 1200);
    assert_eq!(r.result.request.oracle_script_id, 1);
    assert_eq!(r.result.request.min_count, 4);
    assert_eq!(r.result.request.request_height, 1190);
    assert_eq!(r.result.request.calldata.len(), 16);
    assert_eq!(r.result.request.requested_validators, vec!["val1".to_string(), "val2".to_string()]);
    assert_eq!(
        r.result.request.raw_requests,
        vec![RawRequest { external_id: 1, data_source_id: 3, calldata: b"BAND".to_vec() }]
    );
    assert_eq!(r.result.reports[0].raw_reports, vec![RawReport { external_id: 1, data: "MTAwMDAwMA==".to_string() }]);
    assert!(r.result.reports[0].in_before_resolve);
    let p = &r.result.result.response_packet_data;
    assert_eq!((p.request_id, p.ans_count, p.resolve_status), (77, 4, 1));
    assert_eq!((p.request_time, p.resolve_time), (1596240000, 1596240010));
    assert_eq!(p.result, vec![0, 0, 0, 0, 0, 0x0f, 0x42, 0x40]);
    assert_eq!(r.result.result.request_packet_data.ask_count, 4);
}

#[test]
fn non_numeric_field_is_decode_error() {
    let mut j = fixture("AAAAAAAPQkA=");
    j.height = "tall".to_string();
    assert_eq!(BandRequest::from_json(&j), Err(FetchError::Decode(DecodeKind::Integer)));
    let mut k = fixture("AAAAAAAPQkA=");
    k.result.reports[0].raw_reports[0].external_id = "x1".to_string();
    assert_eq!(BandRequest::from_json(&k), Err(FetchError::Decode(DecodeKind::Integer)));
    let bad = RawRequestJson { external_id: "1".to_string(), data_source_id: "2".to_string(), calldata: "%%".to_string() };
    assert_eq!(RawRequest::from_json(&bad), Err(FetchError::Decode(DecodeKind::Base64)));
    let raw = RawReportJson { external_id: "5".to_string(), data: "abc".to_string() };
    assert_eq!(RawReport::from_json(&raw), Ok(RawReport { external_id: 5, data: "abc".to_string() }));
}

#[test]
fn end_to_end_price() {
    let s = BandSource::new(1, CALLDATA_HEX.to_string(), 4, 4);
    assert!(s.request_search_uri().contains("oid=1&calldata=0000000442414e4400000000000f4240"));
    let body = fixture("AAAAAAAPQkA=");
    assert_eq!(price_from_response(200, Some(&body)), Ok(1000000));
    assert_eq!(price_of_record(&body), Ok(1000000));
}

#[test]
fn short_payload_is_binary_decode_error() {
    let body = fixture("AAAAAAAPQg==");
    assert_eq!(price_from_response(200, Some(&body)), Err(FetchError::BinaryDecode));
    let empty = fixture("");
    assert_eq!(price_of_record(&empty), Err(FetchError::BinaryDecode));
}

#[test]
fn invalid_payload_base64_is_decode_error() {
    let body = fixture("not base64!");
    assert_eq!(price_of_record(&body), Err(FetchError::Decode(DecodeKind::Base64)));
}

#[test]
fn malformed_json_is_decode_error() {
    assert_eq!(price_from_response(200, None), Err(FetchError::Decode(DecodeKind::Json)));
    assert_eq!(oracle_script_from_response(200, None), Err(FetchError::Decode(DecodeKind::Json)));
}

#[test]
fn failing_status_wins_over_body() {
    let body = fixture("AAAAAAAPQkA=");
    assert_eq!(price_from_response(503, Some(&body)), Err(FetchError::HttpStatus(503)));
    assert_eq!(oracle_script_from_response(404, None), Err(FetchError::HttpStatus(404)));
}

#[test]
fn oracle_script_is_passed_through() {
    let script = OracleScript {
        height: "1200".to_string(),
        result: OracleScriptResult {
            owner: "band1owner".to_string(),
            name: "Crypto price".to_string(),
            description: "prices".to_string(),
            filename: "crypto.wasm".to_string(),
            schema: "{symbol:string,multiplier:u64}/{px:u64}".to_string(),
            source_code_url: "https://example.org/src".to_string(),
        },
    };
    assert_eq!(oracle_script_from_response(200, Some(script.clone())), Ok(script));
}
