use solana_client_icp::provider::{
    rpc_reply_body, rpc_request_body, HttpMethod, HttpProvider, Provider, DEFAULT_TIMEOUT_MS, HTTP_REQUEST_CYCLES,
};

#[test]
fn http_provider_new_uses_default_timeout() {
    let p = HttpProvider::new("https://api.devnet.solana.com");
    assert_eq!(p.url(), "https://api.devnet.solana.com");
    assert_eq!(p.timeout(), 60000);
    assert_eq!(DEFAULT_TIMEOUT_MS, 60000);
}

#[test]
fn http_provider_new_with_timeout_keeps_timeout() {
    let p = HttpProvider::new_with_timeout("http://localhost:8899", 1500);
    assert_eq!(p.url(), "http://localhost:8899");
    assert_eq!(p.timeout(), 1500);
}

#[test]
fn provider_new_is_http_with_default_timeout() {
    let p = Provider::new("https://api.mainnet-beta.solana.com");
    match p {
        Provider::Http(h) => {
            assert_eq!(h.url(), "https://api.mainnet-beta.solana.com");
            assert_eq!(h.timeout(), DEFAULT_TIMEOUT_MS);
        }
    }
}

#[test]
fn rpc_request_is_json_post_to_url() {
    let p = HttpProvider::new("https://api.devnet.solana.com");
    let body = br#"{"jsonrpc":"2.0","id":0,"method":"getSlot"}"#.to_vec();
    let r = p.rpc_request(body.clone());
    assert_eq!(r.url, "https://api.devnet.solana.com");
    assert_eq!(r.method, HttpMethod::Post);
    assert_eq!(r.max_response_bytes, None);
    assert_eq!(r.headers.len(), 1);
    assert_eq!(r.headers[0].name, "Content-Type");
    assert_eq!(r.headers[0].value, "application/json");
    assert_eq!(r.body, Some(body));
    assert_eq!(r.cycles, 2_603_253_600u128);
    assert_eq!(HTTP_REQUEST_CYCLES, 2_603_253_600u128);
}

#[test]
fn reply_with_status_200_is_handed_on() {
    let body = br#"{"jsonrpc":"2.0","result":42,"id":0}"#.to_vec();
    let r = rpc_reply_body(200, body.clone());
    assert_eq!(r.unwrap(), body);
}

#[test]
fn reply_with_other_status_is_an_http_error() {
    let body = br#"{ "error" : "rate limited" ,"code": 429 }"#.to_vec();
    let e = rpc_reply_body(429, body).unwrap_err();
    assert_eq!(e.to_message(), r#"HTTP error: {"code":429,"error":"rate limited"}"#);
}

#[test]
fn reply_with_other_status_and_no_json_reports_parse_error() {
    let e = rpc_reply_body(500, b"Internal Server Error".to_vec()).unwrap_err();
    assert_eq!(e.to_message(), "expected value at line 1 column 1");
}

#[test]
fn request_body_frames_method_and_params() {
    assert_eq!(
        rpc_request_body("getSlot", None),
        br#"{"jsonrpc":"2.0","id":0,"method":"getSlot"}"#.to_vec()
    );
    assert_eq!(
        rpc_request_body("getBalance", Some(br#"["11111111111111111111111111111111",{"commitment":"confirmed"}]"#)),
        br#"{"jsonrpc":"2.0","id":0,"method":"getBalance","params":["11111111111111111111111111111111",{"commitment":"confirmed"}]}"#.to_vec()
    );
    assert_eq!(
        rpc_request_body("we\"ird\\", Some(b"[]")),
        br#"{"jsonrpc":"2.0","id":0,"method":"we\"ird\\","params":[]}"#.to_vec()
    );
}

#[test]
fn request_body_escapes_control_bytes_in_method() {
    assert_eq!(
        rpc_request_body("a\nb\u{1}\u{7f}é", None),
        "{\"jsonrpc\":\"2.0\",\"id\":0,\"method\":\"a\\nb\\u0001\u{7f}é\"}".as_bytes().to_vec()
    );
}
