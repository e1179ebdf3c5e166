use std::collections::VecDeque;

use avs_toolkit::evm::{balance_of_call_data, balance_request, call_data_hex, bad_input_message, TaskRequestData};
use avs_toolkit::bouncer::json::JsonValue;
use avs_toolkit::ollama_task::{
    generate_outcome, parsing_error_message, OllamaGenerateErrorResponse, OllamaGenerateRequest,
    OllamaGenerateResponse, OllamaGenerateSuccessResponse, TaskOutput,
};
use avs_toolkit::oracle::{PriceHistory, PRICE_HISTORY_CAPACITY};
use avs_toolkit::status::{check_api_status, unexpected_status, unexpected_status_with_body};
use avs_toolkit::wasmatic::{deploy_request, env_pair, to_hex, wasm_digest, Trigger, WasmFile};

#[test]
fn api_status_decides() {
    assert_eq!(check_api_status(200), Ok(()));
    assert_eq!(check_api_status(429), Err("rate limited, price unavailable".to_string()));
    assert_eq!(check_api_status(500), Err("unexpected status code: 500".to_string()));
    assert_eq!(unexpected_status(404), "unexpected status code: 404");
    assert_eq!(unexpected_status_with_body(401, "no"), "unexpected status code: 401 body: no");
}

#[test]
fn wasm_digest_is_sha256_hex() {
    assert_eq!(
        wasm_digest(b"abc"),
        "sha256:ba7816bf8f01cfea414140de5dae2223b00361a396177a9cb410ff61f20015ad"
    );
    assert_eq!(to_hex(&[0x00, 0xff, 0x1a]), "00ff1a");
    assert_eq!(to_hex(&[]), "");
}

#[test]
fn env_pairs_split_at_first_equals() {
    assert_eq!(env_pair("A=b=c"), ("A".to_string(), "b=c".to_string()));
    assert_eq!(env_pair("=x"), (String::new(), "x".to_string()));
    assert_eq!(env_pair("K="), ("K".to_string(), String::new()));
}

#[test]
fn deploy_request_needs_a_digest_for_urls() {
    let trigger = Trigger::Cron { schedule: "* * * * *".to_string() };
    let envs = vec!["A=1".to_string()];
    let r = deploy_request(
        "app".to_string(), None, &WasmFile::Url("http://x/app.wasm".to_string()),
        trigger.clone(), "[]".to_string(), &envs, true,
    );
    assert_eq!(
        r.unwrap_err(),
        "Error: You need to provide sha256 sum digest if wasm source is an url"
    );
    let r = deploy_request(
        "app".to_string(), Some("sha256:00".to_string()), &WasmFile::Url("http://x/app.wasm".to_string()),
        trigger.clone(), "[]".to_string(), &envs, true,
    )
    .unwrap();
    assert_eq!(r.digest, "sha256:00");
    assert_eq!(r.wasm_url, Some("http://x/app.wasm".to_string()));
    assert_eq!(r.envs, vec![("A".to_string(), "1".to_string())]);
    let r = deploy_request(
        "app".to_string(), Some("ignored".to_string()), &WasmFile::Bytes(b"abc".to_vec()),
        trigger, "[]".to_string(), &Vec::new(), false,
    )
    .unwrap();
    assert_eq!(r.digest, wasm_digest(b"abc"));
    assert_eq!(r.wasm_url, None);
    assert!(!r.testable);
}

#[test]
fn price_history_keeps_newest_first_and_is_bounded() {
    let mut h: PriceHistory<u32> = PriceHistory::new();
    h.record_latest_price(1, 10);
    h.record_latest_price(2, 20);
    assert_eq!(h.btcusd_prices, VecDeque::from(vec![(2, 20), (1, 10)]));
    for t in 3..=1005u64 {
        h.record_latest_price(t, 0);
    }
    assert_eq!(h.btcusd_prices.len(), PRICE_HISTORY_CAPACITY);
    assert_eq!(h.btcusd_prices[0].0, 1005);
    assert_eq!(h.btcusd_prices[PRICE_HISTORY_CAPACITY - 1].0, 6);
}

#[test]
fn recent_count_stops_at_the_first_older_price() {
    let h = PriceHistory { btcusd_prices: VecDeque::from(vec![(20, 15.0f32), (14, 20.0), (10, 10.0), (1, 10.0), (0, 10.0)]) };
    assert_eq!(h.recent_count(10), 3);
    assert_eq!(h.recent_count(0), 5);
    assert_eq!(h.recent_count(21), 0);
    let gap = PriceHistory { btcusd_prices: VecDeque::from(vec![(5, 1u8), (1, 1), (9, 1)]) };
    assert_eq!(gap.recent_count(3), 1);
}

#[test]
fn balance_call_uses_the_erc20_selector() {
    let mut address = [0u8; 20];
    address[19] = 0xab;
    let data = balance_of_call_data(address);
    assert_eq!(data.len(), 36);
    assert_eq!(&data[..4], &[0x70, 0xa0, 0x82, 0x31]);
    assert!(data[4..35].iter().all(|b| *b == 0));
    assert_eq!(data[35], 0xab);
    let hex = call_data_hex(address);
    assert_eq!(hex, format!("0x70a08231{}ab", "0".repeat(62)));
}

#[test]
fn balance_request_is_an_eth_call() {
    let req = balance_request(&TaskRequestData { address: [1u8; 20] });
    assert_eq!(req.jsonrpc, "2.0");
    assert_eq!(req.method, "eth_call");
    assert_eq!(req.id, 1);
    assert_eq!(req.params.len(), 2);
    match &req.params[0] {
        JsonValue::Object(m) => {
            assert_eq!(m[0].0, "to");
            assert!(matches!(&m[0].1, JsonValue::String(s) if s == "0xa0b86991c6218b36c1d19d4a2e9eb0ce3606eb48"));
            assert_eq!(m[1].0, "data");
            assert!(matches!(&m[1].1, JsonValue::String(s) if *s == call_data_hex([1u8; 20])));
        }
        other => panic!("unexpected {:?}", other),
    }
    assert!(matches!(&req.params[1], JsonValue::String(s) if s == "latest"));
    assert_eq!(bad_input_message("eof"), "deserializing the task input data failed: eof");
}

#[test]
fn generation_outcome_follows_status_and_reply() {
    let req = OllamaGenerateRequest::for_prompt("hi".to_string());
    assert_eq!(req.model, "llama3.2:1b");
    assert_eq!(req.prompt, "hi");
    assert!(!req.stream);
    let ok = OllamaGenerateSuccessResponse { model: "m".to_string(), response: "hello".to_string() };
    assert_eq!(generate_outcome(200, Ok(OllamaGenerateResponse::Success(ok.clone()))), Ok(ok.clone()));
    assert_eq!(
        generate_outcome(200, Ok(OllamaGenerateResponse::Error(OllamaGenerateErrorResponse { error: "no model".to_string() }))),
        Err("no model".to_string())
    );
    assert_eq!(generate_outcome(200, Err("bad".to_string())), Err("bad".to_string()));
    assert_eq!(
        generate_outcome(503, Ok(OllamaGenerateResponse::Success(ok.clone()))),
        Err("unexpected status code: 503".to_string())
    );
    assert_eq!(TaskOutput::from_outcome(Ok(ok)), TaskOutput::Success("hello".to_string()));
    assert_eq!(TaskOutput::from_outcome(Err("e".to_string())), TaskOutput::Error("e".to_string()));
    assert_eq!(parsing_error_message("eof", "Ok(\"\")"), "response parsing error (eof). body: Ok(\"\")");
}
