use hterm_h2::frame::{frame, payload_len};
use hterm_h2::rpc::{
    node_id_for_pane, node_response_len, node_result, read_node_response, read_ui_response,
    register_node_request, request_frame, rpc_request, ui_response_len, ui_result,
    unregister_node_request, RpcError, MAX_UI_RESPONSE_LEN,
};
use serde_json::Value;

fn json(text: &str) -> Value {
    serde_json::from_str(text).unwrap()
}

#[test]
fn node_id_for_pane_includes_process_and_pane_identity() {
    let pid: u32 = 4711;
    let node_id = node_id_for_pane(pid, 7);

    assert_eq!(node_id, format!("hterm-{pid}-pane-7"));
    assert_eq!(node_id, "hterm-4711-pane-7");
}

#[test]
fn node_ids_differ() {
    assert_ne!(node_id_for_pane(1, 11), node_id_for_pane(11, 1));
    assert_ne!(node_id_for_pane(1, 1), node_id_for_pane(1, 2));
    assert_eq!(
        node_id_for_pane(u32::MAX, usize::MAX),
        format!("hterm-{}-pane-{}", u32::MAX, usize::MAX)
    );
    assert_eq!(node_id_for_pane(0, 0), "hterm-0-pane-0");
}

#[test]
fn requests_carry_method_and_parameters() {
    assert_eq!(
        rpc_request("m", json(r#"{"a":[1]}"#)),
        json(r#"{"jsonrpc":"2.0","id":1,"method":"m","params":{"a":[1]}}"#)
    );
}

#[test]
fn panes_are_registered_with_their_labels() {
    assert_eq!(
        register_node_request(12, 3, "vim \"x\""),
        json(
            r#"{"jsonrpc":"2.0","id":1,"method":"register_node","params":{
                "node":"hterm-12-pane-3","runtime":"hterm-local-pane",
                "labels":{"pane_id":3,"pid":12,"command":"vim \"x\""}}}"#
        )
    );
}

#[test]
fn panes_are_unregistered_by_the_same_name() {
    let removal = unregister_node_request(12, 3, "closed");
    assert_eq!(
        removal,
        json(
            r#"{"jsonrpc":"2.0","id":1,"method":"unregister_node","params":{
                "node":"hterm-12-pane-3","reason":"closed"}}"#
        )
    );
    let registration = register_node_request(12, 3, "sh");
    assert_eq!(registration["params"]["node"], removal["params"]["node"]);
}

#[test]
fn requests_are_framed() {
    let bytes = request_frame(&json(r#"{"b":"é","a":null}"#)).unwrap();
    let payload = "{\"a\":null,\"b\":\"é\"}".as_bytes();
    assert_eq!(bytes[..4], [0, 0, 0, payload.len() as u8]);
    assert_eq!(&bytes[4..], payload);
}

#[test]
fn frames_hold_length_and_payload() {
    let payload = vec![9u8; 0x1_0203];
    let bytes = frame(&payload);
    assert_eq!(bytes[..4], [0, 1, 2, 3]);
    assert_eq!(bytes[4..], payload[..]);
    assert_eq!(payload_len([0, 1, 2, 3]), 0x1_0203);
    assert_eq!(frame(&Vec::new()), vec![0, 0, 0, 0]);
    assert_eq!(payload_len([0x12, 0x34, 0x56, 0x78]), 0x1234_5678);
    assert_eq!(payload_len([255; 4]), u32::MAX as usize);
}

#[test]
fn long_responses_are_refused_from_ui_sockets_only() {
    assert_eq!(MAX_UI_RESPONSE_LEN, 8 * 1024 * 1024);
    assert_eq!(ui_response_len([0, 0, 1, 0]).unwrap(), 256);
    assert_eq!(ui_response_len([0, 0x80, 0, 0]).unwrap(), 8 * 1024 * 1024);
    let error = ui_response_len([0, 0x80, 0, 1]).unwrap_err();
    assert!(matches!(error, RpcError::FrameTooLarge(8388609)));
    assert_eq!(error.message().unwrap(), "response frame too large: 8388609");
    assert_eq!(node_response_len([0, 0x80, 0, 1]), 8388609);
}

#[test]
fn ui_results_are_unwrapped() {
    let result = read_ui_response(br#" {"jsonrpc":"2.0","id":1,"result":{"x":[1,-2,0.5]}} "#);
    assert_eq!(result.unwrap(), json(r#"{"x":[1,-2,0.5]}"#));
    assert_eq!(ui_result(&json(r#"{"result":null}"#)).unwrap(), Value::Null);
}

#[test]
fn ui_errors_outweigh_results() {
    let error = read_ui_response(br#"{"error":{"code":-1,"message":"no"},"result":1}"#).unwrap_err();
    assert_eq!(error.message().unwrap(), r#"rpc error: {"code":-1,"message":"no"}"#);
    assert!(matches!(error, RpcError::Remote(_)));
    let error = ui_result(&json(r#"{"error":null,"result":1}"#)).unwrap_err();
    assert_eq!(error.message().unwrap(), "rpc error: null");
}

#[test]
fn ui_responses_need_a_result() {
    for text in ["{}", "[]", "3", "null", r#"{"results":1}"#] {
        let error = read_ui_response(text.as_bytes()).unwrap_err();
        assert!(matches!(error, RpcError::MissingResult));
        assert_eq!(error.message().unwrap(), "missing rpc result");
    }
}

#[test]
fn node_responses_are_handed_on_whole() {
    for text in [r#"{"result":1}"#, r#"{"error":null,"id":1}"#, "[]", "{}"] {
        assert_eq!(read_node_response(text.as_bytes()).unwrap(), json(text));
        assert_eq!(node_result(json(text)).unwrap(), json(text));
    }
}

#[test]
fn node_errors_are_reported() {
    let error = read_node_response(br#"{"error":"busy","result":1}"#).unwrap_err();
    assert!(matches!(error, RpcError::Node(_)));
    assert_eq!(error.message().unwrap(), "node-rpc error: \"busy\"");
    let error = node_result(json(r#"{"error":false}"#)).unwrap_err();
    assert_eq!(error.message().unwrap(), "node-rpc error: false");
}

#[test]
fn malformed_responses_are_reported() {
    for bytes in [&b"{"[..], b"", b"{} x", b"\"\xff\""] {
        let expected = serde_json::from_slice::<Value>(bytes).unwrap_err().to_string();
        for error in [
            read_ui_response(bytes).unwrap_err(),
            read_node_response(bytes).unwrap_err(),
        ] {
            assert_eq!(error.message(), None);
            match error {
                RpcError::Json(error) => assert_eq!(error.to_string(), expected),
                other => panic!("{other:?}"),
            }
        }
    }
}
