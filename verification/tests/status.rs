use hterm_h2::rpc::RpcError;
use hterm_h2::status::{
    advance_bridge, advance_poll, begin_bridge, begin_poll, format_snapshot_status_line,
    poll_interval_ms, snapshot_fields, snapshot_request, status_after_poll, status_line,
    status_socket_paths_from_values, BridgeAction, BridgeEvent, PollError, PollStep,
    SnapshotFields,
};
use hterm_h2::text::{clip, parse_number, push_decimal};
use serde_json::Value;

fn json(text: &str) -> Value {
    serde_json::from_str(text).unwrap()
}

fn object(members: Vec<(&str, Value)>) -> Value {
    let mut map = serde_json::Map::new();
    for (key, value) in members {
        map.insert(key.to_string(), value);
    }
    Value::Object(map)
}

#[test]
fn snapshot_status_line_uses_one_rpc_payload() {
    let snapshot = object(vec![
        (
            "status",
            object(vec![
                ("events_seq", Value::from(52)),
                ("registered_nodes", Value::from(4)),
            ]),
        ),
        ("artifact_count", Value::from(7)),
        (
            "artifacts",
            Value::Array(vec![object(vec![
                ("artifact", Value::from("b")),
                ("kind", Value::from("decision")),
                ("seq", Value::from(51)),
            ])]),
        ),
        (
            "events",
            Value::Array(vec![object(vec![
                ("seq", Value::from(52)),
                ("type", Value::from("trace_log")),
            ])]),
        ),
    ]);

    assert_eq!(
        format_snapshot_status_line(&snapshot),
        "H2 seq=52 nodes=4 artifacts=7 last=trace_log"
    );
}

#[test]
fn status_bridge_orders_ui_socket_before_node_socket() {
    let chosen = status_socket_paths_from_values(
        Some("temp/h2-runtime/ui.sock".into()),
        Some("temp/h2-runtime/node.sock".into()),
    );

    assert_eq!(
        chosen,
        vec![
            Vec::<u8>::from("temp/h2-runtime/ui.sock"),
            Vec::<u8>::from("temp/h2-runtime/node.sock")
        ]
    );
}

#[test]
fn status_bridge_falls_back_to_node_socket() {
    let chosen = status_socket_paths_from_values(None, Some("temp/h2-runtime/node.sock".into()));

    assert_eq!(chosen, vec![Vec::<u8>::from("temp/h2-runtime/node.sock")]);
}

#[test]
fn empty_sockets_are_not_asked() {
    assert!(status_socket_paths_from_values(None, None).is_empty());
    assert!(status_socket_paths_from_values(Some(Vec::new()), Some(Vec::new())).is_empty());
    assert_eq!(
        status_socket_paths_from_values(Some(Vec::new()), Some(vec![0xff])),
        vec![vec![0xff]]
    );
    assert_eq!(
        status_socket_paths_from_values(Some(vec![1]), Some(Vec::new())),
        vec![vec![1]]
    );
}

#[test]
fn missing_parts_of_a_snapshot_have_defaults() {
    let idle = "H2 seq=0 nodes=0 artifacts=0 last=idle";
    for text in [
        "{}",
        "null",
        "[1]",
        "7",
        "\"status\"",
        r#"{"status":3,"artifact_count":"7","artifacts":{},"events":[]}"#,
        r#"{"status":{"events_seq":-1,"registered_nodes":1.5},"events":[{"type":"a"},{}]}"#,
        r#"{"events":[{"type":3}],"artifact_count":-2,"artifacts":[]}"#,
    ] {
        assert_eq!(format_snapshot_status_line(&json(text)), idle);
    }
}

#[test]
fn listed_artifacts_count_where_no_number_is_given() {
    assert_eq!(
        format_snapshot_status_line(&json(r#"{"artifacts":[1,2,3]}"#)),
        "H2 seq=0 nodes=0 artifacts=3 last=idle"
    );
    assert_eq!(
        format_snapshot_status_line(&json(r#"{"artifact_count":0,"artifacts":[1,2,3]}"#)),
        "H2 seq=0 nodes=0 artifacts=0 last=idle"
    );
    assert_eq!(
        format_snapshot_status_line(&json(r#"{"artifact_count":null,"artifacts":[1]}"#)),
        "H2 seq=0 nodes=0 artifacts=1 last=idle"
    );
}

#[test]
fn the_last_event_is_told() {
    assert_eq!(
        format_snapshot_status_line(&json(
            r#"{"status":{"events_seq":18446744073709551615},
                "events":[{"type":"a"},{"type":"é b"}]}"#
        )),
        "H2 seq=18446744073709551615 nodes=0 artifacts=0 last=é b"
    );
}

#[test]
fn fields_are_read_and_told_apart() {
    let fields = snapshot_fields(&json(
        r#"{"status":{"registered_nodes":2},"artifacts":[0],"events":[{"type":""}]}"#,
    ));
    assert_eq!(
        fields,
        SnapshotFields {
            events_seq: None,
            registered_nodes: Some(2),
            artifact_count: None,
            listed_artifacts: Some(1),
            last_event: Some(String::new()),
        }
    );
    assert_eq!(status_line(&fields), "H2 seq=0 nodes=2 artifacts=1 last=");
}

#[test]
fn snapshots_are_asked_for_with_limits() {
    assert_eq!(
        snapshot_request(),
        json(
            r#"{"jsonrpc":"2.0","id":1,"method":"ui_snapshot","params":{
                "from_seq":0,"event_limit":5,"artifact_limit":3}}"#
        )
    );
}

#[test]
fn intervals_have_a_default_and_a_minimum() {
    assert_eq!(poll_interval_ms(None), 1000);
    for setting in ["", "+", "-5", "249", "1e3", " 500", "500 ", "5_000", "18446744073709551616"] {
        assert_eq!(poll_interval_ms(Some(setting)), 1000);
    }
    assert_eq!(poll_interval_ms(Some("250")), 250);
    assert_eq!(poll_interval_ms(Some("+00300")), 300);
    assert_eq!(poll_interval_ms(Some("18446744073709551615")), u64::MAX);
}

#[test]
fn numbers_are_read_as_the_standard_library_reads_them() {
    for text in [
        "", "+", "-", "0", "+0", "-0", "++1", "007", "12a", "a", "٣", "1 ", "18446744073709551615",
        "18446744073709551616", "99999999999999999999999", "99999999999999999999999x",
    ] {
        assert_eq!(parse_number(text), text.parse::<u64>().ok());
    }
}

#[test]
fn numbers_are_written_in_decimal() {
    for n in [0u64, 9, 10, 99, 100, 1234567890, u64::MAX] {
        let mut text = String::from("n=");
        push_decimal(&mut text, n);
        assert_eq!(text, format!("n={n}"));
        assert_eq!(parse_number(&text[2..]), Some(n));
    }
}

#[test]
fn text_is_clipped() {
    assert_eq!(clip("héllo", 2), "hé");
    assert_eq!(clip("hé", 2), "hé");
    assert_eq!(clip("hé", 9), "hé");
    assert_eq!(clip("hé", 0), "");
}

#[test]
fn polls_end_without_sockets() {
    match begin_poll::<String>(0) {
        PollStep::Failed(error) => {
            assert_eq!(error, PollError::NoCandidates);
            assert_eq!(error.message().unwrap(), "no h2 socket candidates");
        }
        other => panic!("{other:?}"),
    }
    assert_eq!(PollError::Socket("down").message(), None);
}

#[test]
fn polls_take_the_first_snapshot() {
    let answers: Vec<Result<Value, String>> = vec![
        Err("down".to_string()),
        Ok(json(r#"{"artifact_count":1}"#)),
        Ok(json(r#"{"artifact_count":2}"#)),
    ];
    let mut asked = Vec::new();
    let mut step = begin_poll(answers.len());
    while let PollStep::Ask(index) = step {
        asked.push(index);
        step = advance_poll(answers.len(), index, answers[index].clone());
    }
    assert_eq!(asked, vec![0, 1]);
    match step {
        PollStep::Line(line) => assert_eq!(line, "H2 seq=0 nodes=0 artifacts=1 last=idle"),
        _ => panic!("the second socket answered"),
    }
}

#[test]
fn polls_end_with_the_last_error() {
    match begin_poll(2) {
        PollStep::Ask(0) => {}
        other => panic!("{:?}", other as PollStep<RpcError>),
    }
    assert!(matches!(
        advance_poll(2, 0, Err("first")),
        PollStep::Ask(1)
    ));
    assert!(matches!(
        advance_poll(2, 1, Err("second")),
        PollStep::Failed(PollError::Socket("second"))
    ));
    assert!(matches!(
        advance_poll(0, usize::MAX, Err("none")),
        PollStep::Failed(PollError::Socket("none"))
    ));
}

#[test]
fn failed_polls_show_no_connection() {
    assert_eq!(
        status_after_poll::<String>(Ok("H2 seq=1".to_string())),
        "H2 seq=1"
    );
    assert_eq!(status_after_poll(Err("down")), "H2 disconnected");
}

#[test]
fn the_bridge_goes_round() {
    assert_eq!(begin_bridge(), BridgeAction::Poll);
    let rounds: Vec<(Result<String, String>, Option<&str>, &str, u64)> = vec![
        (Ok("H2 seq=1".to_string()), None, "H2 seq=1", 1000),
        (Err("down".to_string()), Some("300"), "H2 disconnected", 300),
        (Ok("H2 seq=2".to_string()), Some("249"), "H2 seq=2", 1000),
    ];
    for (polled, setting, status, ms) in rounds {
        let action = advance_bridge(BridgeEvent::Polled(polled));
        assert_eq!(action, BridgeAction::Show(status.to_string()));
        let setting = setting.map(|text| text.to_string());
        let action = advance_bridge(BridgeEvent::<String>::Shown(setting));
        assert_eq!(action, BridgeAction::Wait(ms));
        let action = advance_bridge(BridgeEvent::<String>::Waited);
        assert_eq!(action, BridgeAction::Poll);
    }
}
