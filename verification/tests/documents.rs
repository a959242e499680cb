use nat_lab::case::{cases, RelayCase};
use nat_lab::document::Document;
use nat_lab::report::{no_relay_document, FrameCounts, Report};
use nat_lab::run::LabRun;

fn punched() -> Report {
    Report {
        case: RelayCase { server: true, client: true, udp_blocked: false },
        connect_ms: 31,
        initial_path: Some("https://relay.test/".to_string()),
        path_before_cut: Some("198.18.0.11:60101".to_string()),
        direct: true,
        observed_ms: 950,
        payload_blake2b: "ab\"cd".to_string(),
        post_cut_transfer: true,
        post_cut_error: None,
        frames: FrameCounts {
            add_address_rx: 1,
            add_address_tx: 2,
            reach_out_rx: 3,
            reach_out_tx: 4,
        },
    }
}

#[test]
fn a_report_prints_sorted_and_compact() {
    assert_eq!(
        punched().document().line(),
        concat_lines(vec![
            "{\"add_address_rx\":1,\"add_address_tx\":2,",
            "\"client_nat_traversal\":true,\"connect_ms\":31,\"direct\":true,",
            "\"initial_path\":\"https://relay.test/\",\"observed_ms\":950,",
            "\"path_before_cut\":\"198.18.0.11:60101\",\"payload_blake2b\":\"ab\\\"cd\",",
            "\"payload_bytes_each_direction\":1048576,\"post_cut_error\":null,",
            "\"post_cut_transfer\":true,\"reach_out_rx\":3,\"reach_out_tx\":4,",
            "\"server_nat_traversal\":true,\"udp_blocked\":false}",
        ])
    );
}

fn concat_lines(lines: Vec<&str>) -> String {
    lines.concat()
}

#[test]
fn a_report_document_reads_back() {
    let report = Report {
        case: RelayCase { server: false, client: true, udp_blocked: false },
        initial_path: None,
        path_before_cut: None,
        direct: false,
        post_cut_transfer: false,
        post_cut_error: Some("payload exchange timed out: deadline has elapsed".to_string()),
        connect_ms: u64::MAX as u128,
        ..punched()
    };
    assert!(report.fits());
    let value: serde_json::Value = serde_json::from_str(&report.document().line()).unwrap();
    let object = value.as_object().unwrap();
    assert_eq!(object.len(), 16);
    assert_eq!(object["server_nat_traversal"], serde_json::Value::from(false));
    assert_eq!(object["client_nat_traversal"], serde_json::Value::from(true));
    assert_eq!(object["udp_blocked"], serde_json::Value::from(false));
    assert_eq!(object["connect_ms"], serde_json::Value::from(u64::MAX));
    assert_eq!(object["initial_path"], serde_json::Value::Null);
    assert_eq!(object["path_before_cut"], serde_json::Value::Null);
    assert_eq!(object["direct"], serde_json::Value::from(false));
    assert_eq!(object["observed_ms"], serde_json::Value::from(950u64));
    assert_eq!(object["payload_bytes_each_direction"], serde_json::Value::from(1048576u64));
    assert_eq!(object["payload_blake2b"], serde_json::Value::from("ab\"cd"));
    assert_eq!(object["post_cut_transfer"], serde_json::Value::from(false));
    assert_eq!(
        object["post_cut_error"],
        serde_json::Value::from("payload exchange timed out: deadline has elapsed")
    );
    assert_eq!(object["add_address_rx"], serde_json::Value::from(1u64));
    assert_eq!(object["add_address_tx"], serde_json::Value::from(2u64));
    assert_eq!(object["reach_out_rx"], serde_json::Value::from(3u64));
    assert_eq!(object["reach_out_tx"], serde_json::Value::from(4u64));
}

#[test]
fn times_beyond_a_document_are_told_apart() {
    assert!(punched().fits());
    assert!(!Report { connect_ms: u64::MAX as u128 + 1, ..punched() }.fits());
    assert!(!Report { observed_ms: u64::MAX as u128 + 1, ..punched() }.fits());
}

#[test]
fn a_case_without_relay_prints_its_setting() {
    assert_eq!(
        no_relay_document(true).line(),
        "{\"client_nat_traversal\":true,\"connected\":false,\"relay\":false,\"server_nat_traversal\":true}"
    );
    assert_eq!(
        no_relay_document(false).line(),
        "{\"client_nat_traversal\":false,\"connected\":false,\"relay\":false,\"server_nat_traversal\":false}"
    );
}

#[test]
fn frames_count_one_by_one() {
    let zero =
        FrameCounts { add_address_rx: 0, add_address_tx: 0, reach_out_rx: 0, reach_out_tx: 0 };
    assert!(zero.none());
    assert!(!FrameCounts { add_address_rx: 1, ..zero }.none());
    assert!(!FrameCounts { add_address_tx: 1, ..zero }.none());
    assert!(!FrameCounts { reach_out_rx: 1, ..zero }.none());
    assert!(!FrameCounts { reach_out_tx: 1, ..zero }.none());
}

#[test]
fn documents_keep_the_last_value_of_a_key() {
    let mut document = Document::empty();
    assert_eq!(document.line(), "{}");
    document.set_bool("b", true);
    document.set_number("a", 7);
    document.set_text("c", "x");
    document.set_optional("d", &None);
    document.set_optional("e", &Some("y".to_string()));
    assert_eq!(document.line(), "{\"a\":7,\"b\":true,\"c\":\"x\",\"d\":null,\"e\":\"y\"}");
    document.set_bool("b", false);
    assert_eq!(document.line(), "{\"a\":7,\"b\":false,\"c\":\"x\",\"d\":null,\"e\":\"y\"}");
}

#[test]
fn a_run_keeps_all_results_in_order() {
    let mut run = LabRun::start();
    let list = cases();
    for i in 0..list.len() {
        assert_eq!(run.next_case(), Some(list[i]));
        let mut document = Document::empty();
        document.set_number("case", i as u64);
        let summary = String::from_utf8(run.record(document)).unwrap();
        let mut expected = String::from("[");
        for j in 0..=i {
            if j > 0 {
                expected.push(',');
            }
            expected.push_str(&format!("\n  {{\n    \"case\": {}\n  }}", j));
        }
        expected.push_str("\n]");
        assert_eq!(summary, expected);
    }
    assert_eq!(run.next_case(), None);
}
