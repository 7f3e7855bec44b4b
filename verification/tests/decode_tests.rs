use groupme_tui::{decode, handshake_result, parse_response, subscribe_acked, ResponseElem,
    ResponseFrame};

#[test]
fn alert_payload_is_decoded() {
    let f = parse_response("[{}, {\"data\": {\"alert\": \"New message from Alice\"}}]").unwrap();
    let alert = decode(&f).expect("an alert payload");
    assert_eq!(alert.body, "New message from Alice");
}

#[test]
fn single_element_response_is_a_control_frame() {
    let f = parse_response("[{\"data\": {\"ping\": true}}]").unwrap();
    assert!(decode(&f).is_none());
}

#[test]
fn empty_response_decodes_to_nothing() {
    let f = parse_response("[]").unwrap();
    assert!(decode(&f).is_none());
}

#[test]
fn second_element_without_alert_decodes_to_nothing() {
    let f = parse_response("[{}, {\"data\": {\"subject\": {}}}]").unwrap();
    assert!(decode(&f).is_none());
}

#[test]
fn decode_is_pure_and_repeatable() {
    let f = parse_response("[{}, {\"data\": {\"alert\": \"hi\"}}]").unwrap();
    let first = decode(&f).unwrap();
    let second = decode(&f).unwrap();
    assert_eq!(first.body, second.body);
}

#[test]
fn handshake_grants_the_client_id() {
    let f = parse_response("[{\"successful\": true, \"clientId\": \"abc123\"}]").unwrap();
    assert_eq!(handshake_result(&f).unwrap(), "abc123");
}

#[test]
fn handshake_without_client_id_grants_nothing() {
    let f = parse_response("[{\"successful\": true}]").unwrap();
    assert!(handshake_result(&f).is_none());
}

#[test]
fn handshake_reporting_failure_grants_nothing() {
    let f = parse_response("[{\"successful\": false, \"clientId\": \"abc123\"}]").unwrap();
    assert!(handshake_result(&f).is_none());
    let empty = parse_response("[]").unwrap();
    assert!(handshake_result(&empty).is_none());
}

#[test]
fn subscribe_acknowledgment() {
    let acked = parse_response("[{\"successful\": true}]").unwrap();
    assert!(subscribe_acked(&acked));
    let refused = parse_response("[{\"successful\": false}]").unwrap();
    assert!(!subscribe_acked(&refused));
    let silent = parse_response("[{}]").unwrap();
    assert!(!subscribe_acked(&silent));
}

#[test]
fn malformed_text_fails_to_parse() {
    assert!(parse_response("not json").is_none());
    assert!(parse_response("{\"an\": \"object\"}").is_none());
    assert!(parse_response("").is_none());
}

#[test]
fn parser_reads_the_fields_the_engine_needs() {
    let f = parse_response(
        "[{\"successful\": true, \"clientId\": \"cid\", \"extra\": 1}, \
         {\"data\": {\"alert\": \"body\"}, \"channel\": \"/user/1\"}]",
    )
    .unwrap();
    assert_eq!(f.elems.len(), 2);
    assert_eq!(f.elems[0].successful, Some(true));
    assert_eq!(f.elems[0].client_id.as_deref(), Some("cid"));
    assert_eq!(f.elems[0].alert, None);
    assert_eq!(f.elems[1].successful, None);
    assert_eq!(f.elems[1].alert.as_deref(), Some("body"));
}

#[test]
fn decode_works_on_hand_built_frames() {
    let f = ResponseFrame {
        elems: vec![
            ResponseElem { successful: None, client_id: None, alert: None },
            ResponseElem { successful: None, client_id: None, alert: Some("ping!".to_string()) },
        ],
    };
    assert_eq!(decode(&f).unwrap().body, "ping!");
}
