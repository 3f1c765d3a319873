use rtls_ctl::probe::{
    filter_addr_g1, filter_addr_mg3, g1_decision, mg3_decision, ProbeError, G1_AUTHORIZATION, G1_PATH,
    G1_REQUEST_BODY, MG3_PATH,
};
use rtls_ctl::types::{GatewayType, Mac, MacParseError};

const IP: u32 = 0xC0A8_0107;

#[test]
fn mg3_hello_answer_gives_detection() {
    let d = filter_addr_mg3(IP, br#"{"mac":"aabbccddeeff"}"#).unwrap();
    assert_eq!(d.ip, IP);
    assert_eq!(d.gateway, GatewayType::MG3);
    assert_eq!(d.mac.to_string(), "AA:BB:CC:DD:EE:FF");
}

#[test]
fn g1_status_answer_gives_detection() {
    let body = br#"{"header":{"code":200},"body":{"gateway":{"status":{"mac":"01:23:45:67:89:ab"}}}}"#;
    let d = filter_addr_g1(IP, body).unwrap();
    assert_eq!(d.ip, IP);
    assert_eq!(d.gateway, GatewayType::G1);
    assert_eq!(d.mac, Mac { bytes: [0x01, 0x23, 0x45, 0x67, 0x89, 0xab] });
}

#[test]
fn g1_other_code_is_mismatch() {
    let body = br#"{"header":{"code":401},"body":{"gateway":{"status":{"mac":"0123456789ab"}}}}"#;
    assert_eq!(filter_addr_g1(IP, body), Err(ProbeError::ProtocolMismatch));
    let body = br#"{"header":{"code":"200"},"body":{"gateway":{"status":{"mac":"0123456789ab"}}}}"#;
    assert_eq!(filter_addr_g1(IP, body), Err(ProbeError::ProtocolMismatch));
}

#[test]
fn g1_missing_mac_is_mismatch() {
    let body = br#"{"header":{"code":200},"body":{}}"#;
    assert_eq!(filter_addr_g1(IP, body), Err(ProbeError::ProtocolMismatch));
    let body = br#"{"header":{"code":200},"body":{"gateway":{"status":{"mac":12}}}}"#;
    assert_eq!(filter_addr_g1(IP, body), Err(ProbeError::ProtocolMismatch));
}

#[test]
fn malformed_json_gives_no_detection() {
    assert_eq!(filter_addr_g1(IP, b"{not json"), Err(ProbeError::ProtocolMismatch));
    assert_eq!(filter_addr_mg3(IP, b"{not json"), Err(ProbeError::ProtocolMismatch));
    assert_eq!(filter_addr_mg3(IP, b""), Err(ProbeError::ProtocolMismatch));
}

#[test]
fn mg3_bad_mac_is_malformed_address() {
    assert_eq!(
        filter_addr_mg3(IP, br#"{"mac":"aabbcc"}"#),
        Err(ProbeError::MalformedHardwareAddress(MacParseError::InvalidLength))
    );
    assert_eq!(
        filter_addr_mg3(IP, br#"{"mac":"aabbccddeexx"}"#),
        Err(ProbeError::MalformedHardwareAddress(MacParseError::InvalidCharacter))
    );
    assert_eq!(filter_addr_mg3(IP, br#"{"other":1}"#), Err(ProbeError::ProtocolMismatch));
}

#[test]
fn decisions_on_extracted_fields() {
    let d = g1_decision(IP, Some(200), Some("AABBCCDDEEFF")).unwrap();
    assert_eq!(d.gateway, GatewayType::G1);
    assert_eq!(d.mac.bytes, [0xaa, 0xbb, 0xcc, 0xdd, 0xee, 0xff]);
    assert_eq!(g1_decision(IP, Some(500), Some("AABBCCDDEEFF")), Err(ProbeError::ProtocolMismatch));
    assert_eq!(g1_decision(IP, None, Some("AABBCCDDEEFF")), Err(ProbeError::ProtocolMismatch));
    assert_eq!(g1_decision(IP, Some(200), None), Err(ProbeError::ProtocolMismatch));
    let d = mg3_decision(IP, Some("00:11:22:33:44:55")).unwrap();
    assert_eq!(d.gateway, GatewayType::MG3);
    assert_eq!(d.ip, IP);
    assert_eq!(mg3_decision(IP, None), Err(ProbeError::ProtocolMismatch));
}

#[test]
fn wire_constants() {
    assert_eq!(G1_PATH, "/cgi-bin/cgic-statusget");
    assert_eq!(G1_AUTHORIZATION, "Basic YWRtaW46");
    assert_eq!(G1_REQUEST_BODY, r#"{"header":{"version":1}}"#);
    assert_eq!(MG3_PATH, "/hello");
}
