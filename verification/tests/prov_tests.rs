use quick_protobuf::BytesReader;
use wifi_prov::codec::{build_config_cmd, build_scan_cmd, ConfigCmd, ScanCmd};
use wifi_prov::security::{key_vec, proof_vec, xor_apply, ProtocommSecurity, Sec0, Sec1};
use wifi_prov::wifi::{WifiApInfo, WifiAuthMode};
use wifi_prov::wifi_prov::{MgrStep, WifiProvMgr};

fn open_mgr() -> WifiProvMgr {
    let mut mgr = WifiProvMgr::new(ProtocommSecurity::Sec0(Sec0));
    assert!(mgr.start());
    mgr
}

fn reply_of(step: MgrStep) -> Vec<u8> {
    match step {
        MgrStep::Reply(b) => b,
        _ => panic!("expected a complete reply"),
    }
}

fn ap(ssid: &[u8], channel: u8, rssi: i8) -> WifiApInfo {
    WifiApInfo {
        ssid: ssid.to_vec(),
        bssid: vec![1, 2, 3, 4, 5, 6],
        channel,
        signal_strength: rssi,
        auth: WifiAuthMode::Wpa2Personal,
    }
}

/// The ssids of the entries of a scan-result response.
fn entry_ssids(resp: &[u8]) -> Vec<Vec<u8>> {
    let mut r = BytesReader::from_bytes(resp);
    assert_eq!(r.next_tag(resp).unwrap(), 8);
    assert_eq!(r.read_varint64(resp).unwrap(), 5); // RespScanResult
    assert_eq!(r.next_tag(resp).unwrap(), 16);
    assert_eq!(r.read_varint64(resp).unwrap(), 0); // Success
    assert_eq!(r.next_tag(resp).unwrap(), 0x7a);
    let body = r.read_bytes(resp).unwrap().to_vec();
    let mut ssids = Vec::new();
    let mut rb = BytesReader::from_bytes(&body);
    while !rb.is_eof() {
        assert_eq!(rb.next_tag(&body).unwrap(), 0x0a);
        let entry = rb.read_bytes(&body).unwrap().to_vec();
        let mut re = BytesReader::from_bytes(&entry);
        assert_eq!(re.next_tag(&entry).unwrap(), 0x0a);
        ssids.push(re.read_bytes(&entry).unwrap().to_vec());
    }
    ssids
}

#[test]
fn scan_scenario_paginates_and_rejects_out_of_bounds() {
    let mut mgr = open_mgr();

    // Scan start: an immediate acknowledgement.
    let ack = reply_of(mgr.handle_request("prov-scan", build_scan_cmd(ScanCmd::Start)));
    assert_eq!(ack, vec![8, 1, 16, 0, 0x5a, 0]);

    // Scan status: the radio work is owed, then three entries are cached.
    match mgr.handle_request("prov-scan", build_scan_cmd(ScanCmd::Status)) {
        MgrStep::WifiScan => {}
        _ => panic!("scan status must ask for the radio scan"),
    }
    let networks = vec![ap(b"net0", 1, -40), ap(b"net1", 6, -55), ap(b"net2", 11, -70)];
    let status = mgr.finish_wifi_scan(networks);
    assert_eq!(status, vec![8, 3, 16, 0, 0x6a, 4, 8, 1, 16, 3]);

    // First page: two entries drained, one remains.
    let page = reply_of(mgr.handle_request(
        "prov-scan",
        build_scan_cmd(ScanCmd::Result { start_index: 0, count: 2 }),
    ));
    assert_eq!(entry_ssids(&page), vec![b"net0".to_vec(), b"net1".to_vec()]);
    assert_eq!(mgr.shared.scan_results.as_ref().unwrap().len(), 1);

    // Window past the remaining cache: rejected, cache untouched.
    let err = reply_of(mgr.handle_request(
        "prov-scan",
        build_scan_cmd(ScanCmd::Result { start_index: 1, count: 1 }),
    ));
    assert_eq!(err, vec![8, 5, 16, 4]);
    assert_eq!(mgr.shared.scan_results.as_ref().unwrap().len(), 1);

    // The remaining entry is at index zero now.
    let last = reply_of(mgr.handle_request(
        "prov-scan",
        build_scan_cmd(ScanCmd::Result { start_index: 0, count: 1 }),
    ));
    assert_eq!(entry_ssids(&last), vec![b"net2".to_vec()]);
    assert_eq!(mgr.shared.scan_results.as_ref().unwrap().len(), 0);
}

#[test]
fn scan_result_before_status_is_rejected() {
    let mut mgr = open_mgr();
    let err = reply_of(mgr.handle_request(
        "prov-scan",
        build_scan_cmd(ScanCmd::Result { start_index: 0, count: 1 }),
    ));
    assert_eq!(err, vec![8, 5, 16, 4]);
    assert!(mgr.shared.scan_results.is_none());
}

#[test]
fn malformed_scan_request_yields_invalid_proto() {
    let mut mgr = open_mgr();
    let resp = reply_of(mgr.handle_request("prov-scan", vec![0xde, 0xad, 0xbe, 0xef]));
    assert_eq!(resp, vec![8, 0, 16, 2]);
}

#[test]
fn malformed_config_request_yields_invalid_proto() {
    let mut mgr = open_mgr();
    let resp = reply_of(mgr.handle_request("prov-config", vec![0x01]));
    assert_eq!(resp, vec![8, 0, 16, 2]);
}

fn set_config_cmd(ssid: &[u8], pass: &[u8]) -> Vec<u8> {
    build_config_cmd(&ConfigCmd::SetConfig {
        ssid: ssid.to_vec(),
        passphrase: pass.to_vec(),
        bssid: vec![1, 2, 3, 4, 5, 6],
        channel: 6,
    })
}

#[test]
fn credential_persistence_gate() {
    let mut mgr = open_mgr();
    assert!(mgr.is_provisioned().is_none());

    // Stage credentials: accepted, nothing persisted yet.
    let resp = reply_of(mgr.handle_request("prov-config", set_config_cmd(b"mynet", b"hunter2")));
    assert_eq!(resp, vec![8, 3, 16, 0, 0x6a, 2, 8, 0]);
    assert!(mgr.is_provisioned().is_none());

    // A failing connection attempt must leave storage unchanged.
    match mgr.handle_request("prov-config", build_config_cmd(&ConfigCmd::ApplyConfig)) {
        MgrStep::Connect => {}
        _ => panic!("apply-config must ask for the connection attempt"),
    }
    let resp = mgr.finish_connect(false);
    assert_eq!(resp, vec![8, 5, 16, 0, 0x7a, 2, 8, 0]);
    assert!(mgr.is_provisioned().is_none());

    // A succeeding attempt persists exactly the staged credentials.
    match mgr.handle_request("prov-config", build_config_cmd(&ConfigCmd::ApplyConfig)) {
        MgrStep::Connect => {}
        _ => panic!("apply-config must ask for the connection attempt"),
    }
    let resp = mgr.finish_connect(true);
    assert_eq!(resp, vec![8, 5, 16, 0, 0x7a, 2, 8, 0]);
    let (ssid, password) = mgr.is_provisioned().expect("credentials saved");
    assert_eq!(ssid, "mynet");
    assert_eq!(password, "hunter2");
}

#[test]
fn non_utf8_credentials_rejected_without_mutation() {
    let mut mgr = open_mgr();
    let resp = reply_of(mgr.handle_request("prov-config", set_config_cmd(&[0xff, 0xfe], b"pw")));
    assert_eq!(resp, vec![8, 3, 16, 4, 0x6a, 2, 8, 4]);
    assert!(mgr.shared.candidate.is_none());
}

#[test]
fn completion_signal_unblocks_after_one_get_status() {
    let mut mgr = open_mgr();
    assert!(!mgr.wait_for_provisioning());

    // Any number of set/apply rounds first.
    reply_of(mgr.handle_request("prov-config", set_config_cmd(b"a", b"b")));
    match mgr.handle_request("prov-config", build_config_cmd(&ConfigCmd::ApplyConfig)) {
        MgrStep::Connect => {}
        _ => panic!("apply-config must ask for the connection attempt"),
    }
    mgr.finish_connect(true);
    assert!(!mgr.wait_for_provisioning());

    // One status poll completes the flow.
    match mgr.handle_request("prov-config", build_config_cmd(&ConfigCmd::GetStatus)) {
        MgrStep::ConnectionStatus => {}
        _ => panic!("get-status must ask for the connection state"),
    }
    let resp = mgr.finish_connection_status(true, &b"192.168.4.2".to_vec());
    assert!(!resp.is_empty());
    assert!(mgr.wait_for_provisioning());
}

#[test]
fn protected_traffic_rejected_before_handshake() {
    let mut mgr = WifiProvMgr::new(ProtocommSecurity::Sec1(Sec1 {
        pop: Some("pop123".to_string()),
    }));
    assert!(mgr.start());

    // Fail closed: before any handshake the scan endpoint answers with an
    // empty payload and no handler runs.
    let resp = reply_of(mgr.handle_request("prov-scan", build_scan_cmd(ScanCmd::Status)));
    assert!(resp.is_empty());
    assert!(mgr.shared.scan_results.is_none());

    let resp = reply_of(mgr.handle_request("prov-config", set_config_cmd(b"x", b"y")));
    assert!(resp.is_empty());
    assert!(mgr.shared.candidate.is_none());
}

#[test]
fn encrypted_scan_after_handshake() {
    let mut mgr = WifiProvMgr::new(ProtocommSecurity::Sec1(Sec1 {
        pop: Some("pop123".to_string()),
    }));
    assert!(mgr.start());

    let client_share = vec![42u8, 1, 9, 200];
    let server_share = reply_of(mgr.handle_request("prov-session", client_share.clone()));
    assert_eq!(server_share.len(), 32);
    let pop_bytes = b"pop123".to_vec();
    let proof = proof_vec(&client_share, &server_share, &pop_bytes);
    let confirm = reply_of(mgr.handle_request("prov-session", proof));
    assert_eq!(confirm, vec![1u8]);

    let key = key_vec(&client_share, &server_share, &pop_bytes);
    let ct = xor_apply(&build_scan_cmd(ScanCmd::Start), &key);
    let ct_resp = reply_of(mgr.handle_request("prov-scan", ct));
    let resp = xor_apply(&ct_resp, &key);
    assert_eq!(resp, vec![8, 1, 16, 0, 0x5a, 0]);
}

#[test]
fn unknown_endpoint_answers_empty() {
    let mut mgr = open_mgr();
    let resp = reply_of(mgr.handle_request("no-such-endpoint", vec![1, 2, 3]));
    assert!(resp.is_empty());
}

#[test]
fn duplicate_registration_reported() {
    let mut mgr = open_mgr();
    // The four protocol endpoints exist already; a duplicate is refused,
    // a fresh name is accepted.
    assert!(!mgr.add_endpoint("prov-scan"));
    assert!(mgr.add_endpoint("custom-data"));
    assert!(!mgr.add_endpoint("custom-data"));
}
