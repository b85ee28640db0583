use quick_protobuf::BytesReader;
use wifi_prov::codec::{
    build_config_cmd, build_resp_get_status, build_resp_scan_status, build_scan_cmd,
    push_varint, read_config_cmd, read_scan_cmd, read_varint, ConfigCmd, ScanCmd,
};

#[test]
fn varint_round_trip() {
    for n in [0u64, 1, 127, 128, 129, 300, 16383, 16384, u32::MAX as u64, u64::MAX] {
        let mut out = Vec::new();
        push_varint(&mut out, n);
        let (v, j) = read_varint(&out, 0).expect("varint should parse");
        assert_eq!(v, n);
        assert_eq!(j, out.len());
    }
}

#[test]
fn varint_single_bytes() {
    let mut out = Vec::new();
    push_varint(&mut out, 5);
    assert_eq!(out, vec![5u8]);
    let mut out2 = Vec::new();
    push_varint(&mut out2, 300);
    assert_eq!(out2, vec![0xacu8, 0x02]);
}

#[test]
fn varint_truncated_rejected() {
    assert!(read_varint(&vec![0x80u8], 0).is_none());
    assert!(read_varint(&vec![], 0).is_none());
}

#[test]
fn scan_cmd_round_trip() {
    for cmd in [
        ScanCmd::Start,
        ScanCmd::Status,
        ScanCmd::Result { start_index: 0, count: 2 },
        ScanCmd::Result { start_index: 7, count: 1000 },
    ] {
        let bytes = build_scan_cmd(cmd);
        assert_eq!(read_scan_cmd(&bytes), Some(cmd));
    }
}

#[test]
fn config_cmd_round_trip() {
    let cmd = ConfigCmd::SetConfig {
        ssid: b"mynet".to_vec(),
        passphrase: b"hunter2".to_vec(),
        bssid: vec![0xaa, 0xbb, 0xcc, 0xdd, 0xee, 0xff],
        channel: 11,
    };
    let bytes = build_config_cmd(&cmd);
    match read_config_cmd(&bytes) {
        Some(ConfigCmd::SetConfig { ssid, passphrase, bssid, channel }) => {
            assert_eq!(ssid, b"mynet".to_vec());
            assert_eq!(passphrase, b"hunter2".to_vec());
            assert_eq!(bssid, vec![0xaa, 0xbb, 0xcc, 0xdd, 0xee, 0xff]);
            assert_eq!(channel, 11);
        }
        other => panic!("unexpected decode: {:?}", other.is_some()),
    }
    match read_config_cmd(&build_config_cmd(&ConfigCmd::GetStatus)) {
        Some(ConfigCmd::GetStatus) => {}
        _ => panic!("get-status should round-trip"),
    }
    match read_config_cmd(&build_config_cmd(&ConfigCmd::ApplyConfig)) {
        Some(ConfigCmd::ApplyConfig) => {}
        _ => panic!("apply-config should round-trip"),
    }
}

#[test]
fn malformed_requests_rejected() {
    assert!(read_scan_cmd(&vec![]).is_none());
    assert!(read_scan_cmd(&vec![0xff, 0x00, 0x12]).is_none());
    assert!(read_config_cmd(&vec![0x08]).is_none());
    // A valid scan request is not a valid config request body for
    // CmdSetConfig framing faults: truncate a good one.
    let mut good = build_config_cmd(&ConfigCmd::SetConfig {
        ssid: b"x".to_vec(),
        passphrase: b"y".to_vec(),
        bssid: vec![],
        channel: 1,
    });
    good.pop();
    assert!(read_config_cmd(&good).is_none());
}

#[test]
fn scan_status_response_reads_with_protobuf_reader() {
    let bytes = build_resp_scan_status(true, 3);
    let mut r = BytesReader::from_bytes(&bytes);
    assert_eq!(r.next_tag(&bytes).unwrap(), 8);
    assert_eq!(r.read_varint64(&bytes).unwrap(), 3); // message kind RespScanStatus
    assert_eq!(r.next_tag(&bytes).unwrap(), 16);
    assert_eq!(r.read_varint64(&bytes).unwrap(), 0); // status Success
    assert_eq!(r.next_tag(&bytes).unwrap(), 0x6a);
    let inner = r.read_bytes(&bytes).unwrap().to_vec();
    assert!(r.is_eof());
    let mut ri = BytesReader::from_bytes(&inner);
    assert_eq!(ri.next_tag(&inner).unwrap(), 8);
    assert_eq!(ri.read_varint64(&inner).unwrap(), 1); // scan finished
    assert_eq!(ri.next_tag(&inner).unwrap(), 16);
    assert_eq!(ri.read_varint64(&inner).unwrap(), 3); // result count
    assert!(ri.is_eof());
}

#[test]
fn get_status_response_shapes() {
    let connected = build_resp_get_status(true, &b"10.0.0.7".to_vec());
    let mut r = BytesReader::from_bytes(&connected);
    assert_eq!(r.next_tag(&connected).unwrap(), 8);
    assert_eq!(r.read_varint64(&connected).unwrap(), 1); // RespGetStatus
    assert_eq!(r.next_tag(&connected).unwrap(), 16);
    assert_eq!(r.read_varint64(&connected).unwrap(), 0);
    assert_eq!(r.next_tag(&connected).unwrap(), 0x5a);
    let body = r.read_bytes(&connected).unwrap().to_vec();
    let mut rb = BytesReader::from_bytes(&body);
    assert_eq!(rb.next_tag(&body).unwrap(), 8);
    assert_eq!(rb.read_varint64(&body).unwrap(), 0); // status Success
    assert_eq!(rb.next_tag(&body).unwrap(), 16);
    assert_eq!(rb.read_varint64(&body).unwrap(), 0); // station state Connected
    assert_eq!(rb.next_tag(&body).unwrap(), 0x5a);
    let conn = rb.read_bytes(&body).unwrap().to_vec();
    let mut rc = BytesReader::from_bytes(&conn);
    assert_eq!(rc.next_tag(&conn).unwrap(), 0x0a);
    assert_eq!(rc.read_bytes(&conn).unwrap(), b"10.0.0.7");

    let failed = build_resp_get_status(false, &Vec::new());
    // message kind, status, then the body: status, station state 3
    // (connection failed), failure reason 0 (authentication error).
    assert_eq!(failed, vec![8, 1, 16, 0, 0x5a, 6, 8, 0, 16, 3, 0x50, 0]);
}

#[test]
fn bare_command_bodies_are_skipped_not_parsed() {
    // A scan-start whose body carries fields this device does not read:
    // envelope, then the one-of field with two opaque body bytes.
    let bytes = vec![8u8, 0, 16, 0, 0x52, 2, 8, 1];
    assert_eq!(read_scan_cmd(&bytes), Some(ScanCmd::Start));
}
