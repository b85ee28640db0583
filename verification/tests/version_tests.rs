use serde_json::Value;
use wifi_prov::security::{ProtocommSecurity, Sec0, Sec1};
use wifi_prov::wifi_prov::{MgrStep, WifiProvMgr};

fn reply_of(step: MgrStep) -> Vec<u8> {
    match step {
        MgrStep::Reply(b) => b,
        _ => panic!("expected a complete reply"),
    }
}

fn cap_strings(v: &Value) -> Vec<String> {
    v["prov"]["cap"]
        .as_array()
        .expect("cap must be an array")
        .iter()
        .map(|c| c.as_str().unwrap().to_string())
        .collect()
}

#[test]
fn version_info_is_idempotent() {
    let mut mgr = WifiProvMgr::new(ProtocommSecurity::Sec0(Sec0));
    assert!(mgr.start());
    let a = reply_of(mgr.handle_request("proto-ver", Vec::new()));
    let b = reply_of(mgr.handle_request("proto-ver", Vec::new()));
    let c = reply_of(mgr.handle_request("proto-ver", vec![1, 2, 3]));
    assert_eq!(a, b);
    assert_eq!(a, c);
}

#[test]
fn version_info_open_scheme() {
    let mut mgr = WifiProvMgr::new(ProtocommSecurity::Sec0(Sec0));
    assert!(mgr.start());
    let bytes = reply_of(mgr.handle_request("proto-ver", Vec::new()));
    let v: Value = serde_json::from_slice(&bytes).expect("version info must be JSON");
    assert_eq!(v["prov"]["ver"].as_str(), Some("v1.1"));
    assert_eq!(v["prov"]["sec_ver"].as_u64(), Some(0));
    assert_eq!(cap_strings(&v), vec!["wifi_scan", "no_pop", "no_sec"]);
}

#[test]
fn version_info_authenticated_with_pop() {
    let mut mgr = WifiProvMgr::new(ProtocommSecurity::Sec1(Sec1 {
        pop: Some("s".to_string()),
    }));
    assert!(mgr.start());
    let bytes = reply_of(mgr.handle_request("proto-ver", Vec::new()));
    let v: Value = serde_json::from_slice(&bytes).expect("version info must be JSON");
    assert_eq!(v["prov"]["sec_ver"].as_u64(), Some(1));
    assert_eq!(cap_strings(&v), vec!["wifi_scan"]);
}

#[test]
fn version_info_authenticated_without_pop() {
    let mut mgr = WifiProvMgr::new(ProtocommSecurity::Sec1(Sec1 { pop: None }));
    assert!(mgr.start());
    let bytes = reply_of(mgr.handle_request("proto-ver", Vec::new()));
    let v: Value = serde_json::from_slice(&bytes).expect("version info must be JSON");
    assert_eq!(v["prov"]["sec_ver"].as_u64(), Some(1));
    assert_eq!(cap_strings(&v), vec!["wifi_scan", "no_pop"]);
}
