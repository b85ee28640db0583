//! The scan endpoint: start a radio scan, cache its results, and serve them
//! out page by page.
//!
//! Pagination is destructive, as the wire protocol's clients expect: a
//! served window is drained from the cache and the remaining entries close
//! ranks, so indices are relative to what is left and no entry is ever
//! served twice.  A window that does not fit the remaining cache — or a
//! result request before any status request cached results — is rejected
//! with an error status and mutates nothing.

use vstd::prelude::*;

use crate::codec;
use crate::codec::{ScanCmd, WiFiScanResult, WiFiScanResultView};
use crate::wifi::{WifiApInfo, WifiApInfoView, WifiAuthMode};
use crate::wifi_prov::{ProvisioningSharedData, SharedView};

verus! {

/// The wire form of a controller-reported authentication mode.
pub open spec fn wire_auth_of(a: WifiAuthMode) -> codec::WifiAuthMode {
    match a {
        WifiAuthMode::Open => codec::WifiAuthMode::Open,
        WifiAuthMode::Wep => codec::WifiAuthMode::Wep,
        WifiAuthMode::Wpa => codec::WifiAuthMode::WpaPsk,
        WifiAuthMode::Wpa2Personal => codec::WifiAuthMode::Wpa2Psk,
        WifiAuthMode::WpaWpa2Personal => codec::WifiAuthMode::WpaWpa2Psk,
        WifiAuthMode::Wpa2Enterprise => codec::WifiAuthMode::Wpa2Enterprise,
        WifiAuthMode::Wpa3Personal => codec::WifiAuthMode::Wpa3Psk,
        WifiAuthMode::Wpa2Wpa3Personal => codec::WifiAuthMode::Wpa2Wpa3Psk,
    }
}

/// The wire entry an access-point record maps to.
pub open spec fn wire_of_ap(a: WifiApInfoView) -> WiFiScanResultView {
    WiFiScanResultView {
        ssid: a.ssid,
        channel: a.channel as u32,
        rssi: a.signal_strength as i32,
        bssid: a.bssid,
        auth: wire_auth_of(a.auth),
    }
}

/// Executable form of [`wire_of_ap`]: transform one scanned access point
/// into its wire entry.
pub fn ap_to_wire(a: WifiApInfo) -> (r: WiFiScanResult)
    ensures
        r@ == wire_of_ap(a@),
{
    let auth = match a.auth {
        WifiAuthMode::Open => codec::WifiAuthMode::Open,
        WifiAuthMode::Wep => codec::WifiAuthMode::Wep,
        WifiAuthMode::Wpa => codec::WifiAuthMode::WpaPsk,
        WifiAuthMode::Wpa2Personal => codec::WifiAuthMode::Wpa2Psk,
        WifiAuthMode::WpaWpa2Personal => codec::WifiAuthMode::WpaWpa2Psk,
        WifiAuthMode::Wpa2Enterprise => codec::WifiAuthMode::Wpa2Enterprise,
        WifiAuthMode::Wpa3Personal => codec::WifiAuthMode::Wpa3Psk,
        WifiAuthMode::Wpa2Wpa3Personal => codec::WifiAuthMode::Wpa2Wpa3Psk,
    };
    WiFiScanResult {
        ssid: a.ssid,
        channel: a.channel as u32,
        rssi: a.signal_strength as i32,
        bssid: a.bssid,
        auth,
    }
}

/// As [`ap_to_wire`], but copying out of a borrowed record.
pub fn ap_to_wire_ref(a: &WifiApInfo) -> (r: WiFiScanResult)
    ensures
        r@ == wire_of_ap(a@),
{
    let ssid = codec::copy_range(&a.ssid, 0, a.ssid.len());
    let bssid = codec::copy_range(&a.bssid, 0, a.bssid.len());
    proof {
        assert(a.ssid@.subrange(0, a.ssid@.len() as int) =~= a.ssid@);
        assert(a.bssid@.subrange(0, a.bssid@.len() as int) =~= a.bssid@);
    }
    let auth = match a.auth {
        WifiAuthMode::Open => codec::WifiAuthMode::Open,
        WifiAuthMode::Wep => codec::WifiAuthMode::Wep,
        WifiAuthMode::Wpa => codec::WifiAuthMode::WpaPsk,
        WifiAuthMode::Wpa2Personal => codec::WifiAuthMode::Wpa2Psk,
        WifiAuthMode::WpaWpa2Personal => codec::WifiAuthMode::WpaWpa2Psk,
        WifiAuthMode::Wpa2Enterprise => codec::WifiAuthMode::Wpa2Enterprise,
        WifiAuthMode::Wpa3Personal => codec::WifiAuthMode::Wpa3Psk,
        WifiAuthMode::Wpa2Wpa3Personal => codec::WifiAuthMode::Wpa2Wpa3Psk,
    };
    WiFiScanResult {
        ssid,
        channel: a.channel as u32,
        rssi: a.signal_strength as i32,
        bssid,
        auth,
    }
}

/// What the caller must do with a scan request after the handler ran.
pub enum ScanAction {
    /// The plaintext response is complete.
    Reply(Vec<u8>),
    /// The request was a status poll: run the blocking radio scan and hand
    /// its results to [`handle_scan_status`].
    NeedScan,
}

/// The mathematical value of a [`ScanAction`].
pub enum ScanStep {
    Reply(Seq<u8>),
    NeedScan,
}

impl View for ScanAction {
    type V = ScanStep;

    open spec fn view(&self) -> ScanStep {
        match self {
            ScanAction::Reply(b) => ScanStep::Reply(b@),
            ScanAction::NeedScan => ScanStep::NeedScan,
        }
    }
}

/// Drain the window `[start, start + count)` from the cache: the drained
/// entries and the remaining cache, or nothing when the window does not fit.
pub open spec fn spec_drain(cache: Seq<WifiApInfoView>, start: u32, count: u32) -> Option<
    (Seq<WifiApInfoView>, Seq<WifiApInfoView>),
> {
    if start + count > cache.len() {
        None
    } else {
        Some(
            (
                cache.subrange(start as int, start as int + count as int),
                cache.subrange(0, start as int) + cache.subrange(
                    start as int + count as int,
                    cache.len() as int,
                ),
            ),
        )
    }
}

/// The scan-result transition: a fitting window is drained and answered
/// with its entries in wire form; a missing cache or an over-long window is
/// rejected with an invalid-argument status and changes nothing.
pub open spec fn spec_scan_result(pre: SharedView, start: u32, count: u32) -> (SharedView, Seq<
    u8,
>) {
    match pre.scan_results {
        None => (pre, codec::enc_envelope(5, 4, None)),
        Some(cache) => match spec_drain(cache, start, count) {
            None => (pre, codec::enc_envelope(5, 4, None)),
            Some((drained, remaining)) => (
                SharedView { scan_results: Some(remaining), ..pre },
                codec::enc_resp_scan_result(drained.map(|i: int, a: WifiApInfoView| wire_of_ap(a))),
            ),
        },
    }
}

/// The scan-status transition: the fresh radio results replace any cached
/// list and the reply reports completion and their number.
pub open spec fn spec_scan_status(pre: SharedView, networks: Seq<WifiApInfoView>) -> (
    SharedView,
    Seq<u8>,
) {
    (
        SharedView { scan_results: Some(networks), ..pre },
        codec::enc_resp_scan_status(true, networks.len() as u32),
    )
}

/// The whole scan endpoint as one transition from the shared state and the
/// raw request bytes.
pub open spec fn spec_scan_callbak(pre: SharedView, inp: Seq<u8>) -> (SharedView, ScanStep) {
    match codec::parse_scan_cmd(inp) {
        None => (pre, ScanStep::Reply(codec::enc_scan_invalid_proto())),
        Some(ScanCmd::Start) => (pre, ScanStep::Reply(codec::enc_resp_scan_start())),
        Some(ScanCmd::Status) => (pre, ScanStep::NeedScan),
        Some(ScanCmd::Result { start_index, count }) => {
            let (post, reply) = spec_scan_result(pre, start_index, count);
            (post, ScanStep::Reply(reply))
        },
    }
}

/// Pagination exhaustion: a fitting window is served exactly once — the
/// drained entries are precisely the requested window, the cache shrinks by
/// exactly those entries, and the old cache is the remaining one with the
/// drained window spliced back at its position.  A window that does not fit
/// (or a missing cache) is rejected without mutating anything.
pub proof fn lemma_pagination_exhaustion(pre: SharedView, start: u32, count: u32)
    ensures
        (pre.scan_results matches Some(cache) && start + count <= cache.len()) ==> {
            let cache = pre.scan_results->0;
            let (post, _reply) = spec_scan_result(pre, start, count);
            &&& post.scan_results matches Some(remaining) && remaining.len() == cache.len() - count
                && cache =~= remaining.subrange(0, start as int) + cache.subrange(
                start as int,
                start as int + count as int,
            ) + remaining.subrange(start as int, remaining.len() as int)
        },
        (pre.scan_results is None || (pre.scan_results matches Some(cache) && start + count
            > cache.len())) ==> spec_scan_result(pre, start, count).0 == pre,
        spec_scan_result(pre, start, count).0.store == pre.store,
        spec_scan_result(pre, start, count).0.completed == pre.completed,
        spec_scan_result(pre, start, count).0.candidate == pre.candidate,
{
    if pre.scan_results is Some && start + count <= pre.scan_results->0.len() {
        let cache = pre.scan_results->0;
        let (post, _reply) = spec_scan_result(pre, start, count);
        let remaining = post.scan_results->0;
        assert(cache =~= remaining.subrange(0, start as int) + cache.subrange(
            start as int,
            start as int + count as int,
        ) + remaining.subrange(start as int, remaining.len() as int));
    }
}

/// Each result exactly once across a paginated sequence: after two fitting
/// drains in a row, the first page, the second page and what remains
/// together hold exactly the entries the cache held, multiplicities
/// included — nothing is served twice and nothing is lost.  Longer
/// sequences follow by applying this step by step.
pub proof fn lemma_pagination_two_calls(
    cache: Seq<WifiApInfoView>,
    start1: u32,
    count1: u32,
    start2: u32,
    count2: u32,
)
    requires
        start1 + count1 <= cache.len(),
        start2 + count2 <= cache.len() - count1,
    ensures
        ({
            let (d1, r1) = spec_drain(cache, start1, count1)->0;
            let (d2, r2) = spec_drain(r1, start2, count2)->0;
            d1.to_multiset().add(d2.to_multiset()).add(r2.to_multiset()) == cache.to_multiset()
        }),
{
    broadcast use vstd::multiset::group_multiset_axioms;

    let (d1, r1) = spec_drain(cache, start1, count1)->0;
    let (d2, r2) = spec_drain(r1, start2, count2)->0;
    let a1 = cache.subrange(0, start1 as int);
    let c1 = cache.subrange(start1 as int + count1 as int, cache.len() as int);
    assert(cache =~= (a1 + d1) + c1);
    vstd::seq_lib::lemma_multiset_commutative(a1 + d1, c1);
    vstd::seq_lib::lemma_multiset_commutative(a1, d1);
    let a2 = r1.subrange(0, start2 as int);
    let c2 = r1.subrange(start2 as int + count2 as int, r1.len() as int);
    assert(r1 =~= (a2 + d2) + c2);
    vstd::seq_lib::lemma_multiset_commutative(a2 + d2, c2);
    vstd::seq_lib::lemma_multiset_commutative(a2, d2);
    vstd::seq_lib::lemma_multiset_commutative(a2, c2);
    vstd::seq_lib::lemma_multiset_commutative(a1, c1);
    assert(r2 =~= a2 + c2);
    assert(r1 =~= a1 + c1);
    assert(cache.to_multiset() == (a1 + d1).to_multiset().add(c1.to_multiset()));
    assert((a1 + d1).to_multiset() == a1.to_multiset().add(d1.to_multiset()));
    assert(r1.to_multiset() == a1.to_multiset().add(c1.to_multiset()));
    assert(r1.to_multiset() == (a2 + d2).to_multiset().add(c2.to_multiset()));
    assert((a2 + d2).to_multiset() == a2.to_multiset().add(d2.to_multiset()));
    assert(r2.to_multiset() == a2.to_multiset().add(c2.to_multiset()));
    assert forall|v: WifiApInfoView|
        d1.to_multiset().add(d2.to_multiset()).add(r2.to_multiset()).count(v)
            == cache.to_multiset().count(v) by {
        assert(r1.to_multiset().count(v) == a1.to_multiset().count(v) + c1.to_multiset().count(
            v,
        ));
        assert(r1.to_multiset().count(v) == a2.to_multiset().count(v) + d2.to_multiset().count(v)
            + c2.to_multiset().count(v));
        assert(cache.to_multiset().count(v) == a1.to_multiset().count(v) + d1.to_multiset().count(
            v,
        ) + c1.to_multiset().count(v));
    }
    assert(d1.to_multiset().add(d2.to_multiset()).add(r2.to_multiset())
        =~= cache.to_multiset());
}

/// Serve a scan-result request against the cache, draining the requested
/// window exactly when it fits.
pub fn handle_scan_result(shared: &mut ProvisioningSharedData, start_index: u32, count: u32) -> (r:
    Vec<u8>)
    ensures
        (final(shared)@, r@) == spec_scan_result(old(shared)@, start_index, count),
{
    let ghost pre = shared@;
    match &mut shared.scan_results {
        None => {
            let r = codec::build_error_envelope(5, 4);
            assert((shared@, r@) == spec_scan_result(pre, start_index, count));
            r
        },
        Some(cache) => {
            let n = cache.len();
            let start = start_index as usize;
            let count_us = count as usize;
            if start > n || count_us > n - start {
                let r = codec::build_error_envelope(5, 4);
                assert(spec_drain(pre.scan_results->0, start_index, count) is None);
                assert(shared@ =~= pre);
                return r;
            }
            let ghost cache0 = cache@.map(|i: int, e: WifiApInfo| e@);
            let mut tail = cache.split_off(start + count_us);
            let drained = cache.split_off(start);
            cache.append(&mut tail);
            let ghost pair = spec_drain(cache0, start_index, count)->0;
            let ghost dr0 = pair.0;
            proof {
                assert(drained@.map(|i: int, e: WifiApInfo| e@) =~= dr0);
                assert(cache@.map(|i: int, e: WifiApInfo| e@) =~= pair.1);
            }
            let mut entries: Vec<WiFiScanResult> = Vec::new();
            let m = drained.len();
            // Map the drained records to their wire entries, in order.
            for k in 0..m
                invariant
                    k == entries@.len(),
                    m == dr0.len() == drained@.len(),
                    drained@.map(|i: int, e: WifiApInfo| e@) =~= dr0,
                    entries@.map(|i: int, e: WiFiScanResult| e@) =~= dr0.map(
                        |i: int, a: WifiApInfoView| wire_of_ap(a),
                    ).take(k as int),
            {
                entries.push(ap_to_wire_ref(&drained[k]));
                proof {
                    assert(drained@.map(|i: int, e: WifiApInfo| e@)[k as int] == drained@[
                        k as int
                    ]@);
                    assert(entries@.map(|i: int, e: WiFiScanResult| e@) =~= dr0.map(
                        |i: int, a: WifiApInfoView| wire_of_ap(a),
                    ).take(k as int + 1));
                }
            }
            let r = codec::build_resp_scan_result(&entries);
            proof {
                assert(entries@.map(|i: int, e: WiFiScanResult| e@) =~= dr0.map(
                    |i: int, a: WifiApInfoView| wire_of_ap(a),
                ));
                assert(shared@.scan_results == spec_scan_result(pre, start_index, count).0
                    .scan_results);
                assert(shared@ =~= spec_scan_result(pre, start_index, count).0);
            }
            r
        },
    }
}

/// Serve a scan-status request once the blocking radio scan has delivered
/// `networks`: cache them and report completion and their count.
pub fn handle_scan_status(shared: &mut ProvisioningSharedData, networks: Vec<WifiApInfo>) -> (r:
    Vec<u8>)
    requires
        networks@.len() <= 0xffffffff,
    ensures
        (final(shared)@, r@) == spec_scan_status(
            old(shared)@,
            networks@.map(|i: int, e: WifiApInfo| e@),
        ),
{
    let count = networks.len() as u32;
    let r = codec::build_resp_scan_status(true, count);
    shared.scan_results = Some(networks);
    r
}

/// Acknowledge a scan-start request; the radio work itself is the
/// controller's and happens when its blocking scan is polled.
pub fn handle_scan_start() -> (r: Vec<u8>)
    ensures
        r@ == codec::enc_resp_scan_start(),
{
    codec::build_resp_scan_start()
}

/// The scan endpoint's callback on the decrypted request bytes: decode,
/// then hand off to the matching handler.  Undecodable bytes are answered
/// with an invalid-proto status; a status poll is returned to the caller,
/// which must run the radio scan and call [`handle_scan_status`].
pub fn prov_scan_callbak(shared: &mut ProvisioningSharedData, inp: &Vec<u8>) -> (r: ScanAction)
    ensures
        (final(shared)@, r@) == spec_scan_callbak(old(shared)@, inp@),
{
    match codec::read_scan_cmd(inp) {
        None => ScanAction::Reply(codec::build_scan_invalid_proto()),
        Some(ScanCmd::Start) => ScanAction::Reply(handle_scan_start()),
        Some(ScanCmd::Status) => ScanAction::NeedScan,
        Some(ScanCmd::Result { start_index, count }) => ScanAction::Reply(
            handle_scan_result(shared, start_index, count),
        ),
    }
}

} // verus!
