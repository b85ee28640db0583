//! The wire format of the scan and config endpoints: field-tagged,
//! varint-based binary messages (protobuf-style framing).
//!
//! Every payload is an envelope `[field 1: message kind] [field 2: status]`
//! followed by at most one length-delimited one-of field (numbers 10-15)
//! carrying the request or response body.  Encoders write every field in
//! ascending field order; the decoders accept exactly that canonical shape
//! and report anything else as undecodable, which the endpoint handlers
//! answer with an `InvalidProto` status.
//!
//! Field values are little-endian base-128 varints; a byte-string field is a
//! varint length followed by that many raw bytes.

use vstd::arithmetic::div_mod::lemma_fundamental_div_mod;
use vstd::arithmetic::mul::lemma_mul_inequality;
use vstd::prelude::*;

verus! {

/// Status codes carried in response envelopes and bodies.
#[derive(Clone, Copy, PartialEq, Eq, Structural, Debug)]
pub enum Status {
    Success,
    InvalidSecScheme,
    InvalidProto,
    TooManySessions,
    InvalidArgument,
    InternalError,
}

/// The wire code of a status.
pub open spec fn status_code(s: Status) -> u64 {
    match s {
        Status::Success => 0,
        Status::InvalidSecScheme => 1,
        Status::InvalidProto => 2,
        Status::TooManySessions => 3,
        Status::InvalidArgument => 4,
        Status::InternalError => 5,
    }
}

/// Executable form of [`status_code`].
pub fn status_code_ex(s: Status) -> (r: u64)
    ensures
        r == status_code(s),
{
    match s {
        Status::Success => 0,
        Status::InvalidSecScheme => 1,
        Status::InvalidProto => 2,
        Status::TooManySessions => 3,
        Status::InvalidArgument => 4,
        Status::InternalError => 5,
    }
}

/// The little-endian base-128 encoding of `n`: seven value bits per byte,
/// the high bit marking a continuation.
pub open spec fn enc_varint(n: u64) -> Seq<u8>
    decreases n,
{
    if n < 128 {
        seq![n as u8]
    } else {
        seq![(n % 128 + 128) as u8] + enc_varint(n / 128)
    }
}

/// Parse a varint at position `i` of `s`: the value and the position after
/// it, or nothing if the bytes are truncated or the value overflows 64 bits.
pub open spec fn parse_varint(s: Seq<u8>, i: int) -> Option<(u64, int)>
    decreases s.len() - i,
{
    if i < 0 || i >= s.len() {
        None
    } else {
        let b = s[i];
        if b < 128 {
            Some((b as u64, i + 1))
        } else {
            match parse_varint(s, i + 1) {
                None => None,
                Some((v, j)) => if v > ((0xffffffffffffffffu64 - (b - 128)) as u64) / 128 {
                    None
                } else {
                    Some(((v * 128 + (b - 128)) as u64, j))
                },
            }
        }
    }
}

/// Append the varint encoding of `n` to `out`.
pub fn push_varint(out: &mut Vec<u8>, n: u64)
    ensures
        final(out)@ == old(out)@ + enc_varint(n),
    decreases n,
{
    if n < 128 {
        out.push(n as u8);
        assert(final(out)@ =~= old(out)@ + enc_varint(n));
    } else {
        out.push((n % 128 + 128) as u8);
        push_varint(out, n / 128);
        assert(final(out)@ =~= old(out)@ + enc_varint(n));
    }
}

/// Read a varint at position `i` of `data`, exactly as [`parse_varint`]
/// describes.
pub fn read_varint(data: &Vec<u8>, i: usize) -> (r: Option<(u64, usize)>)
    ensures
        match r {
            Some((v, j)) => parse_varint(data@, i as int) == Some((v, j as int)) && i < j
                <= data@.len(),
            None => parse_varint(data@, i as int) is None,
        },
    decreases data@.len() - i,
{
    if i >= data.len() {
        return None;
    }
    let b = data[i];
    if b < 128 {
        Some((b as u64, i + 1))
    } else {
        match read_varint(data, i + 1) {
            None => None,
            Some((v, j)) => {
                if v > (0xffffffffffffffffu64 - ((b - 128) as u64)) / 128 {
                    None
                } else {
                    proof {
                        lemma_varint_combine_fits(v, (b - 128) as u64);
                    }
                    Some((v * 128 + ((b - 128) as u64), j))
                }
            },
        }
    }
}

/// If `v <= (max - r) / 128` then `v * 128 + r` fits in 64 bits.
proof fn lemma_varint_combine_fits(v: u64, r: u64)
    requires
        r < 128,
        v <= ((0xffffffffffffffffu64 - r) as u64) / 128,
    ensures
        v * 128 + r <= 0xffffffffffffffff,
{
    let m = (0xffffffffffffffffu64 - r) as int;
    lemma_fundamental_div_mod(m, 128);
    lemma_mul_inequality(v as int, m / 128, 128);
}

/// Parsing an encoded varint embedded in a longer sequence yields the
/// encoded value and steps exactly over its bytes.
pub proof fn lemma_parse_enc_varint(s: Seq<u8>, i: int, n: u64)
    requires
        0 <= i,
        i + enc_varint(n).len() <= s.len(),
        s.subrange(i, i + enc_varint(n).len()) == enc_varint(n),
    ensures
        parse_varint(s, i) == Some((n, i + enc_varint(n).len())),
    decreases n,
{
    let e = enc_varint(n);
    if n < 128 {
        assert(s[i] == e[0]);
    } else {
        let b = (n % 128 + 128) as u8;
        assert(s[i] == e[0]);
        assert(e[0] == b);
        let tail = enc_varint(n / 128);
        assert(s.subrange(i + 1, i + 1 + tail.len()) =~= e.subrange(1, e.len() as int));
        assert(e.subrange(1, e.len() as int) =~= tail);
        lemma_parse_enc_varint(s, i + 1, n / 128);
        lemma_fundamental_div_mod(n as int, 128);
        let v = n / 128;
        let m = (0xffffffffffffffffu64 - (b - 128)) as int;
        lemma_fundamental_div_mod(m, 128);
        assert(v <= m / 128) by {
            if v > m / 128 {
                lemma_mul_inequality(m / 128 + 1, v as int, 128);
            }
        }
        assert(v * 128 + (b - 128) == n);
    }
}

/// Parse the shared envelope of a scan or config payload: field 1 (message
/// kind) and field 2 (status), then the tag of the one-of body field, whose
/// contents run exactly to the end of the payload.  The result is that tag
/// and the position where the body starts.
pub open spec fn parse_envelope(s: Seq<u8>) -> Option<(u8, int)> {
    if s.len() == 0 || s[0] != 8 {
        None
    } else {
        match parse_varint(s, 1) {
            None => None,
            Some((_msg, i)) => if i >= s.len() || s[i] != 16 {
                None
            } else {
                match parse_varint(s, i + 1) {
                    None => None,
                    Some((_status, j)) => if j >= s.len() {
                        None
                    } else {
                        match parse_varint(s, j + 1) {
                            None => None,
                            Some((len, k)) => if len != (s.len() - k) as u64 {
                                None
                            } else {
                                Some((s[j], k))
                            },
                        }
                    },
                }
            },
        }
    }
}

/// Executable form of [`parse_envelope`].
pub fn read_envelope(data: &Vec<u8>) -> (r: Option<(u8, usize)>)
    ensures
        match r {
            Some((tag, k)) => parse_envelope(data@) == Some((tag, k as int)) && k <= data@.len(),
            None => parse_envelope(data@) is None,
        },
{
    if data.len() == 0 {
        return None;
    }
    if data[0] != 8 {
        return None;
    }
    let (_msg, i) = match read_varint(data, 1) {
        None => { return None; },
        Some(p) => p,
    };
    if i >= data.len() {
        return None;
    }
    if data[i] != 16 {
        return None;
    }
    let tag_pos = match read_varint(data, i + 1) {
        None => { return None; },
        Some((_status, j)) => j,
    };
    if tag_pos >= data.len() {
        return None;
    }
    let tag = data[tag_pos];
    let (len, k) = match read_varint(data, tag_pos + 1) {
        None => { return None; },
        Some(p) => p,
    };
    if len != (data.len() - k) as u64 {
        return None;
    }
    Some((tag, k))
}

/// The envelope encoding: field 1 (message kind), field 2 (status), and the
/// one-of body field when there is one.
pub open spec fn enc_envelope(msg: u64, status: u64, oneof: Option<(u8, Seq<u8>)>) -> Seq<u8> {
    seq![8u8] + enc_varint(msg) + seq![16u8] + enc_varint(status) + (match oneof {
        None => Seq::<u8>::empty(),
        Some((tag, body)) => seq![tag] + enc_varint(body.len() as u64) + body,
    })
}

/// Append the envelope carrying `body` under `tag` to a fresh vector.
pub fn build_envelope(msg: u64, status: u64, tag: u8, body: Vec<u8>) -> (r: Vec<u8>)
    ensures
        r@ == enc_envelope(msg, status, Some((tag, body@))),
{
    let mut out: Vec<u8> = Vec::new();
    out.push(8);
    push_varint(&mut out, msg);
    out.push(16);
    push_varint(&mut out, status);
    out.push(tag);
    push_varint(&mut out, body.len() as u64);
    let mut b = body;
    out.append(&mut b);
    proof {
        assert(out@ =~= enc_envelope(msg, status, Some((tag, body@))));
    }
    out
}

/// The envelope without a body, used for status-only error replies.
pub fn build_error_envelope(msg: u64, status: u64) -> (r: Vec<u8>)
    ensures
        r@ == enc_envelope(msg, status, None),
{
    let mut out: Vec<u8> = Vec::new();
    out.push(8);
    push_varint(&mut out, msg);
    out.push(16);
    push_varint(&mut out, status);
    proof {
        assert(out@ =~= enc_envelope(msg, status, None));
    }
    out
}

// ---------------------------------------------------------------------------
// Scan endpoint messages.
//
// Envelope message kinds: 0 CmdScanStart, 1 RespScanStart, 2 CmdScanStatus,
// 3 RespScanStatus, 4 CmdScanResult, 5 RespScanResult.  One-of field
// numbers: 10 cmd_scan_start, 11 resp_scan_start, 12 cmd_scan_status,
// 13 resp_scan_status, 14 cmd_scan_result, 15 resp_scan_result; as
// length-delimited fields their tag bytes are 0x52, 0x5a, 0x62, 0x6a, 0x72
// and 0x7a.
// ---------------------------------------------------------------------------

/// A decoded scan request.
#[derive(Clone, Copy, PartialEq, Eq, Structural, Debug)]
pub enum ScanCmd {
    /// Trigger a radio scan; acknowledged immediately.
    Start,
    /// Block on scan completion and cache the results.
    Status,
    /// Drain `count` cached entries beginning at `start_index`.
    Result { start_index: u32, count: u32 },
}

/// Parse the body of a `CmdScanResult`: field 1 `start_index`, field 2
/// `count`, both required and in order.
pub open spec fn parse_cmd_scan_result(s: Seq<u8>, k: int) -> Option<ScanCmd> {
    if k >= s.len() || s[k] != 8 {
        None
    } else {
        match parse_varint(s, k + 1) {
            None => None,
            Some((a, i)) => if a > 0xffffffffu64 || i >= s.len() || s[i] != 16 {
                None
            } else {
                match parse_varint(s, i + 1) {
                    None => None,
                    Some((b, j)) => if b > 0xffffffffu64 || j != s.len() {
                        None
                    } else {
                        Some(ScanCmd::Result { start_index: a as u32, count: b as u32 })
                    },
                }
            },
        }
    }
}

/// Parse a whole scan request payload.  The bodies of the two bare commands
/// are skipped without inspection; an unknown one-of field or any framing
/// fault is undecodable.
pub open spec fn parse_scan_cmd(s: Seq<u8>) -> Option<ScanCmd> {
    match parse_envelope(s) {
        None => None,
        Some((tag, k)) => if tag == 0x52 {
            Some(ScanCmd::Start)
        } else if tag == 0x62 {
            Some(ScanCmd::Status)
        } else if tag == 0x72 {
            parse_cmd_scan_result(s, k)
        } else {
            None
        },
    }
}

/// Executable form of [`parse_scan_cmd`].
pub fn read_scan_cmd(data: &Vec<u8>) -> (r: Option<ScanCmd>)
    ensures
        r == parse_scan_cmd(data@),
{
    let (tag, k) = match read_envelope(data) {
        None => { return None; },
        Some(p) => p,
    };
    if tag == 0x52 {
        Some(ScanCmd::Start)
    } else if tag == 0x62 {
        Some(ScanCmd::Status)
    } else if tag == 0x72 {
        if k >= data.len() {
            return None;
        }
        if data[k] != 8 {
            return None;
        }
        let (a, i) = match read_varint(data, k + 1) {
            None => { return None; },
            Some(p) => p,
        };
        if a > 0xffffffffu64 || i >= data.len() {
            return None;
        }
        if data[i] != 16 {
            return None;
        }
        let (b, j) = match read_varint(data, i + 1) {
            None => { return None; },
            Some(p) => p,
        };
        if b > 0xffffffffu64 || j != data.len() {
            return None;
        }
        Some(ScanCmd::Result { start_index: a as u32, count: b as u32 })
    } else {
        None
    }
}

/// Authentication modes of an access point, as carried in scan results
/// (one-of field 5 of an entry; wire codes 0 through 7 in this order).
#[derive(Clone, Copy, PartialEq, Eq, Structural, Debug)]
pub enum WifiAuthMode {
    Open,
    Wep,
    WpaPsk,
    Wpa2Psk,
    WpaWpa2Psk,
    Wpa2Enterprise,
    Wpa3Psk,
    Wpa2Wpa3Psk,
}

/// The wire code of an authentication mode.
pub open spec fn auth_code(a: WifiAuthMode) -> u64 {
    match a {
        WifiAuthMode::Open => 0,
        WifiAuthMode::Wep => 1,
        WifiAuthMode::WpaPsk => 2,
        WifiAuthMode::Wpa2Psk => 3,
        WifiAuthMode::WpaWpa2Psk => 4,
        WifiAuthMode::Wpa2Enterprise => 5,
        WifiAuthMode::Wpa3Psk => 6,
        WifiAuthMode::Wpa2Wpa3Psk => 7,
    }
}

/// Executable form of [`auth_code`].
pub fn auth_code_ex(a: WifiAuthMode) -> (r: u64)
    ensures
        r == auth_code(a),
{
    match a {
        WifiAuthMode::Open => 0,
        WifiAuthMode::Wep => 1,
        WifiAuthMode::WpaPsk => 2,
        WifiAuthMode::Wpa2Psk => 3,
        WifiAuthMode::WpaWpa2Psk => 4,
        WifiAuthMode::Wpa2Enterprise => 5,
        WifiAuthMode::Wpa3Psk => 6,
        WifiAuthMode::Wpa2Wpa3Psk => 7,
    }
}

/// One scan-result entry in wire form: ssid (field 1, bytes), channel
/// (field 2), rssi (field 3, sign-extended), bssid (field 4, bytes) and
/// authentication mode (field 5).
pub struct WiFiScanResult {
    pub ssid: Vec<u8>,
    pub channel: u32,
    pub rssi: i32,
    pub bssid: Vec<u8>,
    pub auth: WifiAuthMode,
}

/// The mathematical value of a [`WiFiScanResult`].
pub struct WiFiScanResultView {
    pub ssid: Seq<u8>,
    pub channel: u32,
    pub rssi: i32,
    pub bssid: Seq<u8>,
    pub auth: WifiAuthMode,
}

impl View for WiFiScanResult {
    type V = WiFiScanResultView;

    open spec fn view(&self) -> WiFiScanResultView {
        WiFiScanResultView {
            ssid: self.ssid@,
            channel: self.channel,
            rssi: self.rssi,
            bssid: self.bssid@,
            auth: self.auth,
        }
    }
}

/// The 64-bit two's-complement image of a 32-bit signed value, as plain
/// varints carry negative numbers.
pub open spec fn sign_ext_32(v: i32) -> u64 {
    if v >= 0 {
        v as u64
    } else {
        (0x10000000000000000 + v) as u64
    }
}

/// Executable form of [`sign_ext_32`].
pub fn sign_ext_32_ex(v: i32) -> (r: u64)
    ensures
        r == sign_ext_32(v),
{
    if v >= 0 {
        v as u64
    } else {
        let neg: u64 = (-(v as i64)) as u64;
        0xffffffffffffffffu64 - neg + 1
    }
}

/// The encoding of one scan-result entry.
pub open spec fn enc_entry(e: WiFiScanResultView) -> Seq<u8> {
    seq![10u8] + enc_varint(e.ssid.len() as u64) + e.ssid + seq![16u8] + enc_varint(
        e.channel as u64,
    ) + seq![24u8] + enc_varint(sign_ext_32(e.rssi)) + seq![34u8] + enc_varint(
        e.bssid.len() as u64,
    ) + e.bssid + seq![40u8] + enc_varint(auth_code(e.auth))
}

/// Executable form of [`enc_entry`].
pub fn enc_entry_ex(e: &WiFiScanResult) -> (r: Vec<u8>)
    ensures
        r@ == enc_entry(e@),
{
    let mut out: Vec<u8> = Vec::new();
    out.push(10);
    push_varint(&mut out, e.ssid.len() as u64);
    let mut ssid = copy_range(&e.ssid, 0, e.ssid.len());
    out.append(&mut ssid);
    out.push(16);
    push_varint(&mut out, e.channel as u64);
    out.push(24);
    push_varint(&mut out, sign_ext_32_ex(e.rssi));
    out.push(34);
    push_varint(&mut out, e.bssid.len() as u64);
    let mut bssid = copy_range(&e.bssid, 0, e.bssid.len());
    out.append(&mut bssid);
    out.push(40);
    push_varint(&mut out, auth_code_ex(e.auth));
    proof {
        assert(e.ssid@.subrange(0, e.ssid@.len() as int) =~= e.ssid@);
        assert(e.bssid@.subrange(0, e.bssid@.len() as int) =~= e.bssid@);
        assert(out@ =~= enc_entry(e@));
    }
    out
}

/// The concatenated repeated-entry field of a `RespScanResult`: each entry
/// under field 1, in order.
pub open spec fn enc_entries(es: Seq<WiFiScanResultView>) -> Seq<u8>
    decreases es.len(),
{
    if es.len() == 0 {
        Seq::empty()
    } else {
        enc_entries(es.drop_last()) + seq![10u8] + enc_varint(enc_entry(es.last()).len() as u64)
            + enc_entry(es.last())
    }
}

/// The view of a vector of entries, element by element.
pub open spec fn entries_view(es: Seq<WiFiScanResult>) -> Seq<WiFiScanResultView> {
    es.map(|i: int, e: WiFiScanResult| e@)
}

/// The scan responses, one encoding apiece.
pub open spec fn enc_resp_scan_start() -> Seq<u8> {
    enc_envelope(1, 0, Some((0x5a, Seq::empty())))
}

pub open spec fn enc_resp_scan_status(finished: bool, count: u32) -> Seq<u8> {
    enc_envelope(
        3,
        0,
        Some(
            (
                0x6a,
                seq![8u8] + enc_varint(if finished { 1u64 } else { 0u64 }) + seq![16u8]
                    + enc_varint(count as u64),
            ),
        ),
    )
}

pub open spec fn enc_resp_scan_result(es: Seq<WiFiScanResultView>) -> Seq<u8> {
    enc_envelope(5, 0, Some((0x7a, enc_entries(es))))
}

/// The status-only reply to an undecodable scan request.
pub open spec fn enc_scan_invalid_proto() -> Seq<u8> {
    enc_envelope(0, status_code(Status::InvalidProto), None)
}

/// Build the acknowledgement of `CmdScanStart`.
pub fn build_resp_scan_start() -> (r: Vec<u8>)
    ensures
        r@ == enc_resp_scan_start(),
{
    build_envelope(1, 0, 0x5a, Vec::new())
}

/// Build the reply to `CmdScanStatus`.
pub fn build_resp_scan_status(finished: bool, count: u32) -> (r: Vec<u8>)
    ensures
        r@ == enc_resp_scan_status(finished, count),
{
    let mut body: Vec<u8> = Vec::new();
    body.push(8);
    push_varint(&mut body, if finished { 1 } else { 0 });
    body.push(16);
    push_varint(&mut body, count as u64);
    proof {
        assert(body@ =~= seq![8u8] + enc_varint(if finished { 1u64 } else { 0u64 }) + seq![16u8]
            + enc_varint(count as u64));
    }
    build_envelope(3, 0, 0x6a, body)
}

/// Build the reply to `CmdScanResult` carrying the drained entries.
pub fn build_resp_scan_result(es: &Vec<WiFiScanResult>) -> (r: Vec<u8>)
    ensures
        r@ == enc_resp_scan_result(entries_view(es@)),
{
    let mut body: Vec<u8> = Vec::new();
    let n = es.len();
    for i in 0..n
        invariant
            n == es@.len(),
            body@ =~= enc_entries(entries_view(es@).take(i as int)),
    {
        let mut eb = enc_entry_ex(&es[i]);
        body.push(10);
        push_varint(&mut body, eb.len() as u64);
        body.append(&mut eb);
        proof {
            let vs = entries_view(es@);
            assert(vs.take(i as int + 1).drop_last() =~= vs.take(i as int));
            assert(vs.take(i as int + 1).last() == vs[i as int]);
            assert(body@ =~= enc_entries(vs.take(i as int + 1)));
        }
    }
    proof {
        assert(entries_view(es@).take(n as int) =~= entries_view(es@));
    }
    build_envelope(5, 0, 0x7a, body)
}

/// Build the status-only reply to an undecodable scan request.
pub fn build_scan_invalid_proto() -> (r: Vec<u8>)
    ensures
        r@ == enc_scan_invalid_proto(),
{
    build_error_envelope(0, status_code_ex(Status::InvalidProto))
}

// ---------------------------------------------------------------------------
// Config endpoint messages.
//
// Envelope message kinds: 0 CmdGetStatus, 1 RespGetStatus, 2 CmdSetConfig,
// 3 RespSetConfig, 4 CmdApplyConfig, 5 RespApplyConfig.  One-of field
// numbers: 10 cmd_get_status, 11 resp_get_status, 12 cmd_set_config,
// 13 resp_set_config, 14 cmd_apply_config, 15 resp_apply_config.
//
// A `RespGetStatus` body carries field 1 status, field 2 station state
// (0 connected, 3 connection failed), then one of field 10 (failure reason,
// 0 authentication error) or field 11 (connected state: field 1, the
// textual address bytes).
// ---------------------------------------------------------------------------

/// A decoded config request.
pub enum ConfigCmd {
    /// Report the connection state and signal provisioning completion.
    GetStatus,
    /// Stage candidate credentials; nothing is persisted or connected yet.
    SetConfig { ssid: Vec<u8>, passphrase: Vec<u8>, bssid: Vec<u8>, channel: u32 },
    /// Attempt a connection with the staged credentials.
    ApplyConfig,
}

/// The mathematical value of a [`ConfigCmd`].
pub enum ConfigCmdView {
    GetStatus,
    SetConfig { ssid: Seq<u8>, passphrase: Seq<u8>, bssid: Seq<u8>, channel: u32 },
    ApplyConfig,
}

impl View for ConfigCmd {
    type V = ConfigCmdView;

    open spec fn view(&self) -> ConfigCmdView {
        match self {
            ConfigCmd::GetStatus => ConfigCmdView::GetStatus,
            ConfigCmd::SetConfig { ssid, passphrase, bssid, channel } => ConfigCmdView::SetConfig {
                ssid: ssid@,
                passphrase: passphrase@,
                bssid: bssid@,
                channel: *channel,
            },
            ConfigCmd::ApplyConfig => ConfigCmdView::ApplyConfig,
        }
    }
}

/// Parse one length-delimited byte field with tag byte `tag` at position
/// `k`: the field bytes and the position after them.
pub open spec fn parse_bytes_field(s: Seq<u8>, k: int, tag: u8) -> Option<(Seq<u8>, int)> {
    if k >= s.len() || s[k] != tag {
        None
    } else {
        match parse_varint(s, k + 1) {
            None => None,
            Some((len, i)) => if len > (s.len() - i) as u64 {
                None
            } else {
                Some((s.subrange(i, i + len as int), i + len as int))
            },
        }
    }
}

/// Executable form of [`parse_bytes_field`].
pub fn read_bytes_field(data: &Vec<u8>, k: usize, tag: u8) -> (r: Option<(Vec<u8>, usize)>)
    ensures
        match r {
            Some((b, j)) => parse_bytes_field(data@, k as int, tag) == Some((b@, j as int)) && j
                <= data@.len(),
            None => parse_bytes_field(data@, k as int, tag) is None,
        },
{
    if k >= data.len() {
        return None;
    }
    if data[k] != tag {
        return None;
    }
    let (len, i) = match read_varint(data, k + 1) {
        None => { return None; },
        Some(p) => p,
    };
    if len > (data.len() - i) as u64 {
        return None;
    }
    let lenu: usize = len as usize;
    let b = copy_range(data, i, lenu);
    Some((b, i + lenu))
}

/// Parse the body of a `CmdSetConfig`: ssid (field 1), passphrase (field 2),
/// bssid (field 3) and channel (field 4), all required and in order.
pub open spec fn parse_cmd_set_config(s: Seq<u8>, k: int) -> Option<ConfigCmdView> {
    match parse_bytes_field(s, k, 10) {
        None => None,
        Some((ssid, i)) => match parse_bytes_field(s, i, 18) {
            None => None,
            Some((pass, j)) => match parse_bytes_field(s, j, 26) {
                None => None,
                Some((bssid, p)) => if p >= s.len() || s[p] != 32 {
                    None
                } else {
                    match parse_varint(s, p + 1) {
                        None => None,
                        Some((ch, q)) => if ch > 0xffffffffu64 || q != s.len() {
                            None
                        } else {
                            Some(
                                ConfigCmdView::SetConfig {
                                    ssid,
                                    passphrase: pass,
                                    bssid,
                                    channel: ch as u32,
                                },
                            )
                        },
                    }
                },
            },
        },
    }
}

/// Parse a whole config request payload, as [`parse_scan_cmd`] does for the
/// scan endpoint.
pub open spec fn parse_config_cmd(s: Seq<u8>) -> Option<ConfigCmdView> {
    match parse_envelope(s) {
        None => None,
        Some((tag, k)) => if tag == 0x52 {
            Some(ConfigCmdView::GetStatus)
        } else if tag == 0x62 {
            parse_cmd_set_config(s, k)
        } else if tag == 0x72 {
            Some(ConfigCmdView::ApplyConfig)
        } else {
            None
        },
    }
}

/// Executable form of [`parse_config_cmd`].
pub fn read_config_cmd(data: &Vec<u8>) -> (r: Option<ConfigCmd>)
    ensures
        match r {
            Some(c) => parse_config_cmd(data@) == Some(c@),
            None => parse_config_cmd(data@) is None,
        },
{
    let (tag, k) = match read_envelope(data) {
        None => { return None; },
        Some(p) => p,
    };
    if tag == 0x52 {
        Some(ConfigCmd::GetStatus)
    } else if tag == 0x62 {
        let (ssid, i) = match read_bytes_field(data, k, 10) {
            None => { return None; },
            Some(p) => p,
        };
        let (passphrase, j) = match read_bytes_field(data, i, 18) {
            None => { return None; },
            Some(p) => p,
        };
        let (bssid, p) = match read_bytes_field(data, j, 26) {
            None => { return None; },
            Some(q) => q,
        };
        if p >= data.len() {
            return None;
        }
        if data[p] != 32 {
            return None;
        }
        let (ch, q) = match read_varint(data, p + 1) {
            None => { return None; },
            Some(r) => r,
        };
        if ch > 0xffffffffu64 || q != data.len() {
            return None;
        }
        Some(ConfigCmd::SetConfig { ssid, passphrase, bssid, channel: ch as u32 })
    } else if tag == 0x72 {
        Some(ConfigCmd::ApplyConfig)
    } else {
        None
    }
}

/// The config responses.
pub open spec fn enc_resp_set_config(status: Status) -> Seq<u8> {
    enc_envelope(3, status_code(status), Some((0x6a, seq![8u8] + enc_varint(status_code(status)))))
}

pub open spec fn enc_resp_apply_config(status: Status) -> Seq<u8> {
    enc_envelope(5, status_code(status), Some((0x7a, seq![8u8] + enc_varint(status_code(status)))))
}

/// The reply to `CmdGetStatus`: connected with the textual address bytes, or
/// failed with an authentication-error reason.
pub open spec fn enc_resp_get_status(connected: bool, ip: Seq<u8>) -> Seq<u8> {
    enc_envelope(
        1,
        0,
        Some(
            (
                0x5a,
                if connected {
                    let inner = seq![10u8] + enc_varint(ip.len() as u64) + ip;
                    seq![8u8] + enc_varint(0) + seq![16u8] + enc_varint(0) + seq![90u8]
                        + enc_varint(inner.len() as u64) + inner
                } else {
                    seq![8u8] + enc_varint(0) + seq![16u8] + enc_varint(3) + seq![80u8]
                        + enc_varint(0)
                },
            ),
        ),
    )
}

/// The status-only reply to an undecodable config request.
pub open spec fn enc_config_invalid_proto() -> Seq<u8> {
    enc_envelope(0, status_code(Status::InvalidProto), None)
}

/// Build the reply to `CmdSetConfig`.
pub fn build_resp_set_config(status: Status) -> (r: Vec<u8>)
    ensures
        r@ == enc_resp_set_config(status),
{
    let code = status_code_ex(status);
    let mut body: Vec<u8> = Vec::new();
    body.push(8);
    push_varint(&mut body, code);
    proof {
        assert(body@ =~= seq![8u8] + enc_varint(status_code(status)));
    }
    build_envelope(3, code, 0x6a, body)
}

/// Build the reply to `CmdApplyConfig`.
pub fn build_resp_apply_config(status: Status) -> (r: Vec<u8>)
    ensures
        r@ == enc_resp_apply_config(status),
{
    let code = status_code_ex(status);
    let mut body: Vec<u8> = Vec::new();
    body.push(8);
    push_varint(&mut body, code);
    proof {
        assert(body@ =~= seq![8u8] + enc_varint(status_code(status)));
    }
    build_envelope(5, code, 0x7a, body)
}

/// Build the reply to `CmdGetStatus`.
pub fn build_resp_get_status(connected: bool, ip: &Vec<u8>) -> (r: Vec<u8>)
    ensures
        r@ == enc_resp_get_status(connected, ip@),
{
    let mut body: Vec<u8> = Vec::new();
    body.push(8);
    push_varint(&mut body, 0);
    body.push(16);
    if connected {
        push_varint(&mut body, 0);
        let mut inner: Vec<u8> = Vec::new();
        inner.push(10);
        push_varint(&mut inner, ip.len() as u64);
        let mut ipb = copy_range(ip, 0, ip.len());
        inner.append(&mut ipb);
        proof {
            assert(ip@.subrange(0, ip@.len() as int) =~= ip@);
            assert(inner@ =~= seq![10u8] + enc_varint(ip@.len() as u64) + ip@);
        }
        body.push(90);
        push_varint(&mut body, inner.len() as u64);
        body.append(&mut inner);
    } else {
        push_varint(&mut body, 3);
        body.push(80);
        push_varint(&mut body, 0);
    }
    proof {
        let inner = seq![10u8] + enc_varint(ip@.len() as u64) + ip@;
        if connected {
            assert(body@ =~= seq![8u8] + enc_varint(0) + seq![16u8] + enc_varint(0) + seq![90u8]
                + enc_varint(inner.len() as u64) + inner);
        } else {
            assert(body@ =~= seq![8u8] + enc_varint(0) + seq![16u8] + enc_varint(3) + seq![80u8]
                + enc_varint(0));
        }
    }
    build_envelope(1, 0, 0x5a, body)
}

/// Build the status-only reply to an undecodable config request.
pub fn build_config_invalid_proto() -> (r: Vec<u8>)
    ensures
        r@ == enc_config_invalid_proto(),
{
    build_error_envelope(0, status_code_ex(Status::InvalidProto))
}

// ---------------------------------------------------------------------------
// Request builders, the encodings a companion client sends.
// ---------------------------------------------------------------------------

/// The canonical encoding of a scan request.
pub open spec fn enc_scan_cmd(c: ScanCmd) -> Seq<u8> {
    match c {
        ScanCmd::Start => enc_envelope(0, 0, Some((0x52, Seq::empty()))),
        ScanCmd::Status => enc_envelope(2, 0, Some((0x62, Seq::empty()))),
        ScanCmd::Result { start_index, count } => enc_envelope(
            4,
            0,
            Some(
                (
                    0x72,
                    seq![8u8] + enc_varint(start_index as u64) + seq![16u8] + enc_varint(
                        count as u64,
                    ),
                ),
            ),
        ),
    }
}

/// Build a scan request.
pub fn build_scan_cmd(c: ScanCmd) -> (r: Vec<u8>)
    ensures
        r@ == enc_scan_cmd(c),
{
    match c {
        ScanCmd::Start => build_envelope(0, 0, 0x52, Vec::new()),
        ScanCmd::Status => build_envelope(2, 0, 0x62, Vec::new()),
        ScanCmd::Result { start_index, count } => {
            let mut body: Vec<u8> = Vec::new();
            body.push(8);
            push_varint(&mut body, start_index as u64);
            body.push(16);
            push_varint(&mut body, count as u64);
            proof {
                assert(body@ =~= seq![8u8] + enc_varint(start_index as u64) + seq![16u8]
                    + enc_varint(count as u64));
            }
            build_envelope(4, 0, 0x72, body)
        },
    }
}

/// The canonical encoding of a config request.
pub open spec fn enc_config_cmd(c: ConfigCmdView) -> Seq<u8> {
    match c {
        ConfigCmdView::GetStatus => enc_envelope(0, 0, Some((0x52, Seq::empty()))),
        ConfigCmdView::SetConfig { ssid, passphrase, bssid, channel } => enc_envelope(
            2,
            0,
            Some(
                (
                    0x62,
                    seq![10u8] + enc_varint(ssid.len() as u64) + ssid + seq![18u8] + enc_varint(
                        passphrase.len() as u64,
                    ) + passphrase + seq![26u8] + enc_varint(bssid.len() as u64) + bssid
                        + seq![32u8] + enc_varint(channel as u64),
                ),
            ),
        ),
        ConfigCmdView::ApplyConfig => enc_envelope(4, 0, Some((0x72, Seq::empty()))),
    }
}

/// Build a config request.
pub fn build_config_cmd(c: &ConfigCmd) -> (r: Vec<u8>)
    ensures
        r@ == enc_config_cmd(c@),
{
    match c {
        ConfigCmd::GetStatus => build_envelope(0, 0, 0x52, Vec::new()),
        ConfigCmd::SetConfig { ssid, passphrase, bssid, channel } => {
            let mut body: Vec<u8> = Vec::new();
            body.push(10);
            push_varint(&mut body, ssid.len() as u64);
            let mut b1 = copy_range(ssid, 0, ssid.len());
            body.append(&mut b1);
            body.push(18);
            push_varint(&mut body, passphrase.len() as u64);
            let mut b2 = copy_range(passphrase, 0, passphrase.len());
            body.append(&mut b2);
            body.push(26);
            push_varint(&mut body, bssid.len() as u64);
            let mut b3 = copy_range(bssid, 0, bssid.len());
            body.append(&mut b3);
            body.push(32);
            push_varint(&mut body, *channel as u64);
            proof {
                assert(ssid@.subrange(0, ssid@.len() as int) =~= ssid@);
                assert(passphrase@.subrange(0, passphrase@.len() as int) =~= passphrase@);
                assert(bssid@.subrange(0, bssid@.len() as int) =~= bssid@);
                assert(body@ =~= seq![10u8] + enc_varint(ssid@.len() as u64) + ssid@ + seq![18u8]
                    + enc_varint(passphrase@.len() as u64) + passphrase@ + seq![26u8] + enc_varint(
                    bssid@.len() as u64,
                ) + bssid@ + seq![32u8] + enc_varint(*channel as u64));
            }
            build_envelope(2, 0, 0x62, body)
        },
        ConfigCmd::ApplyConfig => build_envelope(4, 0, 0x72, Vec::new()),
    }
}

// ---------------------------------------------------------------------------
// Round-trip laws: the decoders invert the encoders.
// ---------------------------------------------------------------------------

/// A varint encoding is never empty and never longer than one byte per
/// unit of its value.
proof fn lemma_enc_varint_len(n: u64)
    ensures
        1 <= enc_varint(n).len() <= n + 1,
    decreases n,
{
    if n >= 128 {
        lemma_enc_varint_len(n / 128);
    }
}

/// Parsing an encoded envelope finds the one-of tag and the body start.
proof fn lemma_parse_enc_envelope(msg: u64, status: u64, tag: u8, body: Seq<u8>)
    requires
        tag != 8 && tag != 16,
        body.len() <= 0xffffffffffffu64,
    ensures
        ({
            let s = enc_envelope(msg, status, Some((tag, body)));
            parse_envelope(s) == Some((tag, s.len() - body.len()))
        }),
{
    let e1 = enc_varint(msg);
    let e2 = enc_varint(status);
    let e3 = enc_varint(body.len() as u64);
    let s = enc_envelope(msg, status, Some((tag, body)));
    assert(s[0] == 8);
    assert(s.subrange(1, 1 + e1.len() as int) =~= e1);
    lemma_parse_enc_varint(s, 1, msg);
    let i = 1 + e1.len() as int;
    assert(s[i] == 16);
    assert(s.subrange(i + 1, i + 1 + e2.len() as int) =~= e2);
    lemma_parse_enc_varint(s, i + 1, status);
    let j = i + 1 + e2.len() as int;
    assert(s[j] == tag);
    assert(s.subrange(j + 1, j + 1 + e3.len() as int) =~= e3);
    lemma_parse_enc_varint(s, j + 1, body.len() as u64);
    let k = j + 1 + e3.len() as int;
    assert(s.len() - k == body.len());
}

/// Round trip of the scan requests: decoding what [`enc_scan_cmd`] produced
/// yields the same command.
#[verifier::rlimit(100)]
pub proof fn lemma_scan_cmd_round_trip(c: ScanCmd)
    ensures
        parse_scan_cmd(enc_scan_cmd(c)) == Some(c),
{
    match c {
        ScanCmd::Start => {
            lemma_parse_enc_envelope(0, 0, 0x52, Seq::empty());
        },
        ScanCmd::Status => {
            lemma_parse_enc_envelope(2, 0, 0x62, Seq::empty());
        },
        ScanCmd::Result { start_index, count } => {
            let e1 = enc_varint(start_index as u64);
            let e2 = enc_varint(count as u64);
            lemma_enc_varint_len(start_index as u64);
            lemma_enc_varint_len(count as u64);
            let body = seq![8u8] + e1 + seq![16u8] + e2;
            lemma_parse_enc_envelope(4, 0, 0x72, body);
            let s = enc_scan_cmd(c);
            let k = s.len() - body.len() as int;
            assert(s.subrange(k, s.len() as int) =~= body);
            assert(s[k] == 8);
            assert(s.subrange(k + 1, k + 1 + e1.len() as int) =~= e1);
            lemma_parse_enc_varint(s, k + 1, start_index as u64);
            let i = k + 1 + e1.len() as int;
            assert(s[i] == 16);
            assert(s.subrange(i + 1, i + 1 + e2.len() as int) =~= e2);
            lemma_parse_enc_varint(s, i + 1, count as u64);
        },
    }
}

/// Round trip of the config requests: decoding what [`enc_config_cmd`]
/// produced yields the same command.
pub proof fn lemma_config_cmd_round_trip(c: ConfigCmdView)
    requires
        c matches ConfigCmdView::SetConfig { ssid, passphrase, bssid, .. } ==> ssid.len()
            + passphrase.len() + bssid.len() <= 0xffff,
    ensures
        parse_config_cmd(enc_config_cmd(c)) == Some(c),
{
    match c {
        ConfigCmdView::GetStatus => {
            lemma_parse_enc_envelope(0, 0, 0x52, Seq::empty());
        },
        ConfigCmdView::ApplyConfig => {
            lemma_parse_enc_envelope(4, 0, 0x72, Seq::empty());
        },
        ConfigCmdView::SetConfig { ssid, passphrase, bssid, channel } => {
            lemma_set_config_round_trip(ssid, passphrase, bssid, channel);
        },
    }
}

/// The set-config case of the round trip, on its own for the prover.
#[verifier::spinoff_prover]
#[verifier::rlimit(100)]
proof fn lemma_set_config_round_trip(ssid: Seq<u8>, passphrase: Seq<u8>, bssid: Seq<u8>, channel: u32)
    requires
        ssid.len() + passphrase.len() + bssid.len() <= 0xffff,
    ensures
        ({
            let c = ConfigCmdView::SetConfig { ssid, passphrase, bssid, channel };
            parse_config_cmd(enc_config_cmd(c)) == Some(c)
        }),
{
    let c = ConfigCmdView::SetConfig { ssid, passphrase, bssid, channel };
    let l1 = enc_varint(ssid.len() as u64);
    let l2 = enc_varint(passphrase.len() as u64);
    let l3 = enc_varint(bssid.len() as u64);
    let e4 = enc_varint(channel as u64);
    lemma_enc_varint_len(ssid.len() as u64);
    lemma_enc_varint_len(passphrase.len() as u64);
    lemma_enc_varint_len(bssid.len() as u64);
    lemma_enc_varint_len(channel as u64);
    let body = seq![10u8] + l1 + ssid + seq![18u8] + l2 + passphrase + seq![26u8] + l3
        + bssid + seq![32u8] + e4;
    lemma_parse_enc_envelope(2, 0, 0x62, body);
    let s = enc_config_cmd(c);
    let k = s.len() - body.len() as int;
    assert(s.subrange(k, s.len() as int) =~= body);
    // ssid field
    assert(s[k] == 10);
    assert(s.subrange(k + 1, k + 1 + l1.len() as int) =~= l1);
    lemma_parse_enc_varint(s, k + 1, ssid.len() as u64);
    let p1 = k + 1 + l1.len() as int;
    assert(s.subrange(p1, p1 + ssid.len() as int) =~= ssid);
    let q1 = p1 + ssid.len() as int;
    // passphrase field
    assert(s[q1] == 18);
    assert(s.subrange(q1 + 1, q1 + 1 + l2.len() as int) =~= l2);
    lemma_parse_enc_varint(s, q1 + 1, passphrase.len() as u64);
    let p2 = q1 + 1 + l2.len() as int;
    assert(s.subrange(p2, p2 + passphrase.len() as int) =~= passphrase);
    let q2 = p2 + passphrase.len() as int;
    // bssid field
    assert(s[q2] == 26);
    assert(s.subrange(q2 + 1, q2 + 1 + l3.len() as int) =~= l3);
    lemma_parse_enc_varint(s, q2 + 1, bssid.len() as u64);
    let p3 = q2 + 1 + l3.len() as int;
    assert(s.subrange(p3, p3 + bssid.len() as int) =~= bssid);
    let q3 = p3 + bssid.len() as int;
    // channel field
    assert(s[q3] == 32);
    assert(s.subrange(q3 + 1, q3 + 1 + e4.len() as int) =~= e4);
    lemma_parse_enc_varint(s, q3 + 1, channel as u64);
    assert(q3 + 1 + e4.len() == s.len());
}

/// Copy `data[i .. i + len]` into a fresh vector.
pub fn copy_range(data: &Vec<u8>, i: usize, len: usize) -> (r: Vec<u8>)
    requires
        i + len <= data@.len(),
    ensures
        r@ == data@.subrange(i as int, i as int + len as int),
{
    let n = data.len();
    let mut r: Vec<u8> = Vec::new();
    for k in 0..len
        invariant
            i + len <= n == data@.len(),
            r@ =~= data@.subrange(i as int, i as int + k as int),
    {
        r.push(data[i + k]);
        assert(r@ =~= data@.subrange(i as int, i as int + k as int + 1));
    }
    r
}

} // verus!
