//! The config endpoint: stage candidate credentials, apply them with a
//! connection attempt, and report the connection state.
//!
//! Credentials are persisted to the durable-store model only after a
//! connection attempt succeeds (write-after-verify), so storage never holds
//! credentials that failed to connect.  Reporting the connection state also
//! raises the one-shot completion signal that ends the provisioning flow.

use vstd::prelude::*;
use vstd::utf8::{decode_utf8, encode_utf8, valid_utf8};

use crate::codec;
use crate::codec::{ConfigCmd, ConfigCmdView, Status};
use crate::wifi::{WifiClientConfig, WifiClientConfigView};
use crate::wifi_prov::{CredentialStoreView, ProvisioningSharedData, SharedView};

verus! {

/// What the caller must do with a config request after the handler ran.
pub enum ConfigAction {
    /// The plaintext response is complete.
    Reply(Vec<u8>),
    /// The request applies the staged credentials: attempt the connection
    /// and hand the outcome to [`handle_apply_config`].
    NeedConnect,
    /// The request polls the connection state: read it from the controller
    /// and hand it to [`handle_get_status`].
    NeedStatus,
}

/// The mathematical value of a [`ConfigAction`].
pub enum ConfigStep {
    Reply(Seq<u8>),
    NeedConnect,
    NeedStatus,
}

impl View for ConfigAction {
    type V = ConfigStep;

    open spec fn view(&self) -> ConfigStep {
        match self {
            ConfigAction::Reply(b) => ConfigStep::Reply(b@),
            ConfigAction::NeedConnect => ConfigStep::NeedConnect,
            ConfigAction::NeedStatus => ConfigStep::NeedStatus,
        }
    }
}

/// Relies on `String::from_utf8`: it returns the decoded string exactly
/// when the bytes are valid UTF-8, and the decoded string re-encodes to the
/// input bytes.
#[verifier::external_body]
fn bytes_to_string(v: Vec<u8>) -> (r: Option<String>)
    ensures
        r is Some <==> valid_utf8(v@),
        r matches Some(s) ==> encode_utf8(s@) == v@,
{
    match String::from_utf8(v) {
        Ok(s) => Some(s),
        Err(_) => None,
    }
}

/// The set-config transition: with decodable credentials the candidate is
/// replaced (last writer wins) and nothing else — in particular not the
/// durable store — changes; credentials that are not UTF-8 are rejected
/// with an invalid-argument status before any mutation.
pub open spec fn spec_set_config(
    pre: SharedView,
    ssid: Seq<u8>,
    passphrase: Seq<u8>,
    bssid: Seq<u8>,
    channel: u32,
) -> (SharedView, Seq<u8>) {
    if valid_utf8(ssid) && valid_utf8(passphrase) {
        (
            SharedView {
                candidate: Some(
                    WifiClientConfigView {
                        ssid: decode_utf8(ssid),
                        password: decode_utf8(passphrase),
                        bssid: bssid,
                        channel: (channel % 256) as u8,
                    },
                ),
                ..pre
            },
            codec::enc_resp_set_config(Status::Success),
        )
    } else {
        (pre, codec::enc_resp_set_config(Status::InvalidArgument))
    }
}

/// The apply-config transition, taken once the connection attempt
/// resolved: on success the staged credentials are persisted to the store;
/// on failure (or with nothing staged) the store is untouched.  The reply
/// reports protocol-level success either way — the connection outcome is
/// surfaced only by a later status poll.
pub open spec fn spec_apply_config(pre: SharedView, connect_ok: bool) -> (SharedView, Seq<u8>) {
    let post = if connect_ok && pre.candidate is Some {
        SharedView {
            store: CredentialStoreView {
                ssid: Some(pre.candidate->0.ssid),
                password: Some(pre.candidate->0.password),
            },
            ..pre
        }
    } else {
        pre
    };
    (post, codec::enc_resp_apply_config(Status::Success))
}

/// The get-status transition, taken once the connection state was read:
/// the completion signal is raised — exactly this unblocks the manager's
/// wait — and the reply reports the state.
pub open spec fn spec_get_status(pre: SharedView, connected: bool, ip: Seq<u8>) -> (
    SharedView,
    Seq<u8>,
) {
    (SharedView { completed: true, ..pre }, codec::enc_resp_get_status(connected, ip))
}

/// The whole config endpoint as one transition from the shared state and
/// the raw request bytes.
pub open spec fn spec_config_callback(pre: SharedView, inp: Seq<u8>) -> (SharedView, ConfigStep) {
    match codec::parse_config_cmd(inp) {
        None => (pre, ConfigStep::Reply(codec::enc_config_invalid_proto())),
        Some(ConfigCmdView::GetStatus) => (pre, ConfigStep::NeedStatus),
        Some(ConfigCmdView::SetConfig { ssid, passphrase, bssid, channel }) => {
            let (post, reply) = spec_set_config(pre, ssid, passphrase, bssid, channel);
            (post, ConfigStep::Reply(reply))
        },
        Some(ConfigCmdView::ApplyConfig) => (pre, ConfigStep::NeedConnect),
    }
}

/// Credential persistence gate: staging credentials and then failing to
/// connect leaves the durable store exactly as it was; staging and then
/// connecting successfully leaves the store holding exactly the staged
/// ssid and passphrase.
pub proof fn lemma_credential_persistence_gate(
    pre: SharedView,
    ssid: Seq<u8>,
    passphrase: Seq<u8>,
    bssid: Seq<u8>,
    channel: u32,
    connect_ok: bool,
)
    requires
        valid_utf8(ssid),
        valid_utf8(passphrase),
    ensures
        ({
            let staged = spec_set_config(pre, ssid, passphrase, bssid, channel).0;
            let applied = spec_apply_config(staged, connect_ok).0;
            &&& !connect_ok ==> applied.store == pre.store
            &&& connect_ok ==> applied.store == CredentialStoreView {
                ssid: Some(decode_utf8(ssid)),
                password: Some(decode_utf8(passphrase)),
            }
        }),
{
}

/// Completion signal: one get-status transition raises the completion
/// signal, no matter how many set-config or apply-config transitions came
/// before it — neither of those touches the signal.
pub proof fn lemma_completion_signal(
    pre: SharedView,
    ssid: Seq<u8>,
    passphrase: Seq<u8>,
    bssid: Seq<u8>,
    channel: u32,
    connect_ok: bool,
    connected: bool,
    ip: Seq<u8>,
)
    ensures
        spec_set_config(pre, ssid, passphrase, bssid, channel).0.completed == pre.completed,
        spec_apply_config(pre, connect_ok).0.completed == pre.completed,
        spec_get_status(pre, connected, ip).0.completed,
{
}

/// Stage candidate credentials from a set-config request.  The credentials
/// are validated before any mutation: bytes that are not UTF-8 leave the
/// shared state untouched.
pub fn handle_set_config(
    shared: &mut ProvisioningSharedData,
    ssid: Vec<u8>,
    passphrase: Vec<u8>,
    bssid: Vec<u8>,
    channel: u32,
) -> (r: Vec<u8>)
    ensures
        (final(shared)@, r@) == spec_set_config(old(shared)@, ssid@, passphrase@, bssid@, channel),
{
    let ghost pre = shared@;
    let ssid_s = match bytes_to_string(ssid) {
        Some(s) => s,
        None => {
            return codec::build_resp_set_config(Status::InvalidArgument);
        },
    };
    let pass_s = match bytes_to_string(passphrase) {
        Some(s) => s,
        None => {
            return codec::build_resp_set_config(Status::InvalidArgument);
        },
    };
    proof {
        vstd::utf8::encode_utf8_decode_utf8(ssid_s@);
        vstd::utf8::encode_utf8_decode_utf8(pass_s@);
    }
    shared.candidate = Some(
        WifiClientConfig {
            ssid: ssid_s,
            password: pass_s,
            bssid,
            channel: (channel % 256) as u8,
        },
    );
    codec::build_resp_set_config(Status::Success)
}

/// Apply the staged credentials once the connection attempt resolved:
/// persist them exactly when the attempt succeeded.
pub fn handle_apply_config(shared: &mut ProvisioningSharedData, connect_ok: bool) -> (r: Vec<u8>)
    ensures
        (final(shared)@, r@) == spec_apply_config(old(shared)@, connect_ok),
{
    if connect_ok {
        match &shared.candidate {
            Some(c) => {
                let ssid = c.ssid.clone();
                let password = c.password.clone();
                shared.store.ssid = Some(ssid);
                shared.store.password = Some(password);
            },
            None => {},
        }
    }
    codec::build_resp_apply_config(Status::Success)
}

/// Report the connection state read from the controller and raise the
/// completion signal.
pub fn handle_get_status(shared: &mut ProvisioningSharedData, connected: bool, ip: &Vec<u8>) -> (r:
    Vec<u8>)
    ensures
        (final(shared)@, r@) == spec_get_status(old(shared)@, connected, ip@),
{
    shared.completed = true;
    codec::build_resp_get_status(connected, ip)
}

/// The config endpoint's callback on the decrypted request bytes: decode,
/// then hand off to the matching handler.  Undecodable bytes are answered
/// with an invalid-proto status; the apply and status requests are returned
/// to the caller, which must perform the controller work and call
/// [`handle_apply_config`] or [`handle_get_status`].
pub fn prov_config_callback(shared: &mut ProvisioningSharedData, inp: &Vec<u8>) -> (r:
    ConfigAction)
    ensures
        (final(shared)@, r@) == spec_config_callback(old(shared)@, inp@),
{
    match codec::read_config_cmd(inp) {
        None => ConfigAction::Reply(codec::build_config_invalid_proto()),
        Some(ConfigCmd::GetStatus) => ConfigAction::NeedStatus,
        Some(ConfigCmd::SetConfig { ssid, passphrase, bssid, channel }) => ConfigAction::Reply(
            handle_set_config(shared, ssid, passphrase, bssid, channel),
        ),
        Some(ConfigCmd::ApplyConfig) => ConfigAction::NeedConnect,
    }
}

} // verus!
