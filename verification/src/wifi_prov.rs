//! The provisioning manager and the shared session state the scan and
//! config endpoint handlers work on.
//!
//! The manager owns the dispatch layer and one [`ProvisioningSharedData`];
//! exclusive access to it models the lock under which the endpoint
//! handlers share it.  Blocking collaborator work — the radio scan, the connection
//! attempt, reading the connection state — is performed by the caller
//! between [`WifiProvMgr::handle_request`] and the matching `finish_*`
//! call; durable storage is mirrored in [`CredentialStore`], which the
//! caller synchronises with its real key-value store.

use vstd::prelude::*;
use vstd::string::StringExecFns;
use vstd::utf8::encode_utf8;

use crate::ep_prov_config::{prov_config_callback, handle_apply_config, handle_get_status,
    spec_apply_config, spec_config_callback, spec_get_status, ConfigAction, ConfigStep};
use crate::ep_prov_scan::{prov_scan_callbak, handle_scan_status, spec_scan_callbak,
    spec_scan_status, ScanAction, ScanStep};
use crate::protocomm::{EndpointType, Protocomm, RequestAction};
use crate::security::ProtocommSecurity;
use crate::wifi::{WifiApInfo, WifiApInfoView, WifiClientConfig, WifiClientConfigView};

verus! {

/// The library's model of the durable credential store: the two values kept
/// under the fixed ssid and passphrase keys of the WiFi namespace.
pub struct CredentialStore {
    pub ssid: Option<String>,
    pub password: Option<String>,
}

/// The mathematical value of a [`CredentialStore`].
pub struct CredentialStoreView {
    pub ssid: Option<Seq<char>>,
    pub password: Option<Seq<char>>,
}

impl View for CredentialStore {
    type V = CredentialStoreView;

    open spec fn view(&self) -> CredentialStoreView {
        CredentialStoreView {
            ssid: match self.ssid {
                Some(ref s) => Some(s@),
                None => None,
            },
            password: match self.password {
                Some(ref s) => Some(s@),
                None => None,
            },
        }
    }
}

/// Shared state of one provisioning session: the cached scan results, the
/// staged candidate credentials, the durable-store model, and the one-shot
/// completion signal.
pub struct ProvisioningSharedData {
    /// Results cached by the last scan-status request; drained by
    /// pagination, so an entry is never served twice.
    pub scan_results: Option<Vec<WifiApInfo>>,
    /// Candidate credentials staged by `SetConfig`, not yet persisted.
    pub candidate: Option<WifiClientConfig>,
    /// The model of durable storage.
    pub store: CredentialStore,
    /// Set once the connection state has been reported; unblocks the
    /// manager's wait.
    pub completed: bool,
}

/// The mathematical value of a [`ProvisioningSharedData`].
pub struct SharedView {
    pub scan_results: Option<Seq<WifiApInfoView>>,
    pub candidate: Option<WifiClientConfigView>,
    pub store: CredentialStoreView,
    pub completed: bool,
}

impl View for ProvisioningSharedData {
    type V = SharedView;

    open spec fn view(&self) -> SharedView {
        SharedView {
            scan_results: match self.scan_results {
                Some(ref v) => Some(v@.map(|i: int, e: WifiApInfo| e@)),
                None => None,
            },
            candidate: match self.candidate {
                Some(ref c) => Some(c@),
                None => None,
            },
            store: self.store@,
            completed: self.completed,
        }
    }
}

impl ProvisioningSharedData {
    /// A fresh session: nothing cached, nothing staged, store empty, signal
    /// not raised.
    pub fn new() -> (r: ProvisioningSharedData)
        ensures
            r@.scan_results is None,
            r@.candidate is None,
            r@.store.ssid is None,
            r@.store.password is None,
            !r@.completed,
    {
        ProvisioningSharedData {
            scan_results: None,
            candidate: None,
            store: CredentialStore { ssid: None, password: None },
            completed: false,
        }
    }
}

/// The outside work the caller still owes after a request was handled.
pub enum MgrStep {
    /// The response is complete; hand these bytes back to the transport.
    Reply(Vec<u8>),
    /// Run the blocking radio scan and call [`WifiProvMgr::finish_wifi_scan`].
    WifiScan,
    /// Attempt the connection and call [`WifiProvMgr::finish_connect`].
    Connect,
    /// Read the connection state and call
    /// [`WifiProvMgr::finish_connection_status`].
    ConnectionStatus,
}

/// The manager's lifecycle stage, as the flags it keeps determine it.
pub enum MgrLifecycle {
    /// Constructed; the provisioning endpoints are not registered yet.
    Idle,
    /// The endpoints are registered but the dispatch layer has not been
    /// started.
    Registered,
    /// The dispatch layer serves requests; the flow has not completed.
    Running,
    /// A status poll reported the connection state; the flow is over.
    Completed,
}

/// Which `finish_*` call the manager is waiting for.
#[derive(Clone, Copy, PartialEq, Eq, Structural, Debug)]
pub enum PendingOp {
    Ready,
    ScanStatus,
    ApplyConfig,
    GetStatus,
}

/// The version information the `proto-ver` endpoint serves: a fixed JSON
/// object naming the protocol version, the security scheme, and the
/// capability flags (`no_pop` without a possession secret, `no_sec` under
/// the open scheme).  It depends on the security configuration alone, so
/// repeated requests are answered with identical bytes.
pub open spec fn version_info_chars(sec_ver: u8, has_pop: bool) -> Seq<char> {
    if sec_ver == 0 && !has_pop {
        "{\"prov\":{\"cap\":[\"wifi_scan\",\"no_pop\",\"no_sec\"],\"sec_ver\":0,\"ver\":\"v1.1\"}}"@
    } else if sec_ver == 0 {
        "{\"prov\":{\"cap\":[\"wifi_scan\",\"no_sec\"],\"sec_ver\":0,\"ver\":\"v1.1\"}}"@
    } else if !has_pop {
        "{\"prov\":{\"cap\":[\"wifi_scan\",\"no_pop\"],\"sec_ver\":1,\"ver\":\"v1.1\"}}"@
    } else {
        "{\"prov\":{\"cap\":[\"wifi_scan\"],\"sec_ver\":1,\"ver\":\"v1.1\"}}"@
    }
}

/// The provisioning manager: the dispatch layer, the shared session state,
/// the security scheme it advertises, and the outside work it is waiting
/// for.
pub struct WifiProvMgr {
    pub sec_ver: u8,
    pub pop: Option<String>,
    pub protocomm: Protocomm,
    pub shared: ProvisioningSharedData,
    pub pending: PendingOp,
}

impl WifiProvMgr {
    /// The dispatch layer is well formed and the advertised scheme is one
    /// of the two that exist.
    pub open spec fn wf(&self) -> bool {
        &&& self.protocomm.wf()
        &&& self.sec_ver <= 1
    }

    /// The lifecycle stage this manager is in: it moves from idle to
    /// registered and running through [`Self::start`], and to completed
    /// when a status poll raises the completion signal.
    pub open spec fn lifecycle(&self) -> MgrLifecycle {
        if self.shared@.completed {
            MgrLifecycle::Completed
        } else if self.protocomm.started {
            MgrLifecycle::Running
        } else if self.protocomm.has_endpoint("prov-config"@) {
            MgrLifecycle::Registered
        } else {
            MgrLifecycle::Idle
        }
    }

    /// No endpoint of the provisioning protocol is registered yet.
    pub open spec fn fresh_registry(&self) -> bool {
        &&& !self.protocomm.has_endpoint("proto-ver"@)
        &&& !self.protocomm.has_endpoint("prov-session"@)
        &&& !self.protocomm.has_endpoint("prov-scan"@)
        &&& !self.protocomm.has_endpoint("prov-config"@)
    }

    /// The security version and possession secret a scheme advertises:
    /// version 0 and no secret for the open scheme, version 1 and its
    /// configured secret for the authenticated one.
    pub fn get_sec_ver_and_pop(sec: &ProtocommSecurity) -> (r: (u8, Option<String>))
        ensures
            r.0 == (if sec is Sec0 { 0u8 } else { 1u8 }),
            match sec {
                ProtocommSecurity::Sec0(_) => r.1 is None,
                ProtocommSecurity::Sec1(s1) => r.1 == s1.pop,
            },
    {
        match sec {
            ProtocommSecurity::Sec0(_) => (0, None),
            ProtocommSecurity::Sec1(s1) => (
                1,
                match &s1.pop {
                    Some(p) => Some(p.clone()),
                    None => None,
                },
            ),
        }
    }

    /// A fresh manager over the chosen security scheme: empty registry,
    /// fresh shared state, no outside work pending.
    pub fn new(sec: ProtocommSecurity) -> (r: WifiProvMgr)
        ensures
            r.wf(),
            r.fresh_registry(),
            r.pending == PendingOp::Ready,
            r.sec_ver == (if sec is Sec0 { 0u8 } else { 1u8 }),
            match sec {
                ProtocommSecurity::Sec0(_) => r.pop is None,
                ProtocommSecurity::Sec1(s1) => r.pop == s1.pop,
            },
            r.protocomm.sec.sec == sec,
            r.protocomm.sec.state is Idle,
            !r.protocomm.started,
            r.shared@.scan_results is None,
            r.shared@.candidate is None,
            r.shared@.store.ssid is None,
            r.shared@.store.password is None,
            !r.shared@.completed,
    {
        let (sec_ver, pop) = Self::get_sec_ver_and_pop(&sec);
        WifiProvMgr {
            sec_ver,
            pop,
            protocomm: Protocomm::new(sec),
            shared: ProvisioningSharedData::new(),
            pending: PendingOp::Ready,
        }
    }

    /// The version information this manager advertises, a function of the
    /// security configuration alone.
    pub fn get_version_info(&self) -> (r: String)
        requires
            self.wf(),
        ensures
            r@ == version_info_chars(self.sec_ver, self.pop is Some),
    {
        if self.sec_ver == 0 {
            if self.pop.is_none() {
                String::from_str(
                    "{\"prov\":{\"cap\":[\"wifi_scan\",\"no_pop\",\"no_sec\"],\"sec_ver\":0,\"ver\":\"v1.1\"}}",
                )
            } else {
                String::from_str(
                    "{\"prov\":{\"cap\":[\"wifi_scan\",\"no_sec\"],\"sec_ver\":0,\"ver\":\"v1.1\"}}",
                )
            }
        } else {
            if self.pop.is_none() {
                String::from_str(
                    "{\"prov\":{\"cap\":[\"wifi_scan\",\"no_pop\"],\"sec_ver\":1,\"ver\":\"v1.1\"}}",
                )
            } else {
                String::from_str(
                    "{\"prov\":{\"cap\":[\"wifi_scan\"],\"sec_ver\":1,\"ver\":\"v1.1\"}}",
                )
            }
        }
    }

    /// Register a protected application endpoint under `ep_name`.
    pub fn add_endpoint(&mut self, ep_name: &str) -> (ok: bool)
        requires
            old(self).wf(),
        ensures
            final(self).wf(),
            final(self).protocomm.register_ensures(
                old(self).protocomm,
                ep_name@,
                EndpointType::Other,
                Seq::empty(),
                ok,
            ),
            final(self).shared == old(self).shared,
            final(self).pending == old(self).pending,
            final(self).sec_ver == old(self).sec_ver,
            final(self).pop == old(self).pop,
    {
        self.protocomm.register_endpoint(ep_name)
    }

    /// Register the four provisioning endpoints and start the dispatch
    /// layer.  On a fresh registry all four registrations succeed:
    /// `proto-ver` serves the version information, `prov-session` the
    /// handshake, and `prov-scan` / `prov-config` the protected handlers.
    /// The transport collaborator and the radio are started by the caller.
    pub fn start(&mut self) -> (ok: bool)
        requires
            old(self).wf(),
        ensures
            final(self).wf(),
            final(self).protocomm.started,
            final(self).shared == old(self).shared,
            final(self).pending == old(self).pending,
            final(self).sec_ver == old(self).sec_ver,
            final(self).pop == old(self).pop,
            final(self).protocomm.sec == old(self).protocomm.sec,
            old(self).fresh_registry() ==> ok,
            ok ==> {
                &&& final(self).protocomm.has_endpoint("proto-ver"@)
                &&& final(self).protocomm.type_of("proto-ver"@) == EndpointType::Version
                &&& final(self).protocomm.endpoints@[final(self).protocomm.index_of(
                    "proto-ver"@,
                )].version_info@ == encode_utf8(
                    version_info_chars(old(self).sec_ver, old(self).pop is Some),
                )
                &&& final(self).protocomm.has_endpoint("prov-session"@)
                &&& final(self).protocomm.type_of("prov-session"@) == EndpointType::Security
                &&& final(self).protocomm.has_endpoint("prov-scan"@)
                &&& final(self).protocomm.type_of("prov-scan"@) == EndpointType::Other
                &&& final(self).protocomm.has_endpoint("prov-config"@)
                &&& final(self).protocomm.type_of("prov-config"@) == EndpointType::Other
            },
    {
        proof {
            broadcast use vstd::string::group_string_axioms;

            reveal_strlit("proto-ver");
            reveal_strlit("prov-session");
            reveal_strlit("prov-scan");
            reveal_strlit("prov-config");
            assert("proto-ver"@.len() == 9);
            assert("prov-session"@.len() == 12);
            assert("prov-scan"@.len() == 9);
            assert("prov-config"@.len() == 11);
            assert("proto-ver"@[2] == 'o');
            assert("prov-scan"@[2] == 'o');
            assert("proto-ver"@[3] == 't');
            assert("prov-scan"@[3] == 'v');
        }
        let version_info = self.get_version_info();
        let ghost m0 = self.protocomm;
        let ok1 = self.protocomm.set_version_info("proto-ver", version_info);
        let ghost m1 = self.protocomm;
        let ok2 = self.protocomm.set_security_endpoint("prov-session");
        let ghost m2 = self.protocomm;
        let ok3 = self.protocomm.register_endpoint("prov-scan");
        let ghost m3 = self.protocomm;
        let ok4 = self.protocomm.register_endpoint("prov-config");
        let ghost m4 = self.protocomm;
        let ok = ok1 && ok2 && ok3 && ok4;
        proof {
            let vi = encode_utf8(version_info_chars(old(self).sec_ver, old(self).pop is Some));
            if old(self).fresh_registry() {
                assert(ok1);
                Protocomm::lemma_register_lookup(m0, m1, "proto-ver"@, EndpointType::Version, vi);
                assert(ok2);
                Protocomm::lemma_register_lookup(
                    m1,
                    m2,
                    "prov-session"@,
                    EndpointType::Security,
                    Seq::empty(),
                );
                assert(ok3);
                Protocomm::lemma_register_lookup(
                    m2,
                    m3,
                    "prov-scan"@,
                    EndpointType::Other,
                    Seq::empty(),
                );
                assert(ok4);
            }
            if ok {
                Protocomm::lemma_register_lookup(m0, m1, "proto-ver"@, EndpointType::Version, vi);
                Protocomm::lemma_register_lookup(
                    m1,
                    m2,
                    "prov-session"@,
                    EndpointType::Security,
                    Seq::empty(),
                );
                Protocomm::lemma_register_lookup(
                    m2,
                    m3,
                    "prov-scan"@,
                    EndpointType::Other,
                    Seq::empty(),
                );
                Protocomm::lemma_register_lookup(
                    m3,
                    m4,
                    "prov-config"@,
                    EndpointType::Other,
                    Seq::empty(),
                );
            }
        }
        self.protocomm.start();
        ok
    }

    /// Whether credentials were already provisioned: the stored ssid and
    /// passphrase when both are present, nothing otherwise.  A pure query,
    /// callable at any point of the lifecycle.
    pub fn is_provisioned(&self) -> (r: Option<(String, String)>)
        ensures
            match r {
                Some(p) => self.shared@.store.ssid == Some(p.0@) && self.shared@.store.password
                    == Some(p.1@),
                None => self.shared@.store.ssid is None || self.shared@.store.password is None,
            },
    {
        match (&self.shared.store.ssid, &self.shared.store.password) {
            (Some(s), Some(p)) => Some((s.clone(), p.clone())),
            _ => None,
        }
    }

    /// Whether the provisioning flow has completed: true exactly once a
    /// status poll reported the connection state.  The caller's blocking
    /// wait returns when this does.
    pub fn wait_for_provisioning(&self) -> (done: bool)
        ensures
            done == self.shared@.completed,
    {
        self.shared.completed
    }

    /// The single request entry point, called by the transport for every
    /// inbound `(endpoint, payload)` pair.  Dispatch applies the security
    /// policy; a protected request that decrypts is handled by the scan or
    /// config handler, and a request needing collaborator work is returned
    /// as the matching [`MgrStep`] with the manager waiting for the
    /// `finish_*` call.  Before the handshake completes no protected
    /// request ever reaches a handler, and neither the durable store nor
    /// the completion signal changes here.
    pub fn handle_request(&mut self, ep_name: &str, data: Vec<u8>) -> (r: MgrStep)
        requires
            old(self).wf(),
            old(self).pending == PendingOp::Ready,
        ensures
            final(self).wf(),
            final(self).sec_ver == old(self).sec_ver,
            final(self).pop == old(self).pop,
            final(self).protocomm.endpoints == old(self).protocomm.endpoints,
            final(self).protocomm.sec.sec == old(self).protocomm.sec.sec,
            final(self).shared@.store == old(self).shared@.store,
            final(self).shared@.completed == old(self).shared@.completed,
            !(r is WifiScan) && !(r is Connect) && !(r is ConnectionStatus) ==> final(self).pending
                == PendingOp::Ready,
            !old(self).protocomm.has_endpoint(ep_name@) ==> *final(self) == *old(self) && (r
                matches MgrStep::Reply(b) && b@ == Seq::<u8>::empty()),
            (old(self).protocomm.has_endpoint(ep_name@) && old(self).protocomm.type_of(ep_name@)
                == EndpointType::Version) ==> *final(self) == *old(self) && (r matches
                MgrStep::Reply(b) && b@ == old(self).protocomm.endpoints@[old(self).protocomm.index_of(ep_name@)].version_info@),
            (old(self).protocomm.has_endpoint(ep_name@) && old(self).protocomm.type_of(ep_name@)
                == EndpointType::Security) ==> final(self).shared == old(self).shared && final(self).pending == PendingOp::Ready && r is Reply,
            (old(self).protocomm.has_endpoint(ep_name@) && old(self).protocomm.type_of(ep_name@)
                == EndpointType::Other && !old(self).protocomm.sec.is_established()) ==> *final(self) == *old(self) && (r matches MgrStep::Reply(b) && b@ == Seq::<u8>::empty()),
            (old(self).protocomm.has_endpoint(ep_name@) && old(self).protocomm.type_of(ep_name@)
                == EndpointType::Other && old(self).protocomm.sec.is_established() && ep_name@
                == "prov-scan"@) ==> ({
                let pt = old(self).protocomm.sec.transform_view(data@);
                let (post, step) = spec_scan_callbak(old(self).shared@, pt);
                &&& final(self).shared@ == post
                &&& final(self).protocomm.sec == old(self).protocomm.sec
                &&& match step {
                    ScanStep::Reply(p) => final(self).pending == PendingOp::Ready && (r matches
                        MgrStep::Reply(b) && b@ == old(self).protocomm.sec.transform_view(p)),
                    ScanStep::NeedScan => final(self).pending == PendingOp::ScanStatus && r
                        is WifiScan,
                }
            }),
            (old(self).protocomm.has_endpoint(ep_name@) && old(self).protocomm.type_of(ep_name@)
                == EndpointType::Other && old(self).protocomm.sec.is_established() && ep_name@
                == "prov-config"@) ==> ({
                let pt = old(self).protocomm.sec.transform_view(data@);
                let (post, step) = spec_config_callback(old(self).shared@, pt);
                &&& final(self).shared@ == post
                &&& final(self).protocomm.sec == old(self).protocomm.sec
                &&& match step {
                    ConfigStep::Reply(p) => final(self).pending == PendingOp::Ready && (r matches
                        MgrStep::Reply(b) && b@ == old(self).protocomm.sec.transform_view(p)),
                    ConfigStep::NeedConnect => final(self).pending == PendingOp::ApplyConfig && r
                        is Connect,
                    ConfigStep::NeedStatus => final(self).pending == PendingOp::GetStatus && r
                        is ConnectionStatus,
                }
            }),
            r is WifiScan || r is Connect || r is ConnectionStatus ==> old(self).protocomm.sec.is_established() && final(self).protocomm.sec == old(self).protocomm.sec,
    {
        proof {
            broadcast use vstd::string::group_string_axioms;

            reveal_strlit("prov-scan");
            reveal_strlit("prov-config");
            assert("prov-scan"@.len() == 9);
            assert("prov-config"@.len() == 11);
        }
        let action = self.protocomm.dispatch(ep_name, data);
        match action {
            RequestAction::Reply(b) => MgrStep::Reply(b),
            RequestAction::Invoke { plaintext } => {
                if crate::protocomm::str_eq(ep_name, "prov-scan") {
                    match prov_scan_callbak(&mut self.shared, &plaintext) {
                        ScanAction::Reply(p) => MgrStep::Reply(self.protocomm.seal_response(p)),
                        ScanAction::NeedScan => {
                            self.pending = PendingOp::ScanStatus;
                            MgrStep::WifiScan
                        },
                    }
                } else if crate::protocomm::str_eq(ep_name, "prov-config") {
                    match prov_config_callback(&mut self.shared, &plaintext) {
                        ConfigAction::Reply(p) => MgrStep::Reply(self.protocomm.seal_response(p)),
                        ConfigAction::NeedConnect => {
                            self.pending = PendingOp::ApplyConfig;
                            MgrStep::Connect
                        },
                        ConfigAction::NeedStatus => {
                            self.pending = PendingOp::GetStatus;
                            MgrStep::ConnectionStatus
                        },
                    }
                } else {
                    MgrStep::Reply(self.protocomm.seal_response(Vec::new()))
                }
            },
        }
    }

    /// Complete a scan-status request with the results the blocking radio
    /// scan delivered: cache them and return the sealed response.
    pub fn finish_wifi_scan(&mut self, networks: Vec<WifiApInfo>) -> (r: Vec<u8>)
        requires
            old(self).wf(),
            old(self).pending == PendingOp::ScanStatus,
            old(self).protocomm.sec.is_established(),
            networks@.len() <= 0xffffffff,
        ensures
            final(self).wf(),
            final(self).pending == PendingOp::Ready,
            final(self).protocomm == old(self).protocomm,
            ({
                let (post, plain) = spec_scan_status(
                    old(self).shared@,
                    networks@.map(|i: int, e: WifiApInfo| e@),
                );
                final(self).shared@ == post && r@ == old(self).protocomm.sec.transform_view(plain)
            }),
    {
        let plain = handle_scan_status(&mut self.shared, networks);
        self.pending = PendingOp::Ready;
        self.protocomm.seal_response(plain)
    }

    /// Complete an apply-config request with the connection attempt's
    /// outcome: persist the staged credentials exactly on success and
    /// return the sealed response.
    pub fn finish_connect(&mut self, connect_ok: bool) -> (r: Vec<u8>)
        requires
            old(self).wf(),
            old(self).pending == PendingOp::ApplyConfig,
            old(self).protocomm.sec.is_established(),
        ensures
            final(self).wf(),
            final(self).pending == PendingOp::Ready,
            final(self).protocomm == old(self).protocomm,
            ({
                let (post, plain) = spec_apply_config(old(self).shared@, connect_ok);
                final(self).shared@ == post && r@ == old(self).protocomm.sec.transform_view(plain)
            }),
    {
        let plain = handle_apply_config(&mut self.shared, connect_ok);
        self.pending = PendingOp::Ready;
        self.protocomm.seal_response(plain)
    }

    /// Complete a get-status request with the state read from the
    /// controller: raise the completion signal and return the sealed
    /// response.
    pub fn finish_connection_status(&mut self, connected: bool, ip: &Vec<u8>) -> (r: Vec<u8>)
        requires
            old(self).wf(),
            old(self).pending == PendingOp::GetStatus,
            old(self).protocomm.sec.is_established(),
        ensures
            final(self).wf(),
            final(self).pending == PendingOp::Ready,
            final(self).protocomm == old(self).protocomm,
            ({
                let (post, plain) = spec_get_status(old(self).shared@, connected, ip@);
                final(self).shared@ == post && r@ == old(self).protocomm.sec.transform_view(plain)
            }),
    {
        let plain = handle_get_status(&mut self.shared, connected, ip);
        self.pending = PendingOp::Ready;
        self.protocomm.seal_response(plain)
    }
}

} // verus!
