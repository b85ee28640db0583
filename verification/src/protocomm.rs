//! Endpoint registry and the dispatch policy around it.
//!
//! A `Protocomm` owns the security session and a registry of named endpoints,
//! each classified once at registration.  Dispatch applies the classification
//! to every inbound message: version-info endpoints answer directly, the
//! security endpoint is handled by the session itself, and protected
//! endpoints are decrypted first — or rejected outright while no session is
//! established, in which case no callback is ever reached.
//!
//! The physical transport stays outside the library: it hands each inbound
//! `(endpoint, payload)` pair to [`Protocomm::dispatch`] and sends the
//! returned bytes back.  A callback's work is likewise performed by the
//! caller: dispatch answers with [`RequestAction::Invoke`] carrying the
//! decrypted payload, and the caller seals the callback's plaintext response
//! with [`Protocomm::seal_response`].

use vstd::prelude::*;

use vstd::string::StrSliceExecFns;
use vstd::utf8::encode_utf8;

use crate::security::{bytes_eq, key_of, pop_view, proof_of, server_share_of, HandshakeState,
    ProtocommSecurity, SecuritySession};

verus! {

/// String-slice equality, decided over the UTF-8 bytes.
pub fn str_eq(a: &str, b: &str) -> (r: bool)
    ensures
        r == (a@ == b@),
{
    let av = a.as_bytes_vec();
    let bv = b.as_bytes_vec();
    let r = bytes_eq(&av, &bv);
    proof {
        vstd::utf8::encode_utf8_decode_utf8(a@);
        vstd::utf8::encode_utf8_decode_utf8(b@);
    }
    r
}

/// Security treatment of an endpoint, fixed once at registration.
#[derive(Clone, Copy, PartialEq, Eq, Structural)]
pub enum EndpointType {
    /// Answers with fixed version information; no security applied.
    Version,
    /// The handshake endpoint; the security session itself is authoritative.
    Security,
    /// Any other endpoint: payloads are decrypted on the way in and the
    /// response is encrypted on the way out.
    Other,
}

/// A registered endpoint: its name, its classification, and — for
/// version-info endpoints — the fixed payload it answers with.
pub struct Endpoint {
    pub name: String,
    pub ep_type: EndpointType,
    pub version_info: Vec<u8>,
}

/// What the caller must do with an inbound message after dispatch.
pub enum RequestAction {
    /// The response is complete; hand these bytes back to the transport.
    Reply(Vec<u8>),
    /// The message reached a protected endpoint and decrypted successfully:
    /// run the endpoint's callback on `plaintext`, then seal its response
    /// with [`Protocomm::seal_response`].
    Invoke { plaintext: Vec<u8> },
}

/// The dispatch-and-security layer: the security session and the registry.
pub struct Protocomm {
    pub sec: SecuritySession,
    pub endpoints: Vec<Endpoint>,
    pub started: bool,
}

impl Protocomm {
    /// Registered names, in registration order.
    pub open spec fn names(&self) -> Seq<Seq<char>> {
        self.endpoints@.map(|i: int, e: Endpoint| e.name@)
    }

    /// Whether some endpoint is registered under `name`.
    pub open spec fn has_endpoint(&self, name: Seq<char>) -> bool {
        exists|i: int| 0 <= i < self.endpoints@.len() && self.endpoints@[i].name@ == name
    }

    /// The registry position of the endpoint named `name`.
    pub open spec fn index_of(&self, name: Seq<char>) -> int {
        choose|i: int| 0 <= i < self.endpoints@.len() && self.endpoints@[i].name@ == name
    }

    /// The classification of the endpoint named `name`.
    pub open spec fn type_of(&self, name: Seq<char>) -> EndpointType {
        self.endpoints@[self.index_of(name)].ep_type
    }

    /// Registered names are unique and the session is well formed.
    pub open spec fn wf(&self) -> bool {
        &&& self.sec.wf()
        &&& forall|i: int, j: int|
            0 <= i < j < self.endpoints@.len() ==> self.endpoints@[i].name@
                != self.endpoints@[j].name@
    }

    /// A fresh layer over `security`: empty registry, transport not started.
    pub fn new(security: ProtocommSecurity) -> (r: Protocomm)
        ensures
            r.wf(),
            r.endpoints@.len() == 0,
            r.sec.sec == security,
            r.sec.state is Idle,
            !r.started,
    {
        Protocomm {
            sec: SecuritySession::new(security),
            endpoints: Vec::new(),
            started: false,
        }
    }

    /// Register the version-info endpoint: it answers every request with
    /// the UTF-8 bytes of `version_info`, unencrypted.
    pub fn set_version_info(&mut self, ep_name: &str, version_info: String) -> (ok: bool)
        requires
            old(self).wf(),
        ensures
            final(self).wf(),
            final(self).register_ensures(
                *old(self),
                ep_name@,
                EndpointType::Version,
                encode_utf8(version_info@),
                ok,
            ),
    {
        let bytes = version_info.as_str().as_bytes_vec();
        self.register_endpoint_internal(ep_name, EndpointType::Version, bytes)
    }

    /// Register the security-handshake endpoint under `ep_name`.
    pub fn set_security_endpoint(&mut self, ep_name: &str) -> (ok: bool)
        requires
            old(self).wf(),
        ensures
            final(self).wf(),
            final(self).register_ensures(*old(self), ep_name@, EndpointType::Security, Seq::empty(), ok),
    {
        self.register_endpoint_internal(ep_name, EndpointType::Security, Vec::new())
    }

    /// Register a protected application endpoint under `ep_name`; its
    /// callback stays with the caller and is reached only through
    /// [`RequestAction::Invoke`].
    pub fn register_endpoint(&mut self, ep_name: &str) -> (ok: bool)
        requires
            old(self).wf(),
        ensures
            final(self).wf(),
            final(self).register_ensures(*old(self), ep_name@, EndpointType::Other, Seq::empty(), ok),
    {
        self.register_endpoint_internal(ep_name, EndpointType::Other, Vec::new())
    }

    /// What every registration promises: a fresh name is appended with the
    /// given classification, a duplicate is reported and changes nothing.
    pub open spec fn register_ensures(
        self,
        pre: Protocomm,
        name: Seq<char>,
        ep_type: EndpointType,
        version_info: Seq<u8>,
        ok: bool,
    ) -> bool {
        &&& self.sec == pre.sec
        &&& self.started == pre.started
        &&& ok == !pre.has_endpoint(name)
        &&& !ok ==> self.endpoints == pre.endpoints
        &&& ok ==> {
            &&& self.endpoints@.len() == pre.endpoints@.len() + 1
            &&& self.endpoints@.subrange(0, pre.endpoints@.len() as int) == pre.endpoints@
            &&& self.endpoints@.last().name@ == name
            &&& self.endpoints@.last().ep_type == ep_type
            &&& self.endpoints@.last().version_info@ == version_info
        }
    }

    /// What one successful registration does to every later lookup: the new
    /// name resolves to the new entry, every earlier name still resolves to
    /// its old entry, and nothing else is registered.
    pub proof fn lemma_register_lookup(
        pre: Protocomm,
        post: Protocomm,
        name: Seq<char>,
        ep_type: EndpointType,
        vi: Seq<u8>,
    )
        requires
            pre.wf(),
            post.wf(),
            post.register_ensures(pre, name, ep_type, vi, true),
        ensures
            forall|n: Seq<char>| post.has_endpoint(n) <==> (pre.has_endpoint(n) || n == name),
            post.has_endpoint(name),
            post.type_of(name) == ep_type,
            post.endpoints@[post.index_of(name)].version_info@ == vi,
            forall|n: Seq<char>|
                pre.has_endpoint(n) ==> post.type_of(n) == pre.type_of(n) && post.endpoints@[
                    post.index_of(n)
                ].version_info@ == pre.endpoints@[pre.index_of(n)].version_info@,
    {
        let plen = pre.endpoints@.len() as int;
        assert forall|i: int| 0 <= i < plen implies post.endpoints@[i] == pre.endpoints@[i] by {
            assert(post.endpoints@.subrange(0, plen)[i] == post.endpoints@[i]);
        }
        assert forall|n: Seq<char>| post.has_endpoint(n) implies (pre.has_endpoint(n) || n
            == name) by {
            let i = choose|i: int|
                0 <= i < post.endpoints@.len() && post.endpoints@[i].name@ == n;
            if i < plen {
                assert(pre.endpoints@[i].name@ == n);
            }
        }
        assert forall|n: Seq<char>| pre.has_endpoint(n) implies post.has_endpoint(n) by {
            let i = choose|i: int| 0 <= i < plen && pre.endpoints@[i].name@ == n;
            assert(post.endpoints@[i].name@ == n);
        }
        assert(post.endpoints@[plen].name@ == name);
        assert(post.has_endpoint(name));
        let j = post.index_of(name);
        if j < plen {
            assert(pre.endpoints@[j].name@ == name);
            assert(pre.has_endpoint(name));
        }
        assert(j == plen);
        assert forall|n: Seq<char>| pre.has_endpoint(n) implies post.type_of(n) == pre.type_of(n)
            && post.endpoints@[post.index_of(n)].version_info@ == pre.endpoints@[pre.index_of(
            n,
        )].version_info@ by {
            let a = pre.index_of(n);
            assert(0 <= a < plen && pre.endpoints@[a].name@ == n);
            let b = post.index_of(n);
            assert(post.endpoints@[a].name@ == n);
            assert(0 <= b < post.endpoints@.len() && post.endpoints@[b].name@ == n);
            if b == plen {
                assert(pre.has_endpoint(name));
            }
            assert(b < plen);
            if a != b {
                assert(pre.endpoints@[a].name@ == pre.endpoints@[b].name@);
            }
            assert(a == b);
        }
    }

    /// Shared body of the three registration entry points.  Re-registration
    /// under an existing name is reported, not fatal, and leaves the
    /// registry unchanged.
    fn register_endpoint_internal(
        &mut self,
        ep_name: &str,
        ep_type: EndpointType,
        version_info: Vec<u8>,
    ) -> (ok: bool)
        requires
            old(self).wf(),
        ensures
            final(self).wf(),
            final(self).register_ensures(*old(self), ep_name@, ep_type, version_info@, ok),
    {
        if self.find_endpoint(ep_name).is_some() {
            return false;
        }
        let name = String::from_str(ep_name);
        self.endpoints.push(Endpoint { name, ep_type, version_info });
        proof {
            assert(self.endpoints@.subrange(0, old(self).endpoints@.len() as int) =~= old(self).endpoints@);
        }
        true
    }

    /// Look the endpoint named `ep_name` up in the registry.
    fn find_endpoint(&self, ep_name: &str) -> (r: Option<usize>)
        ensures
            match r {
                Some(i) => i < self.endpoints@.len() && self.endpoints@[i as int].name@ == ep_name@,
                None => !self.has_endpoint(ep_name@),
            },
    {
        let n = self.endpoints.len();
        for i in 0..n
            invariant
                n == self.endpoints@.len(),
                forall|j: int| 0 <= j < i ==> self.endpoints@[j].name@ != ep_name@,
        {
            if str_eq(self.endpoints[i].name.as_str(), ep_name) {
                return Some(i);
            }
        }
        None
    }

    /// Mark the layer started: from here on the transport collaborator
    /// delivers inbound messages to [`Self::dispatch`].
    pub fn start(&mut self)
        requires
            old(self).wf(),
        ensures
            final(self).wf(),
            final(self).started,
            final(self).sec == old(self).sec,
            final(self).endpoints == old(self).endpoints,
    {
        self.started = true;
    }

    /// The single request-handling entry point.  Classification decides the
    /// treatment of `data`:
    /// - unknown endpoints are answered with an empty payload and touch
    ///   nothing;
    /// - a version-info endpoint replies with its fixed payload;
    /// - the security endpoint hands `data` to the session's handshake;
    /// - a protected endpoint decrypts `data` and asks the caller to invoke
    ///   the registered callback on the plaintext — unless no session is
    ///   established, in which case the request is rejected with an empty
    ///   reply before any callback and before any plaintext exists
    ///   (fail-closed).
    pub fn dispatch(&mut self, ep_name: &str, data: Vec<u8>) -> (r: RequestAction)
        requires
            old(self).wf(),
        ensures
            final(self).wf(),
            final(self).endpoints == old(self).endpoints,
            final(self).started == old(self).started,
            final(self).sec.sec == old(self).sec.sec,
            !old(self).has_endpoint(ep_name@) ==> *final(self) == *old(self) && (r matches
                RequestAction::Reply(b) && b@ == Seq::<u8>::empty()),
            old(self).has_endpoint(ep_name@) ==> match old(self).type_of(ep_name@) {
                EndpointType::Version => *final(self) == *old(self) && (r matches
                    RequestAction::Reply(b) && b@ == old(self).endpoints@[old(self).index_of(
                    ep_name@,
                )].version_info@),
                EndpointType::Security => (r matches RequestAction::Reply(b) && {
                    &&& old(self).sec.sec is Sec0 ==> final(self).sec.state == old(self).sec.state
                        && b@ == Seq::<u8>::empty()
                    &&& (old(self).sec.sec is Sec1 && !(old(self).sec.state is Started)) ==> b@
                        == server_share_of(data@, pop_view(&old(self).sec.sec)) && (final(self).sec.state matches HandshakeState::Started { client_share, server_share }
                        && client_share@ == data@ && server_share@ == server_share_of(
                        data@,
                        pop_view(&old(self).sec.sec),
                    ))
                    &&& (old(self).sec.state matches HandshakeState::Started {
                        client_share,
                        server_share,
                    } && data@ == proof_of(
                        client_share@,
                        server_share@,
                        pop_view(&old(self).sec.sec),
                    )) ==> b@ == seq![1u8] && (final(self).sec.state matches
                        HandshakeState::Established { key } && key@ == key_of(
                        old(self).sec.state->Started_client_share@,
                        old(self).sec.state->Started_server_share@,
                        pop_view(&old(self).sec.sec),
                    ))
                    &&& (old(self).sec.state matches HandshakeState::Started {
                        client_share,
                        server_share,
                    } && data@ != proof_of(
                        client_share@,
                        server_share@,
                        pop_view(&old(self).sec.sec),
                    )) ==> b@ == seq![0u8] && final(self).sec.state is Idle
                }),
                EndpointType::Other => {
                    if old(self).sec.is_established() {
                        &&& *final(self) == *old(self)
                        &&& (r matches RequestAction::Invoke { plaintext } && plaintext@ == old(self).sec.transform_view(data@))
                    } else {
                        // Fail closed: no callback is invoked, no plaintext
                        // leaves this function, the session does not change.
                        &&& *final(self) == *old(self)
                        &&& (r matches RequestAction::Reply(b) && b@ == Seq::<u8>::empty())
                    }
                },
            },
    {
        let found = self.find_endpoint(ep_name);
        match found {
            None => RequestAction::Reply(Vec::new()),
            Some(i) => {
                let ep_type = self.endpoints[i].ep_type;
                match ep_type {
                    EndpointType::Version => {
                        let mut out: Vec<u8> = Vec::new();
                        out.extend_from_slice(self.endpoints[i].version_info.as_slice());
                        proof {
                            assert(out@ =~= self.endpoints@[i as int].version_info@);
                        }
                        RequestAction::Reply(out)
                    },
                    EndpointType::Security => RequestAction::Reply(
                        self.sec.security_handler(ep_name, data),
                    ),
                    EndpointType::Other => {
                        let mut plaintext = data;
                        if self.sec.decrypt(&mut plaintext) {
                            RequestAction::Invoke { plaintext }
                        } else {
                            RequestAction::Reply(Vec::new())
                        }
                    },
                }
            },
        }
    }

    /// Encrypt a protected endpoint's plaintext response for the transport.
    pub fn seal_response(&self, plaintext: Vec<u8>) -> (r: Vec<u8>)
        requires
            self.wf(),
            self.sec.is_established(),
        ensures
            r@ == self.sec.transform_view(plaintext@),
    {
        let mut out = plaintext;
        let ok = self.sec.encrypt(&mut out);
        out
    }
}

} // verus!
