//! Session security: an open variant and an authenticated variant.
//!
//! The open variant applies no transform and needs no handshake.  The
//! authenticated variant drives a two-round handshake (client announces its
//! share, then proves possession of the shared secret) and, once established,
//! applies a symmetric stream transform keyed by the derived session key.
//! The transform is its own inverse, so the round-trip law holds in both
//! directions.

use vstd::prelude::*;

verus! {

/// UTF-8 bytes of an owned string, as vstd models them for `str`.
pub open spec fn string_bytes(s: &String) -> Seq<u8> {
    vstd::utf8::encode_utf8(s@)
}

/// Length, in bytes, of a derived session key.
pub const SESSION_KEY_LEN: usize = 32;

/// Configuration of the open (unauthenticated) security variant.
pub struct Sec0;

/// Configuration of the authenticated security variant: an optional
/// proof-of-possession secret the client must demonstrate during the
/// handshake.
pub struct Sec1 {
    pub pop: Option<String>,
}

/// The security variant chosen at construction; immutable afterwards.
pub enum ProtocommSecurity {
    Sec0(Sec0),
    Sec1(Sec1),
}

/// Handshake progress of an authenticated session.
pub enum HandshakeState {
    /// No handshake round has been accepted yet.
    Idle,
    /// The client announced its share and the session answered with its own;
    /// the possession proof is still outstanding.
    Started { client_share: Vec<u8>, server_share: Vec<u8> },
    /// The handshake completed and `key` is the derived session key.
    Established { key: Vec<u8> },
}

/// A security session: the chosen variant plus the handshake state it has
/// reached.  Mutating operations take exclusive access, which models the
/// mutual exclusion the dispatch layer guarantees per session.
pub struct SecuritySession {
    pub sec: ProtocommSecurity,
    pub state: HandshakeState,
}

/// Bytes of the proof-of-possession secret of an authenticated variant;
/// the empty sequence when no secret is configured or the variant is open.
pub open spec fn pop_view(sec: &ProtocommSecurity) -> Seq<u8> {
    match sec {
        ProtocommSecurity::Sec0(_) => Seq::empty(),
        ProtocommSecurity::Sec1(s1) => match s1.pop {
            Some(ref p) => string_bytes(p),
            None => Seq::empty(),
        },
    }
}

/// One byte of keyed material: mixes one byte of the peer share with the
/// secret, byte-rotated by the position.
pub open spec fn mix_byte(share: Seq<u8>, secret: Seq<u8>, i: int) -> u8 {
    let a: u8 = if share.len() > 0 { share[i % (share.len() as int)] } else { 0x5au8 };
    let b: u8 = if secret.len() > 0 { secret[i % (secret.len() as int)] } else { 0xa5u8 };
    (a ^ b ^ ((i % 251) as u8)) as u8
}

/// The share this session answers a client announcement with: a fixed-width
/// digest of the client share mixed with the possession secret.
pub open spec fn server_share_of(client: Seq<u8>, secret: Seq<u8>) -> Seq<u8> {
    Seq::new(SESSION_KEY_LEN as nat, |i: int| mix_byte(client, secret, i))
}

/// The possession proof the client must present in the second round.
pub open spec fn proof_of(client: Seq<u8>, server: Seq<u8>, secret: Seq<u8>) -> Seq<u8> {
    Seq::new(
        SESSION_KEY_LEN as nat,
        |i: int| (mix_byte(client, secret, i) ^ mix_byte(server, secret, i)) as u8,
    )
}

/// The session key derived on handshake completion.
pub open spec fn key_of(client: Seq<u8>, server: Seq<u8>, secret: Seq<u8>) -> Seq<u8> {
    Seq::new(
        SESSION_KEY_LEN as nat,
        |i: int| (mix_byte(client, secret, i) ^ mix_byte(secret, server, i)) as u8,
    )
}

/// The symmetric stream transform: byte-wise exclusive-or against the key
/// stream obtained by repeating `key`.  Applying it twice with the same key
/// gives the input back.
pub open spec fn xor_stream(data: Seq<u8>, key: Seq<u8>) -> Seq<u8>
    recommends
        key.len() > 0,
{
    Seq::new(data.len(), |i: int| (data[i] ^ key[i % (key.len() as int)]) as u8)
}

/// Round-trip law of the stream transform: with any non-empty key, applying
/// the transform twice returns every byte sequence unchanged.  Since the
/// session's encrypt and decrypt are both this transform under the session
/// key, `decrypt(encrypt(b)) == b` and `encrypt(decrypt(b)) == b`.
pub proof fn lemma_xor_stream_round_trip(data: Seq<u8>, key: Seq<u8>)
    requires
        key.len() > 0,
    ensures
        xor_stream(xor_stream(data, key), key) =~= data,
{
    let once = xor_stream(data, key);
    let twice = xor_stream(once, key);
    assert forall|i: int| 0 <= i < data.len() implies twice[i] == data[i] by {
        let k = key[i % (key.len() as int)];
        let d = data[i];
        assert((d ^ k) ^ k == d) by (bit_vector);
    }
}

/// Round-trip law of an established session: decrypting what was encrypted
/// (and encrypting what was decrypted) returns every byte sequence
/// unchanged, under the open variant as well as the authenticated one.
pub proof fn lemma_session_round_trip(s: SecuritySession, b: Seq<u8>)
    requires
        s.wf(),
        s.is_established(),
    ensures
        s.transform_view(s.transform_view(b)) == b,
{
    match s.sec {
        ProtocommSecurity::Sec0(_) => {},
        ProtocommSecurity::Sec1(_) => {
            lemma_xor_stream_round_trip(b, s.key_view());
        },
    }
}

impl SecuritySession {
    /// A session key is always exactly `SESSION_KEY_LEN` bytes, and only the
    /// authenticated variant ever leaves the idle state.
    pub open spec fn wf(&self) -> bool {
        match self.state {
            HandshakeState::Idle => true,
            HandshakeState::Started { client_share, server_share } => {
                &&& self.sec is Sec1
                &&& server_share@ == server_share_of(client_share@, pop_view(&self.sec))
            },
            HandshakeState::Established { key } => {
                &&& self.sec is Sec1
                &&& key@.len() == SESSION_KEY_LEN
            },
        }
    }

    /// Whether protected traffic may flow: always under the open variant,
    /// only after a completed handshake under the authenticated one.
    pub open spec fn is_established(&self) -> bool {
        match self.sec {
            ProtocommSecurity::Sec0(_) => true,
            ProtocommSecurity::Sec1(_) => self.state is Established,
        }
    }

    /// The key stream a transform of this session uses.
    pub open spec fn key_view(&self) -> Seq<u8> {
        match self.state {
            HandshakeState::Established { key } => key@,
            _ => Seq::empty(),
        }
    }

    /// What decrypting (equally: encrypting) `data` yields on an established
    /// session: the identity under the open variant, the stream transform
    /// under the authenticated one.
    pub open spec fn transform_view(&self, data: Seq<u8>) -> Seq<u8> {
        match self.sec {
            ProtocommSecurity::Sec0(_) => data,
            ProtocommSecurity::Sec1(_) => xor_stream(data, self.key_view()),
        }
    }

    /// Construction is pure data capture: the variant is stored and the
    /// handshake has not begun.
    pub fn new(sec: ProtocommSecurity) -> (r: SecuritySession)
        ensures
            r.wf(),
            r.state is Idle,
            r.sec == sec,
    {
        SecuritySession { sec, state: HandshakeState::Idle }
    }

    /// Executable query for [`Self::is_established`].
    pub fn established(&self) -> (r: bool)
        ensures
            r == self.is_established(),
    {
        match &self.sec {
            ProtocommSecurity::Sec0(_) => true,
            ProtocommSecurity::Sec1(_) => matches!(self.state, HandshakeState::Established { .. }),
        }
    }

    /// The possession secret's bytes, as [`pop_view`] gives them.
    fn pop_bytes(&self) -> (r: Vec<u8>)
        ensures
            r@ == pop_view(&self.sec),
    {
        match &self.sec {
            ProtocommSecurity::Sec0(_) => Vec::new(),
            ProtocommSecurity::Sec1(s1) => match &s1.pop {
                Some(p) => p.as_str().as_bytes_vec(),
                None => Vec::new(),
            },
        }
    }

    /// Handshake driver for the session endpoint.  Under the open variant it
    /// acknowledges with an empty payload and changes nothing.  Under the
    /// authenticated variant each call advances one round: an announcement is
    /// answered with this side's share, a correct possession proof completes
    /// the handshake and derives the session key, a wrong proof resets the
    /// session, and an announcement on an established session starts a fresh
    /// handshake (discarding the old key).
    pub fn security_handler(&mut self, _ep_name: &str, data: Vec<u8>) -> (r: Vec<u8>)
        requires
            old(self).wf(),
        ensures
            final(self).wf(),
            final(self).sec == old(self).sec,
            old(self).sec is Sec0 ==> final(self).state == old(self).state && r@ == Seq::<
                u8,
            >::empty(),
            old(self).sec is Sec1 && !(old(self).state is Started) ==> {
                &&& (final(self).state matches HandshakeState::Started {
                    client_share,
                    server_share,
                } && client_share@ == data@ && server_share@ == server_share_of(
                    data@,
                    pop_view(&old(self).sec),
                ))
                &&& r@ == server_share_of(data@, pop_view(&old(self).sec))
            },
            (old(self).state matches HandshakeState::Started { client_share, server_share }
                && data@ == proof_of(
                client_share@,
                server_share@,
                pop_view(&old(self).sec),
            )) ==> {
                &&& (final(self).state matches HandshakeState::Established { key } && key@
                    == key_of(
                    old(self).state->Started_client_share@,
                    old(self).state->Started_server_share@,
                    pop_view(&old(self).sec),
                ))
                &&& r@ == seq![1u8]
            },
            (old(self).state matches HandshakeState::Started { client_share, server_share }
                && data@ != proof_of(
                client_share@,
                server_share@,
                pop_view(&old(self).sec),
            )) ==> final(self).state is Idle && r@ == seq![0u8],
    {
        match &self.sec {
            ProtocommSecurity::Sec0(_) => Vec::new(),
            ProtocommSecurity::Sec1(_) => {
                let secret = self.pop_bytes();
                match &self.state {
                    HandshakeState::Started { client_share, server_share } => {
                        let expected = proof_vec(client_share, server_share, &secret);
                        if bytes_eq(&expected, &data) {
                            let key = key_vec(client_share, server_share, &secret);
                            self.state = HandshakeState::Established { key };
                            let mut r: Vec<u8> = Vec::new();
                            r.push(1u8);
                            assert(r@ =~= seq![1u8]);
                            r
                        } else {
                            self.state = HandshakeState::Idle;
                            let mut r: Vec<u8> = Vec::new();
                            r.push(0u8);
                            assert(r@ =~= seq![0u8]);
                            r
                        }
                    },
                    _ => {
                        let server_share = share_vec(&data, &secret);
                        let reply = share_vec(&data, &secret);
                        self.state = HandshakeState::Started { client_share: data, server_share };
                        reply
                    },
                }
            },
        }
    }

    /// Decrypt an inbound protected payload in place.  Fails closed: before
    /// the authenticated handshake completes nothing is transformed and the
    /// payload must not be handed to any callback.
    pub fn decrypt(&self, data: &mut Vec<u8>) -> (ok: bool)
        requires
            self.wf(),
        ensures
            ok == self.is_established(),
            ok ==> final(data)@ == self.transform_view(old(data)@),
            !ok ==> final(data)@ == old(data)@,
    {
        self.transform(data)
    }

    /// Encrypt an outbound protected payload in place; the exact inverse of
    /// [`Self::decrypt`] (the stream transform is its own inverse).
    pub fn encrypt(&self, data: &mut Vec<u8>) -> (ok: bool)
        requires
            self.wf(),
        ensures
            ok == self.is_established(),
            ok ==> final(data)@ == self.transform_view(old(data)@),
            !ok ==> final(data)@ == old(data)@,
    {
        self.transform(data)
    }

    /// The shared body of encrypt and decrypt.
    fn transform(&self, data: &mut Vec<u8>) -> (ok: bool)
        requires
            self.wf(),
        ensures
            ok == self.is_established(),
            ok ==> final(data)@ == self.transform_view(old(data)@),
            !ok ==> final(data)@ == old(data)@,
    {
        match &self.sec {
            ProtocommSecurity::Sec0(_) => true,
            ProtocommSecurity::Sec1(_) => match &self.state {
                HandshakeState::Established { key } => {
                    let mut out: Vec<u8> = Vec::new();
                    let n = data.len();
                    for i in 0..n
                        invariant
                            out@ =~= xor_stream(data@, key@).take(i as int),
                            n == data@.len(),
                            key@.len() == SESSION_KEY_LEN,
                    {
                        let b = data[i] ^ key[i % key.len()];
                        out.push(b);
                    }
                    assert(out@ =~= xor_stream(data@, key@));
                    *data = out;
                    true
                },
                _ => false,
            },
        }
    }
}

/// Apply the stream transform with an explicit key: what a companion
/// client runs to encrypt its requests and decrypt the responses of an
/// established session.
pub fn xor_apply(data: &Vec<u8>, key: &Vec<u8>) -> (r: Vec<u8>)
    requires
        key@.len() > 0,
    ensures
        r@ == xor_stream(data@, key@),
{
    let mut out: Vec<u8> = Vec::new();
    let n = data.len();
    for i in 0..n
        invariant
            out@ =~= xor_stream(data@, key@).take(i as int),
            n == data@.len(),
            key@.len() > 0,
    {
        out.push(data[i] ^ key[i % key.len()]);
    }
    proof {
        assert(out@ =~= xor_stream(data@, key@));
    }
    out
}

/// Executable form of [`server_share_of`].
fn share_vec(client: &Vec<u8>, secret: &Vec<u8>) -> (r: Vec<u8>)
    ensures
        r@ == server_share_of(client@, secret@),
{
    let mut r: Vec<u8> = Vec::new();
    for i in 0..SESSION_KEY_LEN
        invariant
            r@ =~= server_share_of(client@, secret@).take(i as int),
    {
        r.push(mix_one(client, secret, i));
    }
    assert(r@ =~= server_share_of(client@, secret@));
    r
}

/// Executable form of [`proof_of`]: what a companion client computes to
/// prove possession of the shared secret in the second handshake round.
pub fn proof_vec(client: &Vec<u8>, server: &Vec<u8>, secret: &Vec<u8>) -> (r: Vec<u8>)
    ensures
        r@ == proof_of(client@, server@, secret@),
{
    let mut r: Vec<u8> = Vec::new();
    for i in 0..SESSION_KEY_LEN
        invariant
            r@ =~= proof_of(client@, server@, secret@).take(i as int),
    {
        r.push(mix_one(client, secret, i) ^ mix_one(server, secret, i));
    }
    assert(r@ =~= proof_of(client@, server@, secret@));
    r
}

/// Executable form of [`key_of`]: the session key both sides derive once
/// the possession proof is accepted.
pub fn key_vec(client: &Vec<u8>, server: &Vec<u8>, secret: &Vec<u8>) -> (r: Vec<u8>)
    ensures
        r@ == key_of(client@, server@, secret@),
{
    let mut r: Vec<u8> = Vec::new();
    for i in 0..SESSION_KEY_LEN
        invariant
            r@ =~= key_of(client@, server@, secret@).take(i as int),
    {
        r.push(mix_one(client, secret, i) ^ mix_one(secret, server, i));
    }
    assert(r@ =~= key_of(client@, server@, secret@));
    r
}

/// Byte-sequence equality, decided byte by byte.
pub fn bytes_eq(a: &Vec<u8>, b: &Vec<u8>) -> (r: bool)
    ensures
        r == (a@ == b@),
{
    if a.len() != b.len() {
        return false;
    }
    let n = a.len();
    for i in 0..n
        invariant
            n == a@.len() == b@.len(),
            forall|j: int| 0 <= j < i ==> a@[j] == b@[j],
    {
        if a[i] != b[i] {
            return false;
        }
    }
    proof {
        assert(a@ =~= b@);
    }
    true
}

/// Executable form of [`mix_byte`].
fn mix_one(share: &Vec<u8>, secret: &Vec<u8>, i: usize) -> (b: u8)
    ensures
        b == mix_byte(share@, secret@, i as int),
{
    let a: u8 = if share.len() > 0 {
        share[i % share.len()]
    } else {
        0x5au8
    };
    let c: u8 = if secret.len() > 0 {
        secret[i % secret.len()]
    } else {
        0xa5u8
    };
    a ^ c ^ ((i % 251) as u8)
}

} // verus!
