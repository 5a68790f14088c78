use vstd::prelude::*;

verus! {

/// The session-cookie value that carries identity claim `claim` under server
/// key `key`: an authenticity tag followed by the claim. Deterministic in the
/// key and the claim.
pub uninterp spec fn sealed_of(key: Seq<u8>, claim: Seq<char>) -> Seq<char>;

/// Relies on cookie::CookieJar::signed_mut and SignedJar::add: the stored
/// value is the base64 HMAC-SHA256 tag of the claim, computed from the key,
/// followed by the claim itself, so it is a function of key and claim alone.
/// cookie::Key::from panics on a key under 64 bytes, hence the bound.
#[verifier::external_body]
fn seal_with_key(key: &[u8], claim: &str) -> (r: String)
    requires
        key@.len() >= 64,
    ensures
        r@ == sealed_of(key@, claim@),
{
    let k = cookie::Key::from(key);
    let mut jar = cookie::CookieJar::new();
    jar.signed_mut(&k).add(cookie::Cookie::new("id", claim.to_string()));
    jar.get("id").unwrap().value().to_string()
}

/// Relies on cookie::SignedJar::verify: it accepts exactly the values whose
/// HMAC-SHA256 tag (in canonical base64) validates under the key — that is,
/// exactly the outputs of signing some claim with the same key — and then
/// returns the embedded claim.
#[verifier::external_body]
fn unseal_with_key(key: &[u8], sealed: &str) -> (r: Option<String>)
    requires
        key@.len() >= 64,
    ensures
        match r {
            Some(claim) => sealed@ == sealed_of(key@, claim@),
            None => forall|v: Seq<char>| sealed@ != sealed_of(key@, v),
        },
{
    let k = cookie::Key::from(key);
    let jar = cookie::CookieJar::new();
    jar.signed(&k).verify(cookie::Cookie::new("id", sealed.to_string())).map(|c| c.value().to_string())
}

/// What a handler is told to do to the client's session cookie.
#[derive(Debug)]
pub enum CookieAction {
    /// Issue the session cookie with this (sealed) value.
    Issue(String),
    /// Instruct the client to discard the session cookie.
    Clear,
}

/// The decision the session-verification middleware takes on one request.
#[derive(Debug)]
pub enum GateDecision {
    /// Invoke the wrapped handler; the validated identity claim is attached.
    Forward(String),
    /// Short-circuit with this HTTP status and do not invoke the handler.
    Reject(u16),
}

/// The mathematical value of a middleware decision.
pub ghost enum Decision {
    Forward(Seq<char>),
    Reject(int),
}

impl View for GateDecision {
    type V = Decision;

    open spec fn view(&self) -> Decision {
        match self {
            GateDecision::Forward(claim) => Decision::Forward(claim@),
            GateDecision::Reject(code) => Decision::Reject(*code as int),
        }
    }
}

/// The middleware's state machine on one request, relating the inbound
/// cookie to the decision. A request is forwarded exactly on a cookie sealed
/// under the server key; everything else — no cookie, or a value that no
/// claim seals to — is rejected with status 401 before any handler runs.
pub open spec fn gate_decides(key: Seq<u8>, cookie: Option<Seq<char>>, d: Decision) -> bool {
    match d {
        Decision::Forward(claim) => cookie == Some(sealed_of(key, claim)),
        Decision::Reject(code) => code == 401 && (cookie matches Some(c) ==> forall|v: Seq<char>|
            c != sealed_of(key, v)),
    }
}

/// The view of an optional borrowed cookie value.
pub open spec fn spec_cookie(cookie: Option<&String>) -> Option<Seq<char>> {
    match cookie {
        Some(c) => Some(c@),
        None => None,
    }
}

/// Server-side session configuration: the key that seals and validates
/// session cookies. It authenticates identity claims end to end; no
/// server-side session table exists.
pub struct CookieAuth {
    key: Vec<u8>,
}

impl CookieAuth {
    /// The sealing key.
    pub closed spec fn key(&self) -> Seq<u8> {
        self.key@
    }

    /// The key is long enough for the cookie signer.
    pub open spec fn wf(&self) -> bool {
        self.key().len() >= 64
    }

    pub fn new(key: Vec<u8>) -> (r: CookieAuth)
        requires
            key@.len() >= 64,
        ensures
            r.key() == key@,
            r.wf(),
    {
        CookieAuth { key }
    }

    /// Writes an identity claim into a fresh session-cookie value, sealed so
    /// that the middleware later accepts exactly this value.
    pub fn set_identity(&self, claim: &str) -> (r: CookieAction)
        requires
            self.wf(),
        ensures
            r matches CookieAction::Issue(c) && c@ == sealed_of(self.key(), claim@),
    {
        CookieAction::Issue(seal_with_key(self.key.as_slice(), claim))
    }

    /// Instructs the client to discard the session cookie. Always succeeds;
    /// with no cookie present the instruction is a harmless no-op.
    pub fn clear_identity(&self) -> (r: CookieAction)
        ensures
            r is Clear,
    {
        CookieAction::Clear
    }

    /// Reads and authenticates the identity claim from an inbound cookie
    /// value: the claim comes back only if the cookie is one this
    /// configuration sealed; an absent or forged cookie yields nothing.
    pub fn get_identity(&self, cookie: Option<&String>) -> (r: Option<String>)
        requires
            self.wf(),
        ensures
            r matches Some(claim) ==> spec_cookie(cookie) == Some(sealed_of(self.key(), claim@)),
            r is None ==> (spec_cookie(cookie) matches Some(c) ==> forall|v: Seq<char>|
                c != sealed_of(self.key(), v)),
    {
        match cookie {
            None => None,
            Some(c) => {
                let r = unseal_with_key(self.key.as_slice(), c.as_str());
                proof {
                    if r is None {
                        assert forall|v: Seq<char>| c@ != sealed_of(self.key(), v) by {
                            if c@ == sealed_of(self.key(), v) {
                                assert(r is Some);
                            }
                        }
                    }
                }
                r
            },
        }
    }

    /// The middleware factory: hands out the per-request interceptor that guards a
    /// protected route group with this configuration's key.
    pub fn new_transform(&self) -> (r: CookieAuthMiddleware)
        requires
            self.wf(),
        ensures
            r.key() == self.key(),
            r.wf(),
    {
        CookieAuthMiddleware { auth: CookieAuth { key: self.key.clone() } }
    }
}

/// The session-verification middleware: runs before the handler of a
/// protected route and decides, from the inbound session cookie alone,
/// whether the request reaches the handler.
pub struct CookieAuthMiddleware {
    auth: CookieAuth,
}

impl CookieAuthMiddleware {
    /// The sealing key the interceptor validates against.
    pub closed spec fn key(&self) -> Seq<u8> {
        self.auth.key()
    }

    pub open spec fn wf(&self) -> bool {
        self.key().len() >= 64
    }

    /// Intercepts one request. The decision is taken solely on the presence
    /// of a validated identity claim: a cookie sealed under the key is
    /// forwarded with its claim, anything else is rejected with 401 and the
    /// wrapped handler is never invoked.
    pub fn call(&self, cookie: Option<&String>) -> (d: GateDecision)
        requires
            self.wf(),
        ensures
            gate_decides(self.key(), spec_cookie(cookie), d@),
    {
        match self.auth.get_identity(cookie) {
            Some(claim) => GateDecision::Forward(claim),
            None => GateDecision::Reject(401),
        }
    }
}

/// A request without a session cookie is always rejected with 401; no such
/// request is ever forwarded to a handler.
pub proof fn lemma_no_cookie_rejected(key: Seq<u8>, d: Decision)
    requires
        gate_decides(key, None, d),
    ensures
        d matches Decision::Reject(code) && code == 401,
{
}

/// A tampered or forged cookie — one that no claim seals to under the key —
/// is treated exactly like an absent one: rejected with 401, never forwarded.
pub proof fn lemma_forged_cookie_rejected(key: Seq<u8>, c: Seq<char>, d: Decision)
    requires
        forall|v: Seq<char>| c != sealed_of(key, v),
        gate_decides(key, Some(c), d),
    ensures
        d matches Decision::Reject(code) && code == 401,
{
    match d {
        Decision::Forward(claim) => {
            assert(c == sealed_of(key, claim));
        },
        Decision::Reject(_) => {},
    }
}

/// A cookie issued by `set_identity` under a key is forwarded by the middleware
/// that validates with the same key: after a successful login, the bearer of
/// the issued cookie reaches protected handlers instead of receiving 401.
pub proof fn lemma_issued_cookie_forwards(key: Seq<u8>, claim: Seq<char>, d: Decision)
    requires
        gate_decides(key, Some(sealed_of(key, claim)), d),
    ensures
        d is Forward,
{
    match d {
        Decision::Reject(_) => {
            assert(sealed_of(key, claim) != sealed_of(key, claim));
        },
        Decision::Forward(_) => {},
    }
}

} // verus!
