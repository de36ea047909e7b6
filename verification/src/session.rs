use vstd::prelude::*;
use crate::text::{append_quoted, i32_decimal, spec_int_decimal, spec_quoted};

verus! {

/// Relies on rand::random: draws the process identity from the thread-local
/// random source; nothing is promised of the value.
#[verifier::external_body]
pub fn fresh_identity() -> i32 {
    rand::random::<i32>()
}

/// The per-process session: an opaque identity, whether a connection exists,
/// whether the handshake completed, and the namespace fixed by that handshake.
///
/// The identity is chosen once, when the session is created, and no operation
/// changes it afterwards. Connection and namespace are write-once: the single
/// successful handshake fixes them for the life of the process.
pub struct SessionState {
    pub identity: i32,
    pub has_connection: bool,
    pub connected: bool,
    pub namespace: Option<String>,
}

/// A fresh session: no connection, no completed handshake, no namespace.
pub open spec fn fresh_session(s: SessionState, identity: i32) -> bool {
    &&& s.identity == identity
    &&& !s.has_connection
    &&& !s.connected
    &&& s.namespace is None
}

/// The connection-setup entry point proceeds exactly when no connection exists.
pub open spec fn spec_should_connect(s: SessionState) -> bool {
    !s.has_connection
}

/// How a completed handshake changes the session: the connection handle is
/// recorded, the connected flag is raised, the namespace is fixed, and the
/// identity is untouched.
pub open spec fn handshake_transition(pre: SessionState, post: SessionState, ns: Seq<char>) -> bool {
    &&& post.identity == pre.identity
    &&& post.has_connection
    &&& post.connected
    &&& post.namespace matches Some(n) && n@ == ns
}

impl SessionState {
    pub fn new(identity: i32) -> (s: SessionState)
        ensures
            fresh_session(s, identity),
    {
        SessionState { identity, has_connection: false, connected: false, namespace: None }
    }

    /// Whether the connection-setup entry point should proceed. A session that
    /// already holds a connection is left alone: no second attempt is made.
    pub fn should_connect(&self) -> (r: bool)
        ensures
            r == spec_should_connect(*self),
    {
        !self.has_connection
    }

    /// Record a completed handshake: the open event fired and the subscription
    /// frame was sent over the new connection, which fixes the namespace.
    pub fn complete_handshake(&mut self, namespace: String)
        requires
            spec_should_connect(*old(self)),
        ensures
            handshake_transition(*old(self), *final(self), namespace@),
    {
        self.has_connection = true;
        self.connected = true;
        self.namespace = Some(namespace);
    }
}

/// Decide a connection attempt: against a session that already holds a
/// connection nothing is returned and nothing may be attempted; otherwise the
/// WebSocket endpoint to open is the base URL with the socket path appended.
pub fn connection_attempt(s: &SessionState, base_url: &str) -> (r: Option<String>)
    ensures
        r is Some <==> spec_should_connect(*s),
        r matches Some(u) ==> u@ == base_url@ + "/ws"@,
{
    if s.has_connection {
        None
    } else {
        let url = String::from_str(base_url).concat("/ws");
        Some(url)
    }
}

/// The handshake frame of the current protocol, sent once on open:
/// `{"namespace":"<ns>","subscribe":"all"}`, member order fixed.
pub open spec fn subscribe_frame_text(ns: Seq<char>) -> Seq<char> {
    "{\"namespace\":"@ + spec_quoted(ns) + ",\"subscribe\":\"all\"}"@
}

pub fn subscribe_frame(namespace: &str) -> (r: String)
    ensures
        r@ == subscribe_frame_text(namespace@),
{
    let mut r = String::from_str("{\"namespace\":");
    append_quoted(&mut r, namespace);
    r.append(",\"subscribe\":\"all\"}");
    proof {
        assert(r@ =~= subscribe_frame_text(namespace@));
    }
    r
}

/// The handshake frame of the legacy protocol: `{"user_id":<identity>}`.
pub open spec fn init_frame_text(identity: int) -> Seq<char> {
    "{\"user_id\":"@ + spec_int_decimal(identity) + "}"@
}

pub fn init_frame(identity: i32) -> (r: String)
    ensures
        r@ == init_frame_text(identity as int),
{
    let mut r = String::from_str("{\"user_id\":");
    let digits = i32_decimal(identity);
    r.append(digits.as_str());
    r.append("}");
    proof {
        assert(r@ =~= init_frame_text(identity as int));
    }
    r
}

/// The identity is generated exactly once, so every identity-bearing frame
/// the process sends before and after a handshake carries the same value.
pub proof fn lemma_identity_frames_agree(pre: SessionState, post: SessionState, ns: Seq<char>)
    requires
        handshake_transition(pre, post, ns),
    ensures
        init_frame_text(pre.identity as int) == init_frame_text(post.identity as int),
{
}

/// A handshake never changes the process identity: every message the process
/// sends after it carries the same identity as every message sent before.
pub proof fn lemma_identity_stable(pre: SessionState, post: SessionState, ns: Seq<char>)
    requires
        handshake_transition(pre, post, ns),
    ensures
        post.identity == pre.identity,
{
}

/// Setting up the connection is idempotent: once a handshake has completed,
/// the connection-setup entry point refuses a second attempt.
pub proof fn lemma_connect_idempotent(pre: SessionState, post: SessionState, ns: Seq<char>)
    requires
        handshake_transition(pre, post, ns),
    ensures
        !spec_should_connect(post),
{
}

} // verus!
